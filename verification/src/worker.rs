//! The worker's session, one decision at a time.
//!
//! A worker connects, sends its request, reads one task, computes it, opens
//! a new connection, sends the result, closes, and starts over. The worker
//! here decides; the caller acts. The caller performs the action it is
//! given (opening a stream, writing bytes, reading a message, running a
//! kernel), then reports what happened, and is told what to do next. Any
//! failure stops the session for good.

use crate::error::ProtocolError;
use crate::fragment_request::{decimal, push_decimal};
use crate::fragment_result::FragmentResult;
use crate::fragment_task::FragmentTask;
use crate::frame::{encode_frame, encode_spec};
use crate::local_fractal::{all_jobs, render_job, Kernel, RenderJob};
use crate::shared_structs::{FractalDescriptor, PixelIntensity, Range, Resolution};
use vstd::prelude::*;
use vstd::string::*;
use vstd::utf8::encode_utf8;

verus! {

/// How far a worker has come in the current round.
#[derive(Debug, Clone, Copy, PartialEq, Eq, Structural)]
pub enum WorkerState {
    /// No stream is open.
    Disconnected,
    /// A stream is open and nothing was sent on it yet.
    Connected,
    /// The request was sent; the task is awaited.
    RequestSent,
    /// A task was read and accepted; its kernel is not chosen yet.
    TaskReceived,
    /// The kernel was chosen; the pixels are awaited.
    Computing,
    /// The result is ready; a new stream is being opened for it.
    ResultConnecting,
    /// The result was sent; the stream is about to be closed.
    ResultSent,
}

/// Why a session stopped.
#[derive(Debug, Clone, Copy, PartialEq, Eq, Structural)]
pub enum StopReason {
    /// The worker was told to stop.
    Killed,
    /// Connecting, reading or writing failed.
    Io,
    /// A message was rejected.
    Protocol(ProtocolError),
    /// Something was reported that cannot happen in the worker's state.
    Unexpected,
}

/// What the caller reports to the worker.
#[derive(Debug, Clone)]
pub enum WorkerEvent {
    /// Nothing happened; the worker is asked what to do.
    Ready,
    /// A stream to the server was opened.
    Connected,
    /// The bytes that were handed out have been written.
    Sent,
    /// One whole message was read: the length fields and all that follows.
    Received(Vec<u8>),
    /// The kernel has run. `pixels` are the fragment's pixels, row by row,
    /// and `json` is the JSON section that describes the result.
    Computed { pixels: Vec<PixelIntensity>, json: Vec<u8> },
    /// The stream was closed.
    Closed,
    /// Connecting, reading or writing failed.
    Failed,
}

/// What the worker asks the caller to do.
#[derive(Debug, Clone)]
pub enum WorkerAction {
    /// Open a stream to the server.
    Connect,
    /// Write these bytes to the stream.
    Send(Vec<u8>),
    /// Read one whole message from the stream.
    Receive,
    /// Run this kernel over the task's fragment.
    Compute(FragmentTask, Kernel),
    /// Close the stream.
    Close,
    /// Leave the loop.
    Stop(StopReason),
}

/// A worker's action with its bytes as a sequence.
pub enum ActionModel {
    Connect,
    Send(Seq<u8>),
    Receive,
    Compute(FragmentTask, Kernel),
    Close,
    Stop(StopReason),
}

impl WorkerAction {
    /// The action with its bytes as a sequence.
    pub open spec fn model(self) -> ActionModel {
        match self {
            WorkerAction::Connect => ActionModel::Connect,
            WorkerAction::Send(bytes) => ActionModel::Send(bytes@),
            WorkerAction::Receive => ActionModel::Receive,
            WorkerAction::Compute(task, kernel) => ActionModel::Compute(task, kernel),
            WorkerAction::Close => ActionModel::Close,
            WorkerAction::Stop(reason) => ActionModel::Stop(reason),
        }
    }
}

/// What a worker remembers of its session.
pub struct WorkerModel {
    /// The session is over.
    pub killed: bool,
    /// How far the current round has come.
    pub state: WorkerState,
    /// The framed request, sent at the start of every round.
    pub request: Seq<u8>,
    /// The task of the current round.
    pub task: Option<FragmentTask>,
    /// The identifier that came with the task.
    pub id: Seq<u8>,
    /// The framed result that waits for its stream.
    pub outgoing: Seq<u8>,
}

/// The session ends: the kill flag is raised and the caller leaves the loop.
pub open spec fn fail(m: WorkerModel, reason: StopReason) -> (WorkerModel, ActionModel) {
    (WorkerModel { killed: true, ..m }, ActionModel::Stop(reason))
}

/// From task received to computing: the kernel is chosen by the task's
/// descriptor and handed out with the task.
pub open spec fn dispatch(m: WorkerModel) -> (WorkerModel, ActionModel) {
    match m.task {
        Some(task) => (
            WorkerModel { state: WorkerState::Computing, ..m },
            ActionModel::Compute(task, Kernel::of_spec(task.fractal)),
        ),
        None => fail(m, StopReason::Unexpected),
    }
}

/// The result message for the task of the current round.
pub open spec fn result_message(
    m: WorkerModel,
    json: Seq<u8>,
    pixels: Seq<PixelIntensity>,
) -> Result<Seq<u8>, ProtocolError> {
    match m.task {
        None => Err(ProtocolError::InvalidValue),
        Some(task) => match FragmentResult::for_task_spec(task, m.id.len()) {
            None => Err(ProtocolError::BinaryLength),
            Some(described) => described.encode_spec(json, m.id, pixels),
        },
    }
}

/// What the worker does when something is reported to it: its memory
/// afterwards, and the action it asks for.
///
/// Once the session is over, every report is answered by `Stop`. Otherwise
/// the worker moves along the round: connected, request sent, task received
/// and kernel chosen, pixels computed and result framed, new stream opened,
/// result sent, stream closed, and again from the start. A report that does
/// not fit the state, a failure, a message that is rejected, and a stream
/// opened before any request was given each end the session.
pub open spec fn step_spec(m: WorkerModel, event: WorkerEvent) -> (WorkerModel, ActionModel) {
    if m.killed {
        (m, ActionModel::Stop(StopReason::Killed))
    } else if event is Failed {
        fail(m, StopReason::Io)
    } else {
        match m.state {
            WorkerState::Disconnected => match event {
                WorkerEvent::Ready => (m, ActionModel::Connect),
                WorkerEvent::Connected => if m.request.len() == 0 {
                    fail(m, StopReason::Unexpected)
                } else {
                    (
                        WorkerModel { state: WorkerState::Connected, ..m },
                        ActionModel::Send(m.request),
                    )
                },
                _ => fail(m, StopReason::Unexpected),
            },
            WorkerState::Connected => match event {
                WorkerEvent::Sent => (
                    WorkerModel { state: WorkerState::RequestSent, ..m },
                    ActionModel::Receive,
                ),
                _ => fail(m, StopReason::Unexpected),
            },
            WorkerState::RequestSent => match event {
                WorkerEvent::Received(bytes) => match FragmentTask::decode_spec(bytes@) {
                    Ok((task, id)) => dispatch(
                        WorkerModel { state: WorkerState::TaskReceived, task: Some(task), id, ..m },
                    ),
                    Err(e) => fail(m, StopReason::Protocol(e)),
                },
                _ => fail(m, StopReason::Unexpected),
            },
            WorkerState::TaskReceived => match event {
                WorkerEvent::Ready => dispatch(m),
                _ => fail(m, StopReason::Unexpected),
            },
            WorkerState::Computing => match event {
                WorkerEvent::Computed { pixels, json } => match result_message(m, json@, pixels@) {
                    Ok(bytes) => (
                        WorkerModel { state: WorkerState::ResultConnecting, outgoing: bytes, ..m },
                        ActionModel::Connect,
                    ),
                    Err(e) => fail(m, StopReason::Protocol(e)),
                },
                _ => fail(m, StopReason::Unexpected),
            },
            WorkerState::ResultConnecting => match event {
                WorkerEvent::Connected => (m, ActionModel::Send(m.outgoing)),
                WorkerEvent::Sent => (
                    WorkerModel { state: WorkerState::ResultSent, ..m },
                    ActionModel::Close,
                ),
                _ => fail(m, StopReason::Unexpected),
            },
            WorkerState::ResultSent => match event {
                WorkerEvent::Closed => (
                    WorkerModel {
                        state: WorkerState::Disconnected,
                        task: None,
                        id: Seq::<u8>::empty(),
                        outgoing: Seq::<u8>::empty(),
                        ..m
                    },
                    ActionModel::Connect,
                ),
                _ => fail(m, StopReason::Unexpected),
            },
        }
    }
}

/// The state is one in which a task is held.
pub open spec fn holds_task(state: WorkerState) -> bool {
    state is TaskReceived || state is Computing || state is ResultConnecting
        || state is ResultSent
}

/// The state is one in which a framed result is held.
pub open spec fn holds_result(state: WorkerState) -> bool {
    state is ResultConnecting || state is ResultSent
}

/// What holds of a session in every state once it has been started.
///
/// The request is a frame with an empty binary section. Where a task is
/// held, it is well formed and its identifier is as long as the task says.
/// Where a result is held, it is a result message for that task: it is
/// taken apart without error, and gives back the description of the task's
/// result and the task's identifier.
pub open spec fn session_inv(m: WorkerModel) -> bool {
    &&& crate::frame::decode_spec(m.request) is Ok
    &&& crate::frame::decode_spec(m.request)->Ok_0.1.len() == 0
    &&& holds_task(m.state) ==> {
        &&& m.task is Some
        &&& m.task->Some_0.wf()
        &&& m.task->Some_0.id.count == m.id.len()
    }
    &&& holds_result(m.state) ==> {
        &&& FragmentResult::decode_spec(m.outgoing) is Ok
        &&& Some(FragmentResult::decode_spec(m.outgoing)->Ok_0.0) == FragmentResult::for_task_spec(
            m.task->Some_0,
            m.id.len(),
        )
        &&& FragmentResult::decode_spec(m.outgoing)->Ok_0.1 == m.id
        &&& FragmentResult::decode_spec(m.outgoing)->Ok_0.2.len()
            == m.task->Some_0.resolution.pixels()
    }
}

/// A session that starts satisfies the invariant.
pub proof fn lemma_run_worker_establishes_inv(m: WorkerModel, request: Seq<char>)
    requires
        Worker::run_worker_spec(m, request).1 is Connect,
    ensures
        session_inv(Worker::run_worker_spec(m, request).0),
{
    crate::frame::lemma_decode_encode(encode_utf8(request), Seq::<u8>::empty());
}

/// Every step keeps the invariant.
pub proof fn lemma_step_preserves_inv(m: WorkerModel, event: WorkerEvent)
    requires
        session_inv(m),
    ensures
        session_inv(step_spec(m, event).0),
{
    let after = step_spec(m, event).0;
    if !m.killed && !(event is Failed) && m.state is Computing {
        if let WorkerEvent::Computed { pixels, json } = event {
            if result_message(m, json@, pixels@) is Ok {
                let task = m.task->Some_0;
                let described = FragmentResult::for_task_spec(task, m.id.len())->Some_0;
                described.lemma_decode_encode(json@, m.id, pixels@);
            }
        }
    }
}

/// Whatever a started session sends is a message whose envelope is in
/// order: its total length is its JSON length plus the length of its binary
/// section, and it is as long as its total says.
pub proof fn lemma_sent_bytes_are_framed(m: WorkerModel, event: WorkerEvent)
    requires
        session_inv(m),
        step_spec(m, event).1 is Send,
    ensures
        crate::frame::decode_spec(step_spec(m, event).1->Send_0) is Ok,
{
}

/// Once the kill flag is up it stays up, and every report is answered by
/// `Stop`.
pub proof fn lemma_killed_is_final(m: WorkerModel, event: WorkerEvent)
    requires
        m.killed,
    ensures
        step_spec(m, event).0 == m,
        step_spec(m, event).1 is Stop,
{
}

/// A step ends in `Stop` exactly when it leaves the kill flag up.
pub proof fn lemma_stop_iff_killed(m: WorkerModel, event: WorkerEvent)
    ensures
        step_spec(m, event).1 is Stop <==> step_spec(m, event).0.killed,
{
}

/// A worker: where its server is, and how far its session has come.
#[derive(Debug)]
pub struct Worker {
    pub server_addresse: String,
    pub connexion_name: String,
    pub default_port: u16,
    pub kill_connexion: bool,
    /// How far the current round has come.
    pub state: WorkerState,
    /// The framed request, sent at the start of every round.
    pub request: Vec<u8>,
    /// The task of the current round.
    pub task: Option<FragmentTask>,
    /// The identifier that came with the task.
    pub id: Vec<u8>,
    /// The framed result that waits for its stream.
    pub outgoing: Vec<u8>,
}

impl Worker {
    /// What the worker remembers of its session.
    pub open spec fn model(self) -> WorkerModel {
        WorkerModel {
            killed: self.kill_connexion,
            state: self.state,
            request: self.request@,
            task: self.task,
            id: self.id@,
            outgoing: self.outgoing@,
        }
    }

    /// A worker for the server at `server_addresse` and `default_port`. It is
    /// disconnected, has no request yet, and its kill flag is down.
    pub fn new(server_addresse: String, connexion_name: String, default_port: u16) -> (w: Worker)
        ensures
            w.server_addresse == server_addresse,
            w.connexion_name == connexion_name,
            w.default_port == default_port,
            !w.kill_connexion,
            w.model() == (WorkerModel {
                killed: false,
                state: WorkerState::Disconnected,
                request: Seq::<u8>::empty(),
                task: None,
                id: Seq::<u8>::empty(),
                outgoing: Seq::<u8>::empty(),
            }),
    {
        Worker {
            server_addresse,
            connexion_name,
            default_port,
            kill_connexion: false,
            state: WorkerState::Disconnected,
            request: Vec::new(),
            task: None,
            id: Vec::new(),
            outgoing: Vec::new(),
        }
    }

    /// How far the current round has come.
    pub fn state(&self) -> (s: WorkerState)
        ensures
            s == self.model().state,
    {
        self.state
    }

    /// The server's address with the port after a colon.
    pub open spec fn endpoint_spec(self) -> Seq<char> {
        self.server_addresse@ + ":"@ + decimal(self.default_port as nat)
    }

    /// The server's address with the port after a colon, as a stream is
    /// opened to it.
    pub fn endpoint(&self) -> (s: String)
        ensures
            s@ == self.endpoint_spec(),
    {
        let mut s = String::from_str(self.server_addresse.as_str());
        s.append(":");
        push_decimal(&mut s, self.default_port as u32);
        s
    }

    /// Raises the kill flag: the session is over.
    pub fn stop_server(&mut self)
        ensures
            final(self).kill_connexion,
            final(self).model() == (WorkerModel { killed: true, ..old(self).model() }),
            final(self).server_addresse == old(self).server_addresse,
            final(self).connexion_name == old(self).connexion_name,
            final(self).default_port == old(self).default_port,
    {
        self.kill_connexion = true;
    }

    /// What [`Worker::run_worker`] does with the worker's memory: the
    /// request is framed and kept, and the round starts over.
    pub open spec fn run_worker_spec(m: WorkerModel, request: Seq<char>) -> (
        WorkerModel,
        ActionModel,
    ) {
        if m.killed {
            (m, ActionModel::Stop(StopReason::Killed))
        } else {
            match encode_spec(encode_utf8(request), Seq::<u8>::empty()) {
                Err(e) => fail(m, StopReason::Protocol(ProtocolError::Frame(e))),
                Ok(bytes) => (
                    WorkerModel {
                        killed: false,
                        state: WorkerState::Disconnected,
                        request: bytes,
                        task: None,
                        id: Seq::<u8>::empty(),
                        outgoing: Seq::<u8>::empty(),
                    },
                    ActionModel::Connect,
                ),
            }
        }
    }

    /// Starts a session. `request` is the JSON text of the worker's request;
    /// it is framed here, with an empty binary section, and sent at the
    /// start of every round. The answer is the first thing to do: connect,
    /// or stop where the request cannot be framed or the kill flag is up.
    pub fn run_worker(&mut self, request: String) -> (action: WorkerAction)
        ensures
            (final(self).model(), action.model()) == Self::run_worker_spec(
                old(self).model(),
                request@,
            ),
            final(self).server_addresse == old(self).server_addresse,
            final(self).connexion_name == old(self).connexion_name,
            final(self).default_port == old(self).default_port,
    {
        if self.kill_connexion {
            return WorkerAction::Stop(StopReason::Killed);
        }
        let empty: Vec<u8> = Vec::new();
        match encode_frame(request.as_str().as_bytes(), empty.as_slice()) {
            Err(e) => {
                self.kill_connexion = true;
                WorkerAction::Stop(StopReason::Protocol(ProtocolError::Frame(e)))
            },
            Ok(bytes) => {
                self.state = WorkerState::Disconnected;
                self.request = bytes;
                self.task = None;
                self.id = Vec::new();
                self.outgoing = Vec::new();
                WorkerAction::Connect
            },
        }
    }

    /// Ends the session for the given reason.
    fn give_up(&mut self, reason: StopReason) -> (action: WorkerAction)
        ensures
            (final(self).model(), action.model()) == fail(old(self).model(), reason),
            final(self).server_addresse == old(self).server_addresse,
            final(self).connexion_name == old(self).connexion_name,
            final(self).default_port == old(self).default_port,
    {
        self.kill_connexion = true;
        WorkerAction::Stop(reason)
    }

    /// Chooses the kernel for the task that was received.
    fn choose_kernel(&mut self) -> (action: WorkerAction)
        ensures
            (final(self).model(), action.model()) == dispatch(old(self).model()),
            final(self).server_addresse == old(self).server_addresse,
            final(self).connexion_name == old(self).connexion_name,
            final(self).default_port == old(self).default_port,
    {
        match self.task {
            Some(task) => {
                self.state = WorkerState::Computing;
                WorkerAction::Compute(task, Kernel::of(&task.fractal))
            },
            None => self.give_up(StopReason::Unexpected),
        }
    }

    /// Frames the result of the current round.
    fn frame_result(&self, json: &[u8], pixels: &[PixelIntensity]) -> (r: Result<
        Vec<u8>,
        ProtocolError,
    >)
        ensures
            match result_message(self.model(), json@, pixels@) {
                Ok(bytes) => r is Ok && r->Ok_0@ == bytes,
                Err(e) => r is Err && r->Err_0 == e,
            },
    {
        let task = match self.task {
            Some(t) => t,
            None => {
                return Err(ProtocolError::InvalidValue);
            },
        };
        let described = match FragmentResult::for_task(&task, self.id.len()) {
            Some(d) => d,
            None => {
                return Err(ProtocolError::BinaryLength);
            },
        };
        described.encode(json, self.id.as_slice(), pixels)
    }

    /// Takes a report and answers with the next action, as [`step_spec`]
    /// says.
    pub fn step(&mut self, event: WorkerEvent) -> (action: WorkerAction)
        ensures
            (final(self).model(), action.model()) == step_spec(old(self).model(), event),
            final(self).server_addresse == old(self).server_addresse,
            final(self).connexion_name == old(self).connexion_name,
            final(self).default_port == old(self).default_port,
    {
        if self.kill_connexion {
            return WorkerAction::Stop(StopReason::Killed);
        }
        if let WorkerEvent::Failed = event {
            return self.give_up(StopReason::Io);
        }
        match self.state {
            WorkerState::Disconnected => match event {
                WorkerEvent::Ready => WorkerAction::Connect,
                WorkerEvent::Connected => {
                    if self.request.len() == 0 {
                        self.give_up(StopReason::Unexpected)
                    } else {
                        self.state = WorkerState::Connected;
                        WorkerAction::Send(self.request.clone())
                    }
                },
                _ => self.give_up(StopReason::Unexpected),
            },
            WorkerState::Connected => match event {
                WorkerEvent::Sent => {
                    self.state = WorkerState::RequestSent;
                    WorkerAction::Receive
                },
                _ => self.give_up(StopReason::Unexpected),
            },
            WorkerState::RequestSent => match event {
                WorkerEvent::Received(bytes) => match FragmentTask::decode(bytes.as_slice()) {
                    Ok((task, id)) => {
                        self.state = WorkerState::TaskReceived;
                        self.task = Some(task);
                        self.id = id;
                        self.choose_kernel()
                    },
                    Err(e) => self.give_up(StopReason::Protocol(e)),
                },
                _ => self.give_up(StopReason::Unexpected),
            },
            WorkerState::TaskReceived => match event {
                WorkerEvent::Ready => self.choose_kernel(),
                _ => self.give_up(StopReason::Unexpected),
            },
            WorkerState::Computing => match event {
                WorkerEvent::Computed { pixels, json } => match self.frame_result(
                    json.as_slice(),
                    pixels.as_slice(),
                ) {
                    Ok(bytes) => {
                        self.state = WorkerState::ResultConnecting;
                        self.outgoing = bytes;
                        WorkerAction::Connect
                    },
                    Err(e) => self.give_up(StopReason::Protocol(e)),
                },
                _ => self.give_up(StopReason::Unexpected),
            },
            WorkerState::ResultConnecting => match event {
                WorkerEvent::Connected => WorkerAction::Send(self.outgoing.clone()),
                WorkerEvent::Sent => {
                    self.state = WorkerState::ResultSent;
                    WorkerAction::Close
                },
                _ => self.give_up(StopReason::Unexpected),
            },
            WorkerState::ResultSent => match event {
                WorkerEvent::Closed => {
                    self.state = WorkerState::Disconnected;
                    self.task = None;
                    self.id = Vec::new();
                    self.outgoing = Vec::new();
                    WorkerAction::Connect
                },
                _ => self.give_up(StopReason::Unexpected),
            },
        }
    }

    /// Prepares the seven pictures that show each family.
    pub fn generate_all_fractal_models_locally(
        &self,
        resolution: &Resolution,
        max_iterations: i32,
    ) -> (jobs: Vec<RenderJob>)
        ensures
            jobs@ == all_jobs(*resolution, max_iterations),
    {
        crate::local_fractal::generate_all_fractal_models_locally(resolution, max_iterations)
    }

    /// Prepares the picture of one fractal over one range.
    pub fn generate_fractal_locally(
        &self,
        resolution: &Resolution,
        range: &Range,
        fractal_descriptor: FractalDescriptor,
        max_iterations: i32,
    ) -> (job: RenderJob)
        ensures
            job == render_job(*resolution, *range, fractal_descriptor, max_iterations),
    {
        crate::local_fractal::generate_fractal_locally(
            resolution,
            range,
            fractal_descriptor,
            max_iterations,
        )
    }
}

} // verus!
