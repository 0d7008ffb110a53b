use fractal_worker::error::ProtocolError;
use fractal_worker::fragment_result::FragmentResult;
use fractal_worker::frame::{encode_frame, FrameError};
use fractal_worker::local_fractal::Kernel;
use fractal_worker::shared_structs::{PixelIntensity, Resolution};
use fractal_worker::worker::{StopReason, Worker, WorkerAction, WorkerEvent, WorkerState};

const REQUEST: &str = "{\"FragmentRequest\":{\"worker_name\":\"w\",\"maximal_work_load\":1}}";

const TASK: &str = "{\"FragmentTask\":{\"id\":{\"offset\":0,\"count\":2},\"fractal\":{\"Mandelbrot\":{}},\"max_iteration\":10,\"resolution\":{\"nx\":2,\"ny\":1},\"range\":{\"min\":{\"x\":-2.0,\"y\":-1.25},\"max\":{\"x\":1.0,\"y\":1.25}}}}";

const RESULT: &str = "{\"FragmentResult\":{\"id\":{\"offset\":0,\"count\":2},\"resolution\":{\"nx\":2,\"ny\":1},\"range\":{\"min\":{\"x\":-2.0,\"y\":-1.25},\"max\":{\"x\":1.0,\"y\":1.25}},\"pixels\":{\"offset\":2,\"count\":2}}}";

fn worker() -> Worker {
    Worker::new("localhost".to_string(), "group3".to_string(), 8787)
}

fn pixel(zn: f32, count: f32) -> PixelIntensity {
    PixelIntensity::new(zn.to_bits(), count.to_bits())
}

fn is_connect(action: &WorkerAction) -> bool {
    matches!(action, WorkerAction::Connect)
}

fn stopped_with(action: &WorkerAction, reason: StopReason) -> bool {
    matches!(action, WorkerAction::Stop(r) if *r == reason)
}

fn started() -> Worker {
    let mut w = worker();
    assert!(is_connect(&w.run_worker(REQUEST.to_string())));
    w
}

fn computing() -> Worker {
    let mut w = started();
    w.step(WorkerEvent::Connected);
    w.step(WorkerEvent::Sent);
    let message = encode_frame(TASK.as_bytes(), &[0xAA, 0xBB]).unwrap();
    let action = w.step(WorkerEvent::Received(message));
    assert!(matches!(action, WorkerAction::Compute(_, Kernel::Mandelbrot)));
    w
}

#[test]
fn a_new_worker_is_disconnected() {
    let w = worker();
    assert_eq!(w.server_addresse, "localhost");
    assert_eq!(w.connexion_name, "group3");
    assert_eq!(w.default_port, 8787);
    assert!(!w.kill_connexion);
    assert_eq!(w.state(), WorkerState::Disconnected);
    assert_eq!(w.endpoint(), "localhost:8787");
    assert_eq!(Worker::new("h".to_string(), "c".to_string(), 0).endpoint(), "h:0");
    assert_eq!(Worker::new("h".to_string(), "c".to_string(), 65535).endpoint(), "h:65535");
}

#[test]
fn stop_server_raises_the_kill_flag() {
    let mut w = started();
    w.stop_server();
    assert!(w.kill_connexion);
    assert!(stopped_with(&w.step(WorkerEvent::Ready), StopReason::Killed));
    assert!(stopped_with(&w.step(WorkerEvent::Connected), StopReason::Killed));
    assert!(stopped_with(&w.run_worker(REQUEST.to_string()), StopReason::Killed));
    assert_eq!(w.state(), WorkerState::Disconnected);
}

#[test]
fn run_worker_frames_the_request() {
    let mut w = worker();
    assert!(is_connect(&w.run_worker(REQUEST.to_string())));
    let mut expected = vec![0, 0, 0, 61, 0, 0, 0, 61];
    expected.extend_from_slice(REQUEST.as_bytes());
    assert_eq!(w.request, expected);
    match w.step(WorkerEvent::Connected) {
        WorkerAction::Send(bytes) => assert_eq!(bytes, expected),
        other => panic!("{:?}", other),
    }
    assert_eq!(w.state(), WorkerState::Connected);
}

#[test]
fn run_worker_refuses_an_empty_request() {
    let mut w = worker();
    let action = w.run_worker(String::new());
    assert!(stopped_with(
        &action,
        StopReason::Protocol(ProtocolError::Frame(FrameError::EmptyJson))
    ));
    assert!(w.kill_connexion);
}

#[test]
fn a_whole_round() {
    let mut w = started();
    assert!(is_connect(&w.step(WorkerEvent::Ready)));
    assert_eq!(w.state(), WorkerState::Disconnected);

    assert!(matches!(w.step(WorkerEvent::Connected), WorkerAction::Send(_)));
    assert_eq!(w.state(), WorkerState::Connected);

    assert!(matches!(w.step(WorkerEvent::Sent), WorkerAction::Receive));
    assert_eq!(w.state(), WorkerState::RequestSent);

    let message = encode_frame(TASK.as_bytes(), &[0xAA, 0xBB]).unwrap();
    let (task, kernel) = match w.step(WorkerEvent::Received(message)) {
        WorkerAction::Compute(task, kernel) => (task, kernel),
        other => panic!("{:?}", other),
    };
    assert_eq!(w.state(), WorkerState::Computing);
    assert_eq!(kernel, Kernel::Mandelbrot);
    assert_eq!(task.resolution, Resolution { nx: 2, ny: 1 });
    assert_eq!(w.id, vec![0xAA, 0xBB]);
    assert_eq!(w.task, Some(task));

    let pixels = vec![pixel(1.640625, 0.1), pixel(0.5, 1.0)];
    let described = FragmentResult::for_task(&task, w.id.len()).unwrap();
    let expected = described.encode(RESULT.as_bytes(), &[0xAA, 0xBB], &pixels).unwrap();
    let action = w.step(WorkerEvent::Computed { pixels, json: RESULT.as_bytes().to_vec() });
    assert!(is_connect(&action));
    assert_eq!(w.state(), WorkerState::ResultConnecting);

    match w.step(WorkerEvent::Connected) {
        WorkerAction::Send(bytes) => assert_eq!(bytes, expected),
        other => panic!("{:?}", other),
    }
    assert_eq!(w.state(), WorkerState::ResultConnecting);

    assert!(matches!(w.step(WorkerEvent::Sent), WorkerAction::Close));
    assert_eq!(w.state(), WorkerState::ResultSent);

    assert!(is_connect(&w.step(WorkerEvent::Closed)));
    assert_eq!(w.state(), WorkerState::Disconnected);
    assert_eq!(w.task, None);
    assert!(w.id.is_empty());
    assert!(w.outgoing.is_empty());
    assert!(!w.kill_connexion);

    assert!(matches!(w.step(WorkerEvent::Connected), WorkerAction::Send(_)));
    assert_eq!(w.state(), WorkerState::Connected);
}

#[test]
fn a_failure_ends_the_session() {
    let mut w = started();
    assert!(stopped_with(&w.step(WorkerEvent::Failed), StopReason::Io));
    assert!(w.kill_connexion);
    assert!(stopped_with(&w.step(WorkerEvent::Connected), StopReason::Killed));

    let mut w = computing();
    assert!(stopped_with(&w.step(WorkerEvent::Failed), StopReason::Io));
    assert_eq!(w.state(), WorkerState::Computing);
}

#[test]
fn a_report_out_of_turn_ends_the_session() {
    let mut w = started();
    assert!(stopped_with(&w.step(WorkerEvent::Sent), StopReason::Unexpected));
    assert!(w.kill_connexion);

    let mut w = started();
    w.step(WorkerEvent::Connected);
    assert!(stopped_with(&w.step(WorkerEvent::Connected), StopReason::Unexpected));

    let mut w = started();
    w.step(WorkerEvent::Connected);
    w.step(WorkerEvent::Sent);
    assert!(stopped_with(&w.step(WorkerEvent::Closed), StopReason::Unexpected));

    let mut w = computing();
    assert!(stopped_with(&w.step(WorkerEvent::Ready), StopReason::Unexpected));
}

#[test]
fn a_worker_without_a_request_sends_nothing() {
    let mut w = worker();
    assert!(is_connect(&w.step(WorkerEvent::Ready)));
    assert!(stopped_with(&w.step(WorkerEvent::Connected), StopReason::Unexpected));
    assert!(w.kill_connexion);
}

#[test]
fn a_rejected_task_ends_the_session() {
    let mut w = started();
    w.step(WorkerEvent::Connected);
    w.step(WorkerEvent::Sent);
    let message = encode_frame(TASK.as_bytes(), &[0xAA]).unwrap();
    assert!(stopped_with(
        &w.step(WorkerEvent::Received(message)),
        StopReason::Protocol(ProtocolError::BinaryLength)
    ));
    assert!(w.kill_connexion);
    assert_eq!(w.state(), WorkerState::RequestSent);

    let mut w = started();
    w.step(WorkerEvent::Connected);
    w.step(WorkerEvent::Sent);
    assert!(stopped_with(
        &w.step(WorkerEvent::Received(vec![0, 0, 0, 1])),
        StopReason::Protocol(ProtocolError::Frame(FrameError::Truncated))
    ));
}

#[test]
fn a_result_that_does_not_fit_ends_the_session() {
    let mut w = computing();
    let action = w.step(WorkerEvent::Computed {
        pixels: vec![pixel(0.0, 0.0)],
        json: RESULT.as_bytes().to_vec(),
    });
    assert!(stopped_with(&action, StopReason::Protocol(ProtocolError::BinaryLength)));

    let mut w = computing();
    let action = w.step(WorkerEvent::Computed {
        pixels: vec![pixel(0.0, 0.0), pixel(f32::NAN, 0.0)],
        json: RESULT.as_bytes().to_vec(),
    });
    assert!(stopped_with(&action, StopReason::Protocol(ProtocolError::InvalidValue)));

    let mut w = computing();
    let action = w.step(WorkerEvent::Computed {
        pixels: vec![pixel(0.0, 0.0), pixel(0.0, 1.25)],
        json: RESULT.as_bytes().to_vec(),
    });
    assert!(stopped_with(&action, StopReason::Protocol(ProtocolError::InvalidValue)));

    let mut w = computing();
    let action = w.step(WorkerEvent::Computed {
        pixels: vec![pixel(0.0, 0.0), pixel(0.0, 0.0)],
        json: b"{}".to_vec(),
    });
    assert!(stopped_with(&action, StopReason::Protocol(ProtocolError::MissingField)));
}

#[test]
fn task_received_chooses_the_kernel_when_asked() {
    let mut w = computing();
    w.state = WorkerState::TaskReceived;
    assert!(matches!(w.step(WorkerEvent::Ready), WorkerAction::Compute(_, Kernel::Mandelbrot)));
    assert_eq!(w.state(), WorkerState::Computing);

    let mut w = started();
    w.state = WorkerState::TaskReceived;
    assert!(stopped_with(&w.step(WorkerEvent::Ready), StopReason::Unexpected));
}

#[test]
fn the_worker_prepares_local_pictures() {
    let w = worker();
    let resolution = Resolution { nx: 8, ny: 6 };
    let jobs = w.generate_all_fractal_models_locally(&resolution, 50);
    assert_eq!(jobs.len(), 7);
    assert_eq!(jobs, fractal_worker::generate_all_fractal_models_locally(&resolution, 50));
    let job = w.generate_fractal_locally(
        &resolution,
        &jobs[2].range,
        fractal_worker::FractalDescriptor::Mandelbrot(fractal_worker::MandelbrotDescriptor {}),
        50,
    );
    assert_eq!(job, jobs[2]);
}
