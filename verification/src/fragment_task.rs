//! The message by which the server hands a fragment to a worker.

use crate::error::ProtocolError;
use crate::frame::{decode_frame, decode_spec};
use crate::json::{field, field_spec, field_u32, field_u32_spec};
use crate::shared_structs::{FractalDescriptor, Range, Resolution, U8Data};
use vstd::prelude::*;

verus! {

/// The bytes that name a task. A worker hands them back with its result.
pub type FragmentTaskId = Vec<u8>;

/// One fragment to compute: where it lies, how finely it is sampled, which
/// fractal to iterate and for how long.
#[derive(Debug, Clone, Copy, PartialEq, Eq, Structural)]
pub struct FragmentTask {
    pub id: U8Data,
    pub fractal: FractalDescriptor,
    pub max_iteration: u32,
    pub resolution: Resolution,
    pub range: Range,
}

impl FragmentTask {
    /// There is at least one iteration and one pixel, the range is ordered
    /// and finite, and the fractal's parameters are in order.
    pub open spec fn wf(self) -> bool {
        &&& self.max_iteration >= 1
        &&& self.resolution.wf()
        &&& self.range.wf()
        &&& self.fractal.wf()
    }

    /// The task with the given fields.
    pub fn new(
        id: U8Data,
        max_iteration: u32,
        resolution: Resolution,
        range: Range,
        fractal: FractalDescriptor,
    ) -> (task: Self)
        ensures
            task == (FragmentTask { id, fractal, max_iteration, resolution, range }),
    {
        FragmentTask { id, fractal, max_iteration, resolution, range }
    }

    /// Tells whether the task is well formed.
    pub fn is_valid(&self) -> (r: bool)
        ensures
            r == self.wf(),
    {
        self.max_iteration >= 1 && self.resolution.is_valid() && self.range.is_valid()
            && self.fractal.is_valid()
    }

    /// The fields of a task as read from an object, before they are checked.
    pub open spec fn fields_spec(v: serde_json::Value) -> Result<FragmentTask, ProtocolError> {
        match field_spec(v, "id"@) {
            Err(e) => Err(e),
            Ok(id_value) => match U8Data::from_value_spec(id_value) {
                Err(e) => Err(e),
                Ok(id) => match field_spec(v, "fractal"@) {
                    Err(e) => Err(e),
                    Ok(fractal_value) => match FractalDescriptor::from_value_spec(fractal_value) {
                        Err(e) => Err(e),
                        Ok(fractal) => match field_u32_spec(v, "max_iteration"@) {
                            Err(e) => Err(e),
                            Ok(max_iteration) => match field_spec(v, "resolution"@) {
                                Err(e) => Err(e),
                                Ok(resolution_value) => match Resolution::from_value_spec(
                                    resolution_value,
                                ) {
                                    Err(e) => Err(e),
                                    Ok(resolution) => match field_spec(v, "range"@) {
                                        Err(e) => Err(e),
                                        Ok(range_value) => match Range::from_value_spec(
                                            range_value,
                                        ) {
                                            Err(e) => Err(e),
                                            Ok(range) => Ok(
                                                FragmentTask {
                                                    id,
                                                    fractal,
                                                    max_iteration,
                                                    resolution,
                                                    range,
                                                },
                                            ),
                                        },
                                    },
                                },
                            },
                        },
                    },
                },
            },
        }
    }

    /// What [`FragmentTask::from_value`] makes of a document: the fields,
    /// refused with `InvalidValue` where they are not well formed.
    pub open spec fn from_value_spec(v: serde_json::Value) -> Result<FragmentTask, ProtocolError> {
        match Self::fields_spec(v) {
            Err(e) => Err(e),
            Ok(task) => if task.wf() {
                Ok(task)
            } else {
                Err(ProtocolError::InvalidValue)
            },
        }
    }

    /// Reads a task from an object with the members `id`, `fractal`,
    /// `max_iteration`, `resolution` and `range`. Other members are ignored.
    /// The task that comes back is well formed.
    pub fn from_value(v: &serde_json::Value) -> (r: Result<FragmentTask, ProtocolError>)
        ensures
            r == Self::from_value_spec(*v),
            r is Ok ==> r->Ok_0.wf(),
    {
        let id = U8Data::from_value(field(v, "id")?)?;
        let fractal = FractalDescriptor::from_value(field(v, "fractal")?)?;
        let max_iteration = field_u32(v, "max_iteration")?;
        let resolution = Resolution::from_value(field(v, "resolution")?)?;
        let range = Range::from_value(field(v, "range")?)?;
        let task = FragmentTask { id, fractal, max_iteration, resolution, range };
        if task.is_valid() {
            Ok(task)
        } else {
            Err(ProtocolError::InvalidValue)
        }
    }

    /// What [`FragmentTask::from_message`] makes of the JSON section of a
    /// task message and the binary section that came with it.
    pub open spec fn from_message_spec(v: serde_json::Value, binary: Seq<u8>) -> Result<
        (FragmentTask, Seq<u8>),
        ProtocolError,
    > {
        match field_spec(v, "FragmentTask"@) {
            Err(e) => Err(e),
            Ok(body) => match Self::from_value_spec(body) {
                Err(e) => Err(e),
                Ok(task) => if task.id.offset == 0 && task.id.count == binary.len() {
                    Ok((task, binary))
                } else {
                    Err(ProtocolError::BinaryLength)
                },
            },
        }
    }

    /// Reads a task message: the document `{"FragmentTask":{..}}` and the
    /// binary section, which must be the task's identifier and nothing else.
    /// The identifier comes back byte for byte.
    pub fn from_message(v: &serde_json::Value, binary: Vec<u8>) -> (r: Result<
        (FragmentTask, FragmentTaskId),
        ProtocolError,
    >)
        ensures
            match Self::from_message_spec(*v, binary@) {
                Ok((task, id)) => r is Ok && r->Ok_0.0 == task && r->Ok_0.1@ == id && task.wf(),
                Err(e) => r is Err && r->Err_0 == e,
            },
    {
        let task = FragmentTask::from_value(field(v, "FragmentTask")?)?;
        if task.id.offset == 0 && task.id.count as usize == binary.len() {
            Ok((task, binary))
        } else {
            Err(ProtocolError::BinaryLength)
        }
    }

    /// What [`FragmentTask::decode`] makes of a whole message.
    pub open spec fn decode_spec(bytes: Seq<u8>) -> Result<(FragmentTask, Seq<u8>), ProtocolError> {
        match decode_spec(bytes) {
            Err(e) => Err(ProtocolError::Frame(e)),
            Ok((json, binary)) => match crate::json::parse_spec(json) {
                Err(e) => Err(e),
                Ok(v) => Self::from_message_spec(v, binary),
            },
        }
    }

    /// Takes a whole task message apart: the envelope, the JSON section, and
    /// the identifier bytes that follow it.
    pub fn decode(bytes: &[u8]) -> (r: Result<(FragmentTask, FragmentTaskId), ProtocolError>)
        ensures
            match Self::decode_spec(bytes@) {
                Ok((task, id)) => r is Ok && r->Ok_0.0 == task && r->Ok_0.1@ == id && task.wf(),
                Err(e) => r is Err && r->Err_0 == e,
            },
    {
        let frame = match decode_frame(bytes) {
            Ok(f) => f,
            Err(e) => {
                return Err(ProtocolError::Frame(e));
            },
        };
        let v = crate::json::parse(frame.json.as_slice())?;
        FragmentTask::from_message(&v, frame.binary)
    }
}

} // verus!
