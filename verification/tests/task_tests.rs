use fractal_worker::error::ProtocolError;
use fractal_worker::fragment_task::FragmentTask;
use fractal_worker::frame::{encode_frame, FrameError};
use fractal_worker::json::parse;
use fractal_worker::shared_structs::{
    Complex, FractalDescriptor, IteratedSinZDescriptor, JuliaDescriptor, MandelbrotDescriptor,
    NewtonRaphsonZ3Descriptor, NewtonRaphsonZ4Descriptor, NovaNewtonRaphsonZ3Descriptor,
    NovaNewtonRaphsonZ4Descriptor, Point, Range, Resolution, U8Data,
};
use fractal_worker::Client;

fn task_json(id: &str, fractal: &str, max_iteration: &str, resolution: &str, range: &str) -> String {
    format!(
        "{{\"FragmentTask\":{{\"id\":{},\"fractal\":{},\"max_iteration\":{},\"resolution\":{},\"range\":{}}}}}",
        id, fractal, max_iteration, resolution, range
    )
}

const ID8: &str = "{\"offset\":0,\"count\":8}";
const JULIA: &str = "{\"Julia\":{\"c\":{\"re\":0.0,\"im\":0.1},\"divergence_threshold_square\":4.0}}";
const RES: &str = "{\"nx\":160,\"ny\":120}";
const RANGE: &str = "{\"min\":{\"x\":0.0,\"y\":-1.5},\"max\":{\"x\":1.0,\"y\":1.0}}";

fn sample_json() -> String {
    task_json(ID8, JULIA, "64", RES, RANGE)
}

fn sample_task() -> FragmentTask {
    FragmentTask {
        id: U8Data { offset: 0, count: 8 },
        fractal: FractalDescriptor::Julia(JuliaDescriptor {
            c: Complex { re: 0.0f64.to_bits(), im: 0.1f64.to_bits() },
            divergence_threshold_square: 4.0f64.to_bits(),
        }),
        max_iteration: 64,
        resolution: Resolution { nx: 160, ny: 120 },
        range: Range {
            min: Point { x: 0.0f64.to_bits(), y: (-1.5f64).to_bits() },
            max: Point { x: 1.0f64.to_bits(), y: 1.0f64.to_bits() },
        },
    }
}

fn decode_with(json: &str, id: &[u8]) -> Result<(FragmentTask, Vec<u8>), ProtocolError> {
    FragmentTask::decode(&encode_frame(json.as_bytes(), id).unwrap())
}

fn body_error(json: &str) -> ProtocolError {
    decode_with(json, &[0; 8]).unwrap_err()
}

#[test]
fn task_and_id_parse() {
    let json = sample_json();
    let id = [0xde, 0xad, 0xbe, 0xef, 0x00, 0x01, 0xfe, 0xff];
    let mut bytes = Vec::new();
    bytes.extend_from_slice(&((json.len() + 8) as u32).to_be_bytes());
    bytes.extend_from_slice(&(json.len() as u32).to_be_bytes());
    bytes.extend_from_slice(json.as_bytes());
    bytes.extend_from_slice(&id);
    let (task, back) = FragmentTask::decode(&bytes).unwrap();
    assert_eq!(task, sample_task());
    assert_eq!(back, id.to_vec());
    assert!(task.is_valid());
}

#[test]
fn client_reads_the_same_task() {
    let client = Client::new("localhost".to_string(), "c".to_string(), None);
    let bytes = encode_frame(sample_json().as_bytes(), &[1, 2, 3, 4, 5, 6, 7, 8]).unwrap();
    let (task, id) = client.read_fragment_task(&bytes).unwrap();
    assert_eq!(task, sample_task());
    assert_eq!(id, vec![1, 2, 3, 4, 5, 6, 7, 8]);
}

#[test]
fn task_new_keeps_its_fields() {
    let t = sample_task();
    assert_eq!(FragmentTask::new(t.id, t.max_iteration, t.resolution, t.range, t.fractal), t);
}

#[test]
fn task_members_may_come_in_any_order_and_extras_are_ignored() {
    let json = format!(
        "{{\"extra\":1,\"FragmentTask\":{{\"range\":{},\"note\":\"x\",\"resolution\":{},\"max_iteration\":64,\"fractal\":{},\"id\":{}}}}}",
        RANGE, RES, JULIA, ID8
    );
    let (task, _) = decode_with(&json, &[0; 8]).unwrap();
    assert_eq!(task, sample_task());
}

#[test]
fn every_family_is_read() {
    let cases: [(&str, FractalDescriptor); 7] = [
        (JULIA, sample_task().fractal),
        (
            "{\"IteratedSinZ\":{\"c\":{\"re\":0.2,\"im\":1.0}}}",
            FractalDescriptor::IteratedSinZ(IteratedSinZDescriptor {
                c: Complex { re: 0.2f64.to_bits(), im: 1.0f64.to_bits() },
            }),
        ),
        ("{\"Mandelbrot\":{}}", FractalDescriptor::Mandelbrot(MandelbrotDescriptor {})),
        (
            "{\"NewtonRaphsonZ3\":{}}",
            FractalDescriptor::NewtonRaphsonZ3(NewtonRaphsonZ3Descriptor {}),
        ),
        (
            "{\"NewtonRaphsonZ4\":{}}",
            FractalDescriptor::NewtonRaphsonZ4(NewtonRaphsonZ4Descriptor {}),
        ),
        ("{\"NovaNewtonZ3\":{}}", FractalDescriptor::NovaNewtonZ3(NovaNewtonRaphsonZ3Descriptor {})),
        ("{\"NovaNewtonZ4\":{}}", FractalDescriptor::NovaNewtonZ4(NovaNewtonRaphsonZ4Descriptor {})),
    ];
    for (text, expected) in cases {
        let v = parse(text.as_bytes()).unwrap();
        assert_eq!(FractalDescriptor::from_value(&v), Ok(expected), "{text}");
        let (task, _) = decode_with(&task_json(ID8, text, "1", RES, RANGE), &[0; 8]).unwrap();
        assert_eq!(task.fractal, expected);
        assert!(expected.is_valid());
    }
}

#[test]
fn unknown_or_ambiguous_family_is_rejected() {
    for text in [
        "{}",
        "{\"Burning\":{}}",
        "{\"julia\":{}}",
        "{\"Mandelbrot\":{},\"NovaNewtonZ3\":{}}",
        "{\"Julia\":{\"c\":{\"re\":0,\"im\":0},\"divergence_threshold_square\":4},\"Mandelbrot\":{}}",
        "\"Mandelbrot\"",
        "[]",
    ] {
        assert_eq!(
            body_error(&task_json(ID8, text, "1", RES, RANGE)),
            ProtocolError::UnknownDescriptor,
            "{text}"
        );
    }
}

#[test]
fn family_parameters_are_required() {
    assert_eq!(
        body_error(&task_json(ID8, "{\"Julia\":{}}", "1", RES, RANGE)),
        ProtocolError::MissingField
    );
    assert_eq!(
        body_error(&task_json(ID8, "{\"Julia\":{\"c\":{\"re\":0,\"im\":0}}}", "1", RES, RANGE)),
        ProtocolError::MissingField
    );
    assert_eq!(
        body_error(&task_json(ID8, "{\"IteratedSinZ\":{\"c\":{\"re\":\"a\",\"im\":0}}}", "1", RES, RANGE)),
        ProtocolError::InvalidNumber
    );
}

#[test]
fn task_missing_members() {
    assert_eq!(body_error("{}"), ProtocolError::MissingField);
    assert_eq!(body_error("{\"FragmentTask\":{}}"), ProtocolError::MissingField);
    assert_eq!(body_error("{\"FragmentResult\":{}}"), ProtocolError::MissingField);
    let no_range = format!(
        "{{\"FragmentTask\":{{\"id\":{},\"fractal\":{},\"max_iteration\":1,\"resolution\":{}}}}}",
        ID8, JULIA, RES
    );
    assert_eq!(body_error(&no_range), ProtocolError::MissingField);
    assert_eq!(
        body_error(&task_json("{\"offset\":0}", JULIA, "1", RES, RANGE)),
        ProtocolError::MissingField
    );
}

#[test]
fn task_numbers_out_of_kind_or_size() {
    assert_eq!(
        body_error(&task_json(ID8, JULIA, "4294967296", RES, RANGE)),
        ProtocolError::InvalidNumber
    );
    assert_eq!(body_error(&task_json(ID8, JULIA, "1.5", RES, RANGE)), ProtocolError::InvalidNumber);
    assert_eq!(body_error(&task_json(ID8, JULIA, "-1", RES, RANGE)), ProtocolError::InvalidNumber);
    assert_eq!(
        body_error(&task_json(ID8, JULIA, "1", "{\"nx\":65536,\"ny\":1}", RANGE)),
        ProtocolError::InvalidNumber
    );
    assert_eq!(
        body_error(&task_json("{\"offset\":0,\"count\":\"8\"}", JULIA, "1", RES, RANGE)),
        ProtocolError::InvalidNumber
    );
    assert_eq!(
        body_error(&task_json(
            ID8,
            JULIA,
            "1",
            RES,
            "{\"min\":{\"x\":null,\"y\":0},\"max\":{\"x\":1,\"y\":1}}"
        )),
        ProtocolError::InvalidNumber
    );
}

#[test]
fn task_values_that_break_an_invariant() {
    assert_eq!(body_error(&task_json(ID8, JULIA, "0", RES, RANGE)), ProtocolError::InvalidValue);
    assert_eq!(
        body_error(&task_json(ID8, JULIA, "1", "{\"nx\":0,\"ny\":1}", RANGE)),
        ProtocolError::InvalidValue
    );
    assert_eq!(
        body_error(&task_json(ID8, JULIA, "1", "{\"nx\":1,\"ny\":0}", RANGE)),
        ProtocolError::InvalidValue
    );
    assert_eq!(
        body_error(&task_json(
            ID8,
            JULIA,
            "1",
            RES,
            "{\"min\":{\"x\":1.0,\"y\":0.0},\"max\":{\"x\":1.0,\"y\":1.0}}"
        )),
        ProtocolError::InvalidValue
    );
    assert_eq!(
        body_error(&task_json(
            ID8,
            JULIA,
            "1",
            RES,
            "{\"min\":{\"x\":0.0,\"y\":2.0},\"max\":{\"x\":1.0,\"y\":1.0}}"
        )),
        ProtocolError::InvalidValue
    );
    assert_eq!(
        body_error(&task_json(
            ID8,
            "{\"Julia\":{\"c\":{\"re\":0.0,\"im\":0.1},\"divergence_threshold_square\":0.0}}",
            "1",
            RES,
            RANGE
        )),
        ProtocolError::InvalidValue
    );
    assert_eq!(
        body_error(&task_json(
            ID8,
            "{\"Julia\":{\"c\":{\"re\":0.0,\"im\":0.1},\"divergence_threshold_square\":-4.0}}",
            "1",
            RES,
            RANGE
        )),
        ProtocolError::InvalidValue
    );
}

#[test]
fn task_binary_section_must_be_the_identifier() {
    let json = sample_json();
    assert_eq!(decode_with(&json, &[0; 7]).unwrap_err(), ProtocolError::BinaryLength);
    assert_eq!(decode_with(&json, &[0; 9]).unwrap_err(), ProtocolError::BinaryLength);
    assert_eq!(decode_with(&json, &[]).unwrap_err(), ProtocolError::BinaryLength);
    let shifted = task_json("{\"offset\":1,\"count\":8}", JULIA, "64", RES, RANGE);
    assert_eq!(decode_with(&shifted, &[0; 8]).unwrap_err(), ProtocolError::BinaryLength);
    let empty_id = task_json("{\"offset\":0,\"count\":0}", JULIA, "64", RES, RANGE);
    let (_, id) = decode_with(&empty_id, &[]).unwrap();
    assert!(id.is_empty());
}

#[test]
fn task_envelope_and_json_rejections() {
    assert_eq!(
        FragmentTask::decode(&[0, 0, 0, 1]).unwrap_err(),
        ProtocolError::Frame(FrameError::Truncated)
    );
    assert_eq!(
        FragmentTask::decode(&[0, 0, 0, 0, 0, 0, 0, 0]).unwrap_err(),
        ProtocolError::Frame(FrameError::EmptyJson)
    );
    assert_eq!(
        FragmentTask::decode(&[0, 0, 0, 9, 0, 0, 0, 2, b'{', b'}']).unwrap_err(),
        ProtocolError::Frame(FrameError::LengthMismatch)
    );
    assert_eq!(decode_with("{\"FragmentTask\":", &[]).unwrap_err(), ProtocolError::InvalidJson);
}

#[test]
fn task_from_message_takes_a_parsed_document() {
    let v = parse(sample_json().as_bytes()).unwrap();
    let (task, id) = FragmentTask::from_message(&v, vec![9; 8]).unwrap();
    assert_eq!(task, sample_task());
    assert_eq!(id, vec![9; 8]);
    assert_eq!(
        FragmentTask::from_message(&v, vec![9; 3]).unwrap_err(),
        ProtocolError::BinaryLength
    );
}

#[test]
fn range_and_resolution_validity() {
    let t = sample_task();
    assert!(t.range.is_valid());
    assert!(t.resolution.is_valid());
    assert_eq!(t.resolution.pixel_count(), 160 * 120);
    assert_eq!(Resolution { nx: 65535, ny: 65535 }.pixel_count(), 65535 * 65535);
    assert!(!Resolution { nx: 0, ny: 4 }.is_valid());
    let nan = Range {
        min: Point { x: f64::NAN.to_bits(), y: 0.0f64.to_bits() },
        max: Point { x: 1.0f64.to_bits(), y: 1.0f64.to_bits() },
    };
    assert!(!nan.is_valid());
    let infinite = Range {
        min: Point { x: 0.0f64.to_bits(), y: 0.0f64.to_bits() },
        max: Point { x: f64::INFINITY.to_bits(), y: 1.0f64.to_bits() },
    };
    assert!(!infinite.is_valid());
    assert!(!Complex::new(f64::NAN.to_bits(), 0).is_valid());
    assert!(Complex::new(1.5f64.to_bits(), (-2.0f64).to_bits()).is_valid());
}
