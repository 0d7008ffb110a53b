use fractal_worker::error::ProtocolError;
use fractal_worker::fragment_result::{
    check_all_finite, check_all_valid, push_pixels, read_pixels, FragmentResult, ResultError,
};
use fractal_worker::fragment_task::FragmentTask;
use fractal_worker::frame::FrameError;
use fractal_worker::shared_structs::{
    Complex, FractalDescriptor, JuliaDescriptor, PixelData, PixelIntensity, Point, Range,
    Resolution, U8Data,
};
use fractal_worker::Client;

fn pixel(zn: f32, count: f32) -> PixelIntensity {
    PixelIntensity::new(zn.to_bits(), count.to_bits())
}

fn julia_task(nx: u16, ny: u16, id_count: u32) -> FragmentTask {
    FragmentTask {
        id: U8Data { offset: 0, count: id_count },
        fractal: FractalDescriptor::Julia(JuliaDescriptor {
            c: Complex { re: 0.285f64.to_bits(), im: 0.013f64.to_bits() },
            divergence_threshold_square: 4.0f64.to_bits(),
        }),
        max_iteration: 10,
        resolution: Resolution { nx, ny },
        range: Range {
            min: Point { x: (-1.0f64).to_bits(), y: (-2.0f64).to_bits() },
            max: Point { x: 1.0f64.to_bits(), y: 2.5f64.to_bits() },
        },
    }
}

fn result_json(id_count: u32, nx: u16, ny: u16, offset: u32, count: u32) -> String {
    format!(
        "{{\"FragmentResult\":{{\"id\":{{\"offset\":0,\"count\":{}}},\"resolution\":{{\"nx\":{},\"ny\":{}}},\"range\":{{\"min\":{{\"x\":-1.0,\"y\":-2.0}},\"max\":{{\"x\":1.0,\"y\":2.5}}}},\"pixels\":{{\"offset\":{},\"count\":{}}}}}}}",
        id_count, nx, ny, offset, count
    )
}

#[test]
fn result_layout() {
    let task = julia_task(2, 1, 2);
    let id = vec![0xAAu8, 0xBB];
    let pixels = vec![pixel(0.25, 0.5), pixel(1.640625, 0.0)];
    let json = result_json(2, 2, 1, 2, 2);
    let client = Client::new("localhost".to_string(), "c".to_string(), None);
    let bytes =
        client.send_fragment_result(task, id.clone(), pixels.clone(), json.as_bytes()).unwrap();
    let json_size = u32::from_be_bytes([bytes[4], bytes[5], bytes[6], bytes[7]]) as usize;
    let total = u32::from_be_bytes([bytes[0], bytes[1], bytes[2], bytes[3]]) as usize;
    assert_eq!(json_size, json.len());
    assert_eq!(total, json_size + 18);
    assert_eq!(bytes.len(), 8 + total);
    assert_eq!(&bytes[8..8 + json_size], json.as_bytes());
    let mut body = vec![0xAAu8, 0xBB];
    body.extend_from_slice(&0.25f32.to_be_bytes());
    body.extend_from_slice(&0.5f32.to_be_bytes());
    body.extend_from_slice(&1.640625f32.to_be_bytes());
    body.extend_from_slice(&0.0f32.to_be_bytes());
    assert_eq!(body.len(), 18);
    assert_eq!(&bytes[8 + json_size..], &body[..]);
}

#[test]
fn result_for_task_places_pixels_after_the_identifier() {
    let task = julia_task(3, 4, 16);
    let r = FragmentResult::for_task(&task, 16).unwrap();
    assert_eq!(r.id, U8Data { offset: 0, count: 16 });
    assert_eq!(r.pixels, PixelData { offset: 16, count: 12 });
    assert_eq!(r.resolution, task.resolution);
    assert_eq!(r.range, task.range);
    assert!(r.is_valid());
    let empty = FragmentResult::for_task(&task, 0).unwrap();
    assert_eq!(empty.pixels, PixelData { offset: 0, count: 12 });
}

#[test]
fn result_builder_names_the_first_missing_field() {
    assert_eq!(FragmentResult::builder().build().unwrap_err(), ResultError::MissingId);
    assert_eq!(
        FragmentResult::builder().with_id(0, 1).with_pixels(1, 1).build().unwrap_err(),
        ResultError::MissingResolution
    );
    assert_eq!(
        FragmentResult::builder().with_id(0, 1).with_resolution(1, 1).build().unwrap_err(),
        ResultError::MissingRange
    );
    assert_eq!(
        FragmentResult::builder()
            .with_id(0, 1)
            .with_resolution(1, 1)
            .with_range(0, 0, 1, 1)
            .build()
            .unwrap_err(),
        ResultError::MissingPixels
    );
    assert_eq!(ResultError::MissingId.message(), "Id is missing");
    assert_eq!(ResultError::MissingResolution.message(), "Resolution is missing");
    assert_eq!(ResultError::MissingRange.message(), "Range is missing");
    assert_eq!(ResultError::MissingPixels.message(), "Pixels is missing");
}

#[test]
fn result_builder_keeps_what_it_was_given() {
    let r = FragmentResult::builder()
        .with_id(3, 4)
        .with_resolution(5, 6)
        .with_range(7, 8, 9, 10)
        .with_pixels(11, 12)
        .build()
        .unwrap();
    assert_eq!(
        r,
        FragmentResult {
            id: U8Data { offset: 3, count: 4 },
            resolution: Resolution { nx: 5, ny: 6 },
            range: Range { min: Point { x: 7, y: 8 }, max: Point { x: 9, y: 10 } },
            pixels: PixelData { offset: 11, count: 12 },
        }
    );
    assert!(!r.is_valid());
}

#[test]
fn pixel_bytes_round_trip() {
    let pixels = vec![pixel(0.0, 1.0), pixel(3.5, 0.125), pixel(-0.0, 0.75)];
    let mut out = vec![7u8, 7];
    push_pixels(&mut out, &pixels);
    assert_eq!(out.len(), 2 + 24);
    assert_eq!(&out[2..6], &0.0f32.to_be_bytes());
    assert_eq!(&out[6..10], &1.0f32.to_be_bytes());
    assert_eq!(&out[10..14], &3.5f32.to_be_bytes());
    assert_eq!(read_pixels(&out, 2), pixels);
    out.extend_from_slice(&[1, 2, 3]);
    assert_eq!(read_pixels(&out, 2), pixels);
    assert_eq!(read_pixels(&out, out.len()), Vec::new());
}

#[test]
fn result_round_trip() {
    let task = julia_task(2, 2, 3);
    let id = vec![1u8, 2, 3];
    let pixels = vec![pixel(0.0, 0.0), pixel(0.5, 0.25), pixel(2.0, 1.0), pixel(9.0, 0.5)];
    let json = result_json(3, 2, 2, 3, 4);
    let described = FragmentResult::for_task(&task, id.len()).unwrap();
    let bytes = described.encode(json.as_bytes(), &id, &pixels).unwrap();
    let message = FragmentResult::decode(&bytes).unwrap();
    assert_eq!(message.result, described);
    assert_eq!(message.id, id);
    assert_eq!(message.pixels, pixels);
}

#[test]
fn result_json_must_describe_the_result() {
    let task = julia_task(2, 2, 3);
    let described = FragmentResult::for_task(&task, 3).unwrap();
    let id = [1u8, 2, 3];
    let pixels = vec![pixel(0.0, 0.0); 4];
    let other_id = result_json(4, 2, 2, 4, 4);
    assert_eq!(
        described.encode(other_id.as_bytes(), &id, &pixels).unwrap_err(),
        ProtocolError::InvalidValue
    );
    let wrong_count = result_json(3, 2, 2, 3, 5);
    assert_eq!(
        described.encode(wrong_count.as_bytes(), &id, &pixels).unwrap_err(),
        ProtocolError::InvalidValue
    );
    let wrong_offset = result_json(3, 2, 2, 0, 4);
    assert_eq!(
        described.encode(wrong_offset.as_bytes(), &id, &pixels).unwrap_err(),
        ProtocolError::InvalidValue
    );
    assert_eq!(described.encode(b"{", &id, &pixels).unwrap_err(), ProtocolError::InvalidJson);
    assert_eq!(described.encode(b"", &id, &pixels).unwrap_err(), ProtocolError::InvalidJson);
    assert_eq!(described.encode(b"{}", &id, &pixels).unwrap_err(), ProtocolError::MissingField);
}

#[test]
fn result_binary_section_must_fit_the_description() {
    let task = julia_task(2, 2, 3);
    let described = FragmentResult::for_task(&task, 3).unwrap();
    let json = result_json(3, 2, 2, 3, 4);
    let good = vec![pixel(0.0, 0.0); 4];
    assert_eq!(
        described.encode(json.as_bytes(), &[1, 2], &good).unwrap_err(),
        ProtocolError::BinaryLength
    );
    assert_eq!(
        described.encode(json.as_bytes(), &[1, 2, 3], &good[..3]).unwrap_err(),
        ProtocolError::BinaryLength
    );
    let mut bad = good.clone();
    bad[2] = pixel(f32::NAN, 0.0);
    assert_eq!(
        described.encode(json.as_bytes(), &[1, 2, 3], &bad).unwrap_err(),
        ProtocolError::InvalidValue
    );
    bad[2] = pixel(0.0, f32::INFINITY);
    assert_eq!(
        described.encode(json.as_bytes(), &[1, 2, 3], &bad).unwrap_err(),
        ProtocolError::InvalidValue
    );
    bad[2] = pixel(0.0, 1.5);
    assert_eq!(
        described.encode(json.as_bytes(), &[1, 2, 3], &bad).unwrap_err(),
        ProtocolError::InvalidValue
    );
    bad[2] = pixel(-0.5, 0.5);
    assert_eq!(
        described.encode(json.as_bytes(), &[1, 2, 3], &bad).unwrap_err(),
        ProtocolError::InvalidValue
    );
    bad[2] = pixel(-0.0, 1.0);
    assert!(described.encode(json.as_bytes(), &[1, 2, 3], &bad).is_ok());
}

#[test]
fn result_decode_rejections() {
    let json = result_json(3, 2, 2, 3, 4);
    let frame = |binary: &[u8]| fractal_worker::frame::encode_frame(json.as_bytes(), binary).unwrap();
    assert_eq!(FragmentResult::decode(&frame(&[0; 34])).unwrap_err(), ProtocolError::BinaryLength);
    assert_eq!(FragmentResult::decode(&frame(&[0; 36])).unwrap_err(), ProtocolError::BinaryLength);
    assert!(FragmentResult::decode(&frame(&[0; 35])).is_ok());
    let mut with_nan = vec![0u8; 35];
    with_nan[3..7].copy_from_slice(&f32::NAN.to_be_bytes());
    assert_eq!(FragmentResult::decode(&frame(&with_nan)).unwrap_err(), ProtocolError::InvalidValue);
    let mut with_two = vec![0u8; 35];
    with_two[7..11].copy_from_slice(&2.0f32.to_be_bytes());
    assert_eq!(FragmentResult::decode(&frame(&with_two)).unwrap_err(), ProtocolError::InvalidValue);
    with_two[7..11].copy_from_slice(&1.0f32.to_be_bytes());
    assert!(FragmentResult::decode(&frame(&with_two)).is_ok());
    assert_eq!(
        FragmentResult::decode(&[1, 2, 3]).unwrap_err(),
        ProtocolError::Frame(FrameError::Truncated)
    );
}

#[test]
fn all_finite_check() {
    assert!(check_all_finite(&[]));
    assert!(check_all_finite(&[pixel(0.0, 1.0), pixel(f32::MAX, -1.0)]));
    assert!(!check_all_finite(&[pixel(0.0, 1.0), pixel(f32::NEG_INFINITY, 0.0)]));
    assert!(!check_all_finite(&[pixel(0.0, f32::NAN)]));
}

#[test]
fn all_valid_check() {
    assert!(check_all_valid(&[]));
    assert!(check_all_valid(&[pixel(0.0, 1.0), pixel(f32::MAX, 0.0), pixel(1.0e-45, 0.5)]));
    assert!(!check_all_valid(&[pixel(0.0, 1.0), pixel(f32::MAX, -1.0)]));
    assert!(!check_all_valid(&[pixel(0.0, 1.0000001)]));
    assert!(!check_all_valid(&[pixel(-1.0e-45, 0.0)]));
    assert!(!check_all_valid(&[pixel(f32::INFINITY, 0.0)]));
}

#[test]
fn identifier_too_long_for_its_length_field() {
    let task = julia_task(1, 1, 0);
    if usize::BITS > 32 {
        let too_long = u32::MAX as usize + 1;
        assert_eq!(FragmentResult::for_task(&task, too_long), None);
    }
    assert!(FragmentResult::for_task(&task, u32::MAX as usize).is_some());
}
