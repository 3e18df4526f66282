use jpg_glitch::image::{APP0_LEN, DHT_LEN, DQT_LEN, HEADER_TOTAL, SOF0_LEN, SOI_LEN, SOS_LEN};
use jpg_glitch::{break_jpg, create_binary, f, parse, JPGError, JPG};

fn sample_headers() -> Vec<u8> {
    let mut v = vec![0xFF, 0xD8];
    v.extend(vec![0xA0; APP0_LEN]);
    v.extend(vec![0xA1; DQT_LEN]);
    v.extend(vec![0xA2; SOF0_LEN]);
    v.extend(vec![0xA3; DHT_LEN]);
    v.extend(vec![0xA4; SOS_LEN]);
    assert_eq!(v.len(), HEADER_TOTAL);
    v
}

fn input_with_body(body_and_marker: &[u8]) -> Vec<u8> {
    let mut v = sample_headers();
    v.extend_from_slice(body_and_marker);
    v
}

#[test]
fn parse_transform_serialize_scenario() {
    let input = input_with_body(&[0xE8, 0x01, 0xFF, 0xD9]);
    let jpg = parse(&input).unwrap();
    assert_eq!(jpg.soi, vec![0xFF, 0xD8]);
    assert_eq!(jpg.app0, vec![0xA0; APP0_LEN]);
    assert_eq!(jpg.dqt, vec![0xA1; DQT_LEN]);
    assert_eq!(jpg.sof0, vec![0xA2; SOF0_LEN]);
    assert_eq!(jpg.dht, vec![0xA3; DHT_LEN]);
    assert_eq!(jpg.sos, vec![0xA4; SOS_LEN]);
    assert_eq!(jpg.image, vec![0xE8, 0x01]);
    let broken = break_jpg(jpg);
    assert_eq!(broken.image, vec![0xE7, 0x01]);
    let out = create_binary(broken);
    let expected = input_with_body(&[0xE7, 0x01, 0xFF, 0xD9]);
    assert_eq!(out, expected);
}

#[test]
fn two_byte_input_fails_at_app0() {
    let input = vec![0xFF, 0xD8];
    assert_eq!(parse(&input).err(), Some(JPGError::APP0NotFoundError));
}

#[test]
fn odd_body_fails_truncated() {
    let input = input_with_body(&[0x01]);
    assert_eq!(parse(&input).err(), Some(JPGError::BrokenJpgFileError));
}

#[test]
fn each_header_error_at_its_length() {
    let cases: &[(usize, JPGError)] = &[
        (0, JPGError::SOINotFoundError),
        (1, JPGError::SOINotFoundError),
        (2, JPGError::APP0NotFoundError),
        (19, JPGError::APP0NotFoundError),
        (20, JPGError::DQTNotFoundError),
        (157, JPGError::DQTNotFoundError),
        (158, JPGError::SOF0NotFoundError),
        (176, JPGError::SOF0NotFoundError),
        (177, JPGError::DHTNotFoundError),
        (608, JPGError::DHTNotFoundError),
        (609, JPGError::SOSNotFoundError),
        (622, JPGError::SOSNotFoundError),
    ];
    for &(len, expected) in cases {
        let input = vec![0x00; len];
        assert_eq!(parse(&input).err(), Some(expected), "length {}", len);
    }
}

#[test]
fn missing_marker_fails_body_not_found() {
    let headers_only = sample_headers();
    assert_eq!(parse(&headers_only).err(), Some(JPGError::ImageBodyNotFound));
    let even_body_no_marker = input_with_body(&[0x01, 0x02, 0x03, 0x04]);
    assert_eq!(
        parse(&even_body_no_marker).err(),
        Some(JPGError::ImageBodyNotFound)
    );
}

#[test]
fn scan_stops_at_first_marker() {
    let input = input_with_body(&[0x01, 0x02, 0xFF, 0xD9, 0xAA, 0xBB, 0xFF, 0xD9]);
    let jpg = parse(&input).unwrap();
    assert_eq!(jpg.image, vec![0x01, 0x02]);
    let out = create_binary(jpg);
    assert_eq!(out, input[..HEADER_TOTAL + 4].to_vec());
    assert_eq!(&out[out.len() - 2..], &[0xFF, 0xD9]);
}

#[test]
fn marker_pair_straddling_pairs_is_kept() {
    let input = input_with_body(&[0x01, 0xFF, 0xD9, 0x02, 0xFF, 0xD9]);
    let jpg = parse(&input).unwrap();
    assert_eq!(jpg.image, vec![0x01, 0xFF, 0xD9, 0x02]);
}

#[test]
fn transform_targets_exactly_the_sentinel() {
    let mut b: u8 = 0;
    loop {
        let expected = if b == 0xE8 { 0xE7 } else { b };
        assert_eq!(f(&b), expected);
        if b == 0xFF {
            break;
        }
        b += 1;
    }
}

#[test]
fn round_trip_identity_without_sentinel() {
    let input = input_with_body(&[0x01, 0x02, 0x03, 0x04, 0xFF, 0xD9]);
    let jpg = parse(&input).unwrap();
    let reserialized = create_binary(jpg.clone());
    assert_eq!(reserialized, input);
    let out = create_binary(break_jpg(jpg));
    assert_eq!(out, input);
}

#[test]
fn transform_preserves_length() {
    let input = input_with_body(&[0xE8, 0xE8, 0x10, 0xE8, 0xFF, 0xD9]);
    let jpg = parse(&input).unwrap();
    let body_len = jpg.image.len();
    let broken = break_jpg(jpg);
    assert_eq!(broken.image.len(), body_len);
    assert_eq!(broken.image, vec![0xE7, 0xE7, 0x10, 0xE7]);
    let out = create_binary(broken);
    assert_eq!(out.len(), input.len());
}

#[test]
fn serializer_appends_marker_to_any_image() {
    let jpg = JPG {
        soi: vec![0x01],
        app0: vec![],
        dqt: vec![0x02, 0x03],
        sof0: vec![],
        dht: vec![],
        sos: vec![0x04],
        image: vec![0xFF],
    };
    let out = create_binary(jpg);
    assert_eq!(out, vec![0x01, 0x02, 0x03, 0x04, 0xFF, 0xFF, 0xD9]);
}

#[test]
fn error_messages_name_their_region() {
    assert_eq!(JPGError::SOINotFoundError.message(), "SOI is not found error");
    assert_eq!(JPGError::APP0NotFoundError.message(), "APP0 is not found error");
    assert_eq!(JPGError::DQTNotFoundError.message(), "DQT is not found error");
    assert_eq!(JPGError::SOF0NotFoundError.message(), "SOF0 is not found error");
    assert_eq!(JPGError::DHTNotFoundError.message(), "DHT is not found error");
    assert_eq!(JPGError::SOSNotFoundError.message(), "SOS is not found error");
    assert_eq!(
        JPGError::ImageBodyNotFound.message(),
        "ImageBody is not found error"
    );
    assert_eq!(JPGError::BrokenJpgFileError.message(), "Broken Jpeg file");
}

fn hex_line(bytes: &[u8]) -> String {
    bytes.iter().map(|b| format!("{:x} ", b)).collect()
}

#[test]
fn hex_dump_matches_the_formatter() {
    let jpg = JPG {
        soi: vec![0xFF, 0xD8],
        app0: vec![0x00, 0x10, 0x4A],
        dqt: vec![0xDB],
        sof0: vec![],
        dht: vec![0x0F, 0x10],
        sos: vec![0xDA],
        image: vec![0xE8, 0x01],
    };
    let expected = format!(
        "\nsoi: {}\napp0: {}\ndqt: {}\nsof0: {}\ndht: {}\nsos: {}\nimage: {}\n            ",
        hex_line(&jpg.soi),
        hex_line(&jpg.app0),
        hex_line(&jpg.dqt),
        hex_line(&jpg.sof0),
        hex_line(&jpg.dht),
        hex_line(&jpg.sos),
        hex_line(&jpg.image),
    );
    assert_eq!(jpg.hex_dump(), expected);
}

#[test]
fn parse_ignores_header_values() {
    let body = [0x42, 0x43, 0xFF, 0xD9];
    let a = input_with_body(&body);
    let mut b = vec![0x00; HEADER_TOTAL];
    b.extend_from_slice(&body);
    let ja = parse(&a).unwrap();
    let jb = parse(&b).unwrap();
    assert_eq!(ja.image, jb.image);
    assert_eq!(ja.image, vec![0x42, 0x43]);
    assert_eq!(ja.soi, vec![0xFF, 0xD8]);
    assert_eq!(jb.soi, vec![0x00, 0x00]);
}
