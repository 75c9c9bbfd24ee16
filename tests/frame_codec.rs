use grpc::error::HttpError;
use grpc::frame::{
    assemble_frame, decode_header, encode_settings_frame, settings_frame_from_raw, FrameHeader, HttpSetting,
    SettingsFrame,
};

fn settings(ack: bool, settings: Vec<HttpSetting>) -> SettingsFrame {
    SettingsFrame { ack, settings }
}

#[test]
fn decode_header_reads_big_endian_fields() {
    let raw = vec![0x01, 0x02, 0x03, 0x04, 0x05, 0x86, 0x07, 0x08, 0x09];
    let h = decode_header(&raw);
    assert_eq!(
        h,
        FrameHeader { length: 0x010203, frame_type: 4, flags: 5, stream_id: 0x8607_0809 }
    );
}

#[test]
fn decode_header_of_largest_length() {
    let raw = vec![0xff, 0xff, 0xff, 0, 0, 0, 0, 0, 1];
    let h = decode_header(&raw);
    assert_eq!(h.length, 0xff_ffff);
    assert_eq!(h.stream_id, 1);
}

#[test]
fn assemble_frame_joins_header_and_payload() {
    let header = vec![0, 0, 2, 0, 0, 0, 0, 0, 1];
    let payload = vec![0xaa, 0xbb];
    let frame = assemble_frame(&header, &payload).unwrap();
    assert_eq!(frame, vec![0, 0, 2, 0, 0, 0, 0, 0, 1, 0xaa, 0xbb]);
}

#[test]
fn assemble_frame_with_empty_payload() {
    let header = vec![0, 0, 0, 4, 1, 0, 0, 0, 0];
    let frame = assemble_frame(&header, &Vec::new()).unwrap();
    assert_eq!(frame, header);
}

#[test]
fn assemble_frame_short_payload_is_io_error() {
    let header = vec![0, 0, 3, 0, 0, 0, 0, 0, 1];
    assert_eq!(assemble_frame(&header, &vec![1, 2]), Err(HttpError::IoError));
}

#[test]
fn encode_settings_frame_exact_bytes() {
    let bytes = encode_settings_frame(&settings(false, vec![HttpSetting::EnablePush(0)]));
    assert_eq!(bytes, vec![0, 0, 6, 4, 0, 0, 0, 0, 0, 0, 2, 0, 0, 0, 0]);
    let bytes = encode_settings_frame(&settings(false, vec![HttpSetting::MaxFrameSize(0x0102_0304)]));
    assert_eq!(bytes, vec![0, 0, 6, 4, 0, 0, 0, 0, 0, 0, 5, 1, 2, 3, 4]);
}

#[test]
fn encode_settings_ack_exact_bytes() {
    let bytes = encode_settings_frame(&settings(true, Vec::new()));
    assert_eq!(bytes, vec![0, 0, 0, 4, 1, 0, 0, 0, 0]);
}

#[test]
fn settings_round_trip() {
    let cases = vec![
        Vec::new(),
        vec![HttpSetting::EnablePush(1)],
        vec![
            HttpSetting::HeaderTableSize(4096),
            HttpSetting::EnablePush(0),
            HttpSetting::MaxConcurrentStreams(100),
            HttpSetting::InitialWindowSize(65535),
            HttpSetting::MaxFrameSize(16384),
            HttpSetting::MaxHeaderListSize(u32::MAX),
            HttpSetting::EnablePush(0),
        ],
    ];
    for s in cases {
        let frame = settings(false, s.clone());
        let bytes = encode_settings_frame(&frame);
        assert_eq!(settings_frame_from_raw(&bytes), Ok(frame));
    }
}

#[test]
fn settings_ack_round_trip() {
    let frame = settings(true, Vec::new());
    let bytes = encode_settings_frame(&frame);
    assert_eq!(settings_frame_from_raw(&bytes), Ok(frame));
}

#[test]
fn settings_unknown_identifier_is_skipped() {
    let raw = vec![0, 0, 12, 4, 0, 0, 0, 0, 0, 0, 9, 0, 0, 0, 7, 0, 3, 0, 0, 0, 8];
    let frame = settings_frame_from_raw(&raw).unwrap();
    assert!(!frame.ack);
    assert_eq!(frame.settings, vec![HttpSetting::MaxConcurrentStreams(8)]);
}

#[test]
fn settings_on_nonzero_stream_is_invalid() {
    let raw = vec![0, 0, 0, 4, 0, 0, 0, 0, 1];
    assert_eq!(settings_frame_from_raw(&raw), Err(HttpError::InvalidFrame));
}

#[test]
fn settings_ack_with_payload_is_invalid() {
    let raw = vec![0, 0, 6, 4, 1, 0, 0, 0, 0, 0, 2, 0, 0, 0, 0];
    assert_eq!(settings_frame_from_raw(&raw), Err(HttpError::InvalidFrame));
}

#[test]
fn settings_partial_entry_is_invalid() {
    let raw = vec![0, 0, 4, 4, 0, 0, 0, 0, 0, 0, 2, 0, 0];
    assert_eq!(settings_frame_from_raw(&raw), Err(HttpError::InvalidFrame));
}

#[test]
fn other_frame_types_are_invalid_where_settings_expected() {
    let data = vec![0, 0, 2, 0, 0, 0, 0, 0, 1, b'h', b'i'];
    assert_eq!(settings_frame_from_raw(&data), Err(HttpError::InvalidFrame));
    let unknown = vec![0, 0, 0, 9, 0, 0, 0, 0, 0];
    assert_eq!(settings_frame_from_raw(&unknown), Err(HttpError::InvalidFrame));
}

#[test]
fn setting_identifiers() {
    assert_eq!(HttpSetting::from_id(2, 0), Some(HttpSetting::EnablePush(0)));
    assert_eq!(HttpSetting::from_id(6, 9), Some(HttpSetting::MaxHeaderListSize(9)));
    assert_eq!(HttpSetting::from_id(0, 1), None);
    assert_eq!(HttpSetting::from_id(7, 1), None);
    assert_eq!(HttpSetting::InitialWindowSize(5).get_id(), 4);
    assert_eq!(HttpSetting::InitialWindowSize(5).get_val(), 5);
}

#[test]
fn headers_frame_with_priority_and_short_payload_is_invalid() {
    let raw = vec![0x00, 0x00, 0x00, 0x01, 0x20, 0x00, 0x00, 0x00, 0x01];
    assert_eq!(settings_frame_from_raw(&raw), Err(HttpError::InvalidFrame));
}

#[test]
fn settings_frame_read_off_a_buffer_leaves_the_rest() {
    let s = vec![HttpSetting::EnablePush(0), HttpSetting::EnablePush(0), HttpSetting::MaxFrameSize(16384)];
    let mut stream = encode_settings_frame(&settings(false, s.clone()));
    let rest = vec![0xde, 0xad, 0xbe, 0xef];
    stream.extend(rest.clone());
    let raw_header = stream[..9].to_vec();
    let len = decode_header(&raw_header).length as usize;
    let payload = stream[9..9 + len].to_vec();
    let frame = assemble_frame(&raw_header, &payload).unwrap();
    let g = settings_frame_from_raw(&frame).unwrap();
    assert_eq!(g.settings, s);
    assert!(!g.ack);
    assert_eq!(stream[9 + len..].to_vec(), rest);
}
