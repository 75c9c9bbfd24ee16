use vstd::prelude::*;

use solicit::http::frame::Frame as _;
use solicit::http::frame::RawFrame;

use crate::error::HttpError;

verus! {

/// Number of bytes in every frame header.
pub const FRAME_HEADER_LEN: usize = 9;

/// The frame type tag of a SETTINGS frame.
pub const SETTINGS_FRAME_TYPE: u8 = 4;

/// The flag bit that marks a SETTINGS frame as an acknowledgment.
pub const ACK_FLAG: u8 = 1;

/// Largest payload length that the 24-bit length field can declare, plus one.
pub const MAX_PAYLOAD_LEN: u32 = 0x100_0000;

/// The four fields of a frame header.
#[derive(Debug, Clone, Copy, PartialEq, Eq, Structural)]
pub struct FrameHeader {
    pub length: u32,
    pub frame_type: u8,
    pub flags: u8,
    pub stream_id: u32,
}

/// Big-endian value of three bytes.
pub open spec fn be24(a: u8, b: u8, c: u8) -> u32 {
    ((a as u32) << 16u32) | ((b as u32) << 8u32) | (c as u32)
}

/// Big-endian value of four bytes.
pub open spec fn be32(a: u8, b: u8, c: u8, d: u8) -> u32 {
    ((a as u32) << 24u32) | ((b as u32) << 16u32) | ((c as u32) << 8u32) | (d as u32)
}

/// Big-endian value of two bytes.
pub open spec fn be16(a: u8, b: u8) -> u16 {
    ((a as u16) << 8u16) | (b as u16)
}

/// The byte `k` places from the low end of `v`.
pub open spec fn byte_of(v: u32, k: u32) -> u8 {
    ((v >> (8 * k)) & 0xffu32) as u8
}

/// Big-endian bytes of a 32-bit value.
pub open spec fn u32_bytes(v: u32) -> Seq<u8> {
    seq![byte_of(v, 3), byte_of(v, 2), byte_of(v, 1), byte_of(v, 0)]
}

/// Big-endian bytes of a 16-bit value.
pub open spec fn u16_bytes(v: u16) -> Seq<u8> {
    seq![((v >> 8u16) & 0xffu16) as u8, (v & 0xffu16) as u8]
}

/// The header that the first nine bytes of `b` encode.
pub open spec fn header_of(b: Seq<u8>) -> FrameHeader
    recommends
        b.len() >= 9,
{
    FrameHeader {
        length: be24(b[0], b[1], b[2]),
        frame_type: b[3],
        flags: b[4],
        stream_id: be32(b[5], b[6], b[7], b[8]),
    }
}

/// The nine bytes that encode a header whose length fits in 24 bits.
pub open spec fn header_bytes(h: FrameHeader) -> Seq<u8> {
    seq![byte_of(h.length, 2), byte_of(h.length, 1), byte_of(h.length, 0), h.frame_type, h.flags]
        + u32_bytes(h.stream_id)
}

/// The payload of a frame: what follows its header.
pub open spec fn payload_of(b: Seq<u8>) -> Seq<u8> {
    b.subrange(9, b.len() as int)
}

/// `b` is one complete frame: a header and exactly the payload it declares.
pub open spec fn is_raw_frame(b: Seq<u8>) -> bool {
    b.len() >= 9 && b.len() == 9 + header_of(b).length
}

/// Relies on solicit's `unpack_header`: the big-endian length (24 bits), the
/// type and flags bytes, and the big-endian stream identifier (32 bits, the
/// reserved bit not masked) of a 9-byte header.
#[verifier::external_body]
fn unpack_header(raw: &Vec<u8>) -> (r: FrameHeader)
    requires
        raw@.len() == 9,
    ensures
        r == header_of(raw@),
{
    let buf: [u8; 9] = [raw[0], raw[1], raw[2], raw[3], raw[4], raw[5], raw[6], raw[7], raw[8]];
    let (length, frame_type, flags, stream_id) = solicit::http::frame::unpack_header(&buf);
    FrameHeader { length, frame_type, flags, stream_id }
}

/// Decodes the header of a frame from its first nine bytes.
pub fn decode_header(raw_header: &Vec<u8>) -> (r: FrameHeader)
    requires
        raw_header@.len() == FRAME_HEADER_LEN,
    ensures
        r == header_of(raw_header@),
        r.length < MAX_PAYLOAD_LEN,
{
    let r = unpack_header(raw_header);
    proof {
        let (a, b, c) = (raw_header@[0], raw_header@[1], raw_header@[2]);
        assert(be24(a, b, c) < 0x100_0000u32) by (bit_vector);
    }
    r
}


/// One setting of a SETTINGS frame: its identifier and its 32-bit value.
#[derive(Debug, Clone, Copy, PartialEq, Eq, Structural)]
pub enum HttpSetting {
    HeaderTableSize(u32),
    EnablePush(u32),
    MaxConcurrentStreams(u32),
    InitialWindowSize(u32),
    MaxFrameSize(u32),
    MaxHeaderListSize(u32),
}

impl HttpSetting {
    /// The identifier that the setting has on the wire.
    pub open spec fn id_spec(self) -> u16 {
        match self {
            HttpSetting::HeaderTableSize(_) => 1,
            HttpSetting::EnablePush(_) => 2,
            HttpSetting::MaxConcurrentStreams(_) => 3,
            HttpSetting::InitialWindowSize(_) => 4,
            HttpSetting::MaxFrameSize(_) => 5,
            HttpSetting::MaxHeaderListSize(_) => 6,
        }
    }

    /// The value that the setting carries.
    pub open spec fn val_spec(self) -> u32 {
        match self {
            HttpSetting::HeaderTableSize(v) => v,
            HttpSetting::EnablePush(v) => v,
            HttpSetting::MaxConcurrentStreams(v) => v,
            HttpSetting::InitialWindowSize(v) => v,
            HttpSetting::MaxFrameSize(v) => v,
            HttpSetting::MaxHeaderListSize(v) => v,
        }
    }

    pub fn get_id(&self) -> (r: u16)
        ensures
            r == self.id_spec(),
            1 <= r <= 6,
    {
        match self {
            HttpSetting::HeaderTableSize(_) => 1,
            HttpSetting::EnablePush(_) => 2,
            HttpSetting::MaxConcurrentStreams(_) => 3,
            HttpSetting::InitialWindowSize(_) => 4,
            HttpSetting::MaxFrameSize(_) => 5,
            HttpSetting::MaxHeaderListSize(_) => 6,
        }
    }

    pub fn get_val(&self) -> (r: u32)
        ensures
            r == self.val_spec(),
    {
        match self {
            HttpSetting::HeaderTableSize(v) => *v,
            HttpSetting::EnablePush(v) => *v,
            HttpSetting::MaxConcurrentStreams(v) => *v,
            HttpSetting::InitialWindowSize(v) => *v,
            HttpSetting::MaxFrameSize(v) => *v,
            HttpSetting::MaxHeaderListSize(v) => *v,
        }
    }

    /// The setting with identifier `id` and value `val`; `None` for an
    /// identifier that no setting has.
    pub fn from_id(id: u16, val: u32) -> (r: Option<HttpSetting>)
        ensures
            r == setting_from_id(id, val),
    {
        match id {
            1 => Some(HttpSetting::HeaderTableSize(val)),
            2 => Some(HttpSetting::EnablePush(val)),
            3 => Some(HttpSetting::MaxConcurrentStreams(val)),
            4 => Some(HttpSetting::InitialWindowSize(val)),
            5 => Some(HttpSetting::MaxFrameSize(val)),
            6 => Some(HttpSetting::MaxHeaderListSize(val)),
            _ => None,
        }
    }
}

/// The setting that identifier `id` names, with value `val`.
pub open spec fn setting_from_id(id: u16, val: u32) -> Option<HttpSetting> {
    if id == 1 {
        Some(HttpSetting::HeaderTableSize(val))
    } else if id == 2 {
        Some(HttpSetting::EnablePush(val))
    } else if id == 3 {
        Some(HttpSetting::MaxConcurrentStreams(val))
    } else if id == 4 {
        Some(HttpSetting::InitialWindowSize(val))
    } else if id == 5 {
        Some(HttpSetting::MaxFrameSize(val))
    } else if id == 6 {
        Some(HttpSetting::MaxHeaderListSize(val))
    } else {
        None
    }
}

/// The six bytes of one setting entry: identifier, then value, big-endian.
pub open spec fn setting_bytes(s: HttpSetting) -> Seq<u8> {
    u16_bytes(s.id_spec()) + u32_bytes(s.val_spec())
}

/// The payload of a SETTINGS frame that carries `s`, in order.
pub open spec fn settings_bytes(s: Seq<HttpSetting>) -> Seq<u8>
    decreases s.len(),
{
    if s.len() == 0 {
        seq![]
    } else {
        setting_bytes(s[0]) + settings_bytes(s.drop_first())
    }
}

/// The settings that a payload of 6-byte entries declares, in order; entries
/// with an unknown identifier are skipped.
pub open spec fn parse_settings(p: Seq<u8>) -> Seq<HttpSetting>
    decreases p.len(),
{
    if p.len() < 6 {
        seq![]
    } else {
        let rest = parse_settings(p.subrange(6, p.len() as int));
        match setting_from_id(be16(p[0], p[1]), be32(p[2], p[3], p[4], p[5])) {
            Some(s) => seq![s] + rest,
            None => rest,
        }
    }
}

/// The ACK bit is set in `flags`.
pub open spec fn is_ack_flags(flags: u8) -> bool {
    flags & ACK_FLAG != 0
}

/// A complete frame of type SETTINGS is acceptable: it belongs to stream 0,
/// and its payload is empty when it is an ACK and a whole number of 6-byte
/// entries otherwise.
pub open spec fn settings_frame_valid(b: Seq<u8>) -> bool {
    let h = header_of(b);
    h.stream_id == 0 && if is_ack_flags(h.flags) {
        h.length == 0
    } else {
        h.length % 6 == 0
    }
}

/// The wire bytes of a SETTINGS frame with the ACK flag `ack` and the
/// settings `s`, on stream 0.
pub open spec fn settings_frame_bytes(ack: bool, s: Seq<HttpSetting>) -> Seq<u8> {
    header_bytes(
        FrameHeader {
            length: (6 * s.len()) as u32,
            frame_type: SETTINGS_FRAME_TYPE,
            flags: if ack { ACK_FLAG } else { 0 },
            stream_id: 0,
        },
    ) + settings_bytes(s)
}

/// A SETTINGS frame: the ACK flag and the settings it declares, in order.
#[derive(Debug, Clone, PartialEq, Eq)]
pub struct SettingsFrame {
    pub ack: bool,
    pub settings: Vec<HttpSetting>,
}

/// Relies on solicit's `SettingsFrame::from_raw` (through the `Frame`
/// trait), on a complete frame of type 4: it accepts the frame exactly when
/// the stream is 0 and the payload is empty for an ACK and a whole number of
/// 6-byte entries otherwise; the ACK flag is bit 0 of the flags, and the
/// settings are the entries in order, those with an unknown identifier
/// skipped.
#[verifier::external_body]
fn settings_from_raw(raw: &Vec<u8>) -> (r: Option<SettingsFrame>)
    requires
        is_raw_frame(raw@),
        raw@[3] == SETTINGS_FRAME_TYPE,
    ensures
        r is Some <==> settings_frame_valid(raw@),
        r matches Some(f) ==> f.ack == is_ack_flags(raw@[4]) && f.settings@ == parse_settings(payload_of(raw@)),
{
    let f = solicit::http::frame::SettingsFrame::from_raw(RawFrame::from(raw.clone()))?;
    Some(SettingsFrame {
        ack: f.is_ack(),
        settings: f.settings.iter().map(|s| HttpSetting::from_id(s.get_id(), s.get_val()).unwrap()).collect(),
    })
}

/// Relies on solicit's `Frame::serialize` for `SettingsFrame`: the header
/// (length six times the number of settings, type 4, the ACK flag, stream 0)
/// followed by one 6-byte entry per setting, in order.
#[verifier::external_body]
fn serialize_settings(frame: &SettingsFrame) -> (r: Vec<u8>)
    requires
        6 * frame.settings@.len() < MAX_PAYLOAD_LEN,
    ensures
        r@ == settings_frame_bytes(frame.ack, frame.settings@),
{
    let mut f = solicit::http::frame::SettingsFrame::new();
    if frame.ack {
        f.set_ack();
    }
    for s in frame.settings.iter() {
        f.add_setting(solicit::http::frame::HttpSetting::from_id(s.get_id(), s.get_val()).unwrap());
    }
    f.serialize()
}


/// Encodes a SETTINGS frame for the wire.
pub fn encode_settings_frame(frame: &SettingsFrame) -> (r: Vec<u8>)
    requires
        6 * frame.settings@.len() < MAX_PAYLOAD_LEN,
    ensures
        r@ == settings_frame_bytes(frame.ack, frame.settings@),
{
    serialize_settings(frame)
}

/// Joins a received header and the payload read after it into one frame.
/// A payload shorter or longer than the header declares means that the
/// stream did not deliver the frame, which is an I/O failure.
pub fn assemble_frame(raw_header: &Vec<u8>, payload: &Vec<u8>) -> (r: Result<Vec<u8>, HttpError>)
    requires
        raw_header@.len() == FRAME_HEADER_LEN,
    ensures
        payload@.len() == header_of(raw_header@).length ==> (r matches Ok(b) && b@ == raw_header@ + payload@
            && is_raw_frame(b@)),
        payload@.len() != header_of(raw_header@).length ==> r == Err::<Vec<u8>, HttpError>(HttpError::IoError),
{
    let header = decode_header(raw_header);
    if payload.len() != header.length as usize {
        return Err(HttpError::IoError);
    }
    let mut full: Vec<u8> = Vec::new();
    let mut i: usize = 0;
    while i < raw_header.len()
        invariant
            i <= raw_header@.len(),
            full@ == raw_header@.subrange(0, i as int),
        decreases raw_header@.len() - i,
    {
        full.push(raw_header[i]);
        i += 1;
    }
    let mut j: usize = 0;
    while j < payload.len()
        invariant
            j <= payload@.len(),
            full@ == raw_header@ + payload@.subrange(0, j as int),
        decreases payload@.len() - j,
    {
        full.push(payload[j]);
        j += 1;
    }
    proof {
        assert(raw_header@.subrange(0, 9) == raw_header@);
        assert(payload@.subrange(0, payload@.len() as int) == payload@);
        assert(full@.subrange(0, 9) == raw_header@);
        assert(header_of(full@) == header_of(raw_header@));
    }
    Ok(full)
}

/// Decodes a complete frame that must be a SETTINGS frame; a frame of any
/// other type, or a SETTINGS frame that is not acceptable, is an invalid
/// frame.
pub fn settings_frame_from_raw(raw: &Vec<u8>) -> (r: Result<SettingsFrame, HttpError>)
    requires
        is_raw_frame(raw@),
    ensures
        r is Ok <==> raw@[3] == SETTINGS_FRAME_TYPE && settings_frame_valid(raw@),
        r matches Ok(f) ==> f.ack == is_ack_flags(raw@[4]) && f.settings@ == parse_settings(
            payload_of(raw@),
        ),
        r matches Err(e) ==> e == HttpError::InvalidFrame,
{
    if raw[3] != SETTINGS_FRAME_TYPE {
        return Err(HttpError::InvalidFrame);
    }
    match settings_from_raw(raw) {
        Some(f) => Ok(f),
        None => Err(HttpError::InvalidFrame),
    }
}

proof fn lemma_be32_of_bytes(v: u32)
    ensures
        be32(byte_of(v, 3), byte_of(v, 2), byte_of(v, 1), byte_of(v, 0)) == v,
{
    assert(byte_of(v, 3) == ((v >> 24u32) & 0xffu32) as u8);
    assert(byte_of(v, 2) == ((v >> 16u32) & 0xffu32) as u8);
    assert(byte_of(v, 1) == ((v >> 8u32) & 0xffu32) as u8);
    assert(byte_of(v, 0) == ((v >> 0u32) & 0xffu32) as u8);
    assert(((((((v >> 24u32) & 0xffu32) as u8) as u32) << 24u32) | (((((v >> 16u32) & 0xffu32) as u8) as u32)
        << 16u32) | (((((v >> 8u32) & 0xffu32) as u8) as u32) << 8u32) | ((((v >> 0u32) & 0xffu32) as u8) as u32))
        == v) by (bit_vector);
}

proof fn lemma_be16_of_bytes(v: u16)
    ensures
        be16(u16_bytes(v)[0], u16_bytes(v)[1]) == v,
{
    assert(((((((v >> 8u16) & 0xffu16) as u8) as u16) << 8u16) | (((v & 0xffu16) as u8) as u16)) == v)
        by (bit_vector);
}

/// Encoding a header whose length fits in 24 bits and decoding it again
/// gives the same header.
pub proof fn lemma_header_round_trip(h: FrameHeader)
    requires
        h.length < MAX_PAYLOAD_LEN,
    ensures
        header_bytes(h).len() == 9,
        header_of(header_bytes(h)) == h,
{
    let l = h.length;
    assert(byte_of(l, 2) == ((l >> 16u32) & 0xffu32) as u8);
    assert(byte_of(l, 1) == ((l >> 8u32) & 0xffu32) as u8);
    assert(byte_of(l, 0) == ((l >> 0u32) & 0xffu32) as u8);
    assert(l < 0x100_0000u32 ==> (((((l >> 16u32) & 0xffu32) as u8) as u32) << 16u32) | (((((l >> 8u32)
        & 0xffu32) as u8) as u32) << 8u32) | ((((l >> 0u32) & 0xffu32) as u8) as u32) == l)
        by (bit_vector);
    lemma_be32_of_bytes(h.stream_id);
    let b = header_bytes(h);
    assert(header_of(b) == h);
}

proof fn lemma_settings_bytes_len(s: Seq<HttpSetting>)
    ensures
        settings_bytes(s).len() == 6 * s.len(),
    decreases s.len(),
{
    if s.len() > 0 {
        lemma_settings_bytes_len(s.drop_first());
    }
}

proof fn lemma_parse_settings_bytes(s: Seq<HttpSetting>)
    ensures
        parse_settings(settings_bytes(s)) == s,
    decreases s.len(),
{
    if s.len() > 0 {
        let b = settings_bytes(s);
        let first = setting_bytes(s[0]);
        lemma_settings_bytes_len(s);
        lemma_settings_bytes_len(s.drop_first());
        lemma_parse_settings_bytes(s.drop_first());
        assert(b.subrange(6, b.len() as int) == settings_bytes(s.drop_first()));
        lemma_be16_of_bytes(s[0].id_spec());
        lemma_be32_of_bytes(s[0].val_spec());
        assert(be16(b[0], b[1]) == s[0].id_spec());
        assert(be32(b[2], b[3], b[4], b[5]) == s[0].val_spec());
        assert(setting_from_id(s[0].id_spec(), s[0].val_spec()) == Some(s[0]));
        assert(seq![s[0]] + s.drop_first() == s);
    } else {
        assert(settings_bytes(s) =~= seq![]);
        assert(s =~= seq![]);
    }
}

/// Round trip of the SETTINGS codec: the frame that carries any sequence of
/// settings (not an ACK) is one complete, acceptable SETTINGS frame, and
/// parsing it gives back exactly that sequence.
pub proof fn lemma_settings_round_trip(settings: Seq<HttpSetting>)
    requires
        6 * settings.len() < MAX_PAYLOAD_LEN,
    ensures
        ({
            let b = settings_frame_bytes(false, settings);
            is_raw_frame(b) && header_of(b).length == 6 * settings.len() && b[3] == SETTINGS_FRAME_TYPE
                && settings_frame_valid(b) && !is_ack_flags(b[4]) && parse_settings(payload_of(b)) == settings
        }),
{
    let h = FrameHeader {
        length: (6 * settings.len()) as u32,
        frame_type: SETTINGS_FRAME_TYPE,
        flags: 0,
        stream_id: 0,
    };
    let b = settings_frame_bytes(false, settings);
    lemma_header_round_trip(h);
    lemma_settings_bytes_len(settings);
    assert(b.subrange(0, 9) == header_bytes(h));
    assert(header_of(b) == header_of(header_bytes(h)));
    assert(payload_of(b) == settings_bytes(settings));
    lemma_parse_settings_bytes(settings);
    assert(!is_ack_flags(0u8)) by (bit_vector);
    assert((6 * settings.len()) as u32 % 6 == 0);
}

/// The ACK frame is one complete, acceptable SETTINGS frame with the ACK
/// flag set and no settings.
pub proof fn lemma_settings_ack_frame()
    ensures
        ({
            let b = settings_frame_bytes(true, seq![]);
            is_raw_frame(b) && b.len() == 9 && header_of(b).length == 0 && b[3] == SETTINGS_FRAME_TYPE && settings_frame_valid(b)
                && is_ack_flags(b[4]) && parse_settings(payload_of(b)) == Seq::<HttpSetting>::empty()
        }),
{
    let h = FrameHeader { length: 0, frame_type: SETTINGS_FRAME_TYPE, flags: ACK_FLAG, stream_id: 0 };
    let b = settings_frame_bytes(true, seq![]);
    lemma_header_round_trip(h);
    assert(settings_bytes(Seq::<HttpSetting>::empty()) =~= seq![]);
    assert(b =~= header_bytes(h));
    assert(is_ack_flags(1u8)) by (bit_vector);
    assert(payload_of(b) =~= seq![]);
}

} // verus!
