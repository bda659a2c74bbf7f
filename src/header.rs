//! The fixed-size frame header: 44 bytes, little-endian integers, no padding.
use vstd::prelude::*;

verus! {

/// Number of bytes of an encoded header.
pub const PROTO_HEADER_LEN: usize = 44;

/// The protocol marker that opens every header: "FT".
pub const HEADER_FLAG: [u8; 2] = [70, 84];

/// The little-endian bytes of a 32-bit integer.
pub open spec fn le_bytes(v: u32) -> Seq<u8> {
    seq![
        (v & 0xff) as u8,
        ((v >> 8u32) & 0xff) as u8,
        ((v >> 16u32) & 0xff) as u8,
        ((v >> 24u32) & 0xff) as u8,
    ]
}

/// The 32-bit integer held little-endian in four bytes.
pub open spec fn from_le(b0: u8, b1: u8, b2: u8, b3: u8) -> u32 {
    (b0 as u32) | ((b1 as u32) << 8u32) | ((b2 as u32) << 16u32) | ((b3 as u32) << 24u32)
}

/// The 32-bit integer held little-endian at offset `at` of `s`.
pub open spec fn u32_at(s: Seq<u8>, at: int) -> u32 {
    from_le(s[at], s[at + 1], s[at + 2], s[at + 3])
}

/// Reading back the little-endian bytes of an integer gives the integer.
pub proof fn lemma_le_round_trip(v: u32)
    ensures
        from_le(le_bytes(v)[0], le_bytes(v)[1], le_bytes(v)[2], le_bytes(v)[3]) == v,
{
    let b0 = (v & 0xff) as u8;
    let b1 = ((v >> 8u32) & 0xff) as u8;
    let b2 = ((v >> 16u32) & 0xff) as u8;
    let b3 = ((v >> 24u32) & 0xff) as u8;
    assert((b0 as u32) | ((b1 as u32) << 8u32) | ((b2 as u32) << 16u32) | ((b3 as u32) << 24u32)
        == v) by (bit_vector)
        requires
            b0 == (v & 0xff) as u8,
            b1 == ((v >> 8u32) & 0xff) as u8,
            b2 == ((v >> 16u32) & 0xff) as u8,
            b3 == ((v >> 24u32) & 0xff) as u8,
    ;
}

/// What a header holds, with its byte arrays as sequences.
pub struct HeaderView {
    pub header_flag: Seq<u8>,
    pub proto_id: u32,
    pub proto_fmt_type: u8,
    pub proto_ver: u8,
    pub serial_no: u32,
    pub body_len: u32,
    pub body_sha1: Seq<u8>,
    pub reserved: Seq<u8>,
}

/// The 44 bytes of a header, fields in their wire order.
pub open spec fn header_bytes(h: HeaderView) -> Seq<u8> {
    h.header_flag + le_bytes(h.proto_id) + seq![h.proto_fmt_type, h.proto_ver] + le_bytes(
        h.serial_no,
    ) + le_bytes(h.body_len) + h.body_sha1 + h.reserved
}

/// The header read from the first 44 bytes of `s`.
pub open spec fn header_of(s: Seq<u8>) -> HeaderView {
    HeaderView {
        header_flag: s.subrange(0, 2),
        proto_id: u32_at(s, 2),
        proto_fmt_type: s[6],
        proto_ver: s[7],
        serial_no: u32_at(s, 8),
        body_len: u32_at(s, 12),
        body_sha1: s.subrange(16, 36),
        reserved: s.subrange(36, 44),
    }
}

/// A header whose byte fields have their wire widths.
pub open spec fn header_wf(h: HeaderView) -> bool {
    h.header_flag.len() == 2 && h.body_sha1.len() == 20 && h.reserved.len() == 8
}

/// The frame header exactly as it travels on the wire.
#[derive(Debug, Clone, Copy)]
pub struct APIProtoHeader {
    pub header_flag: [u8; 2],
    pub proto_id: u32,
    pub proto_fmt_type: u8,
    pub proto_ver: u8,
    pub serial_no: u32,
    pub body_len: u32,
    pub body_sha1: [u8; 20],
    pub reserved: [u8; 8],
}

impl View for APIProtoHeader {
    type V = HeaderView;

    open spec fn view(&self) -> HeaderView {
        HeaderView {
            header_flag: self.header_flag@,
            proto_id: self.proto_id,
            proto_fmt_type: self.proto_fmt_type,
            proto_ver: self.proto_ver,
            serial_no: self.serial_no,
            body_len: self.body_len,
            body_sha1: self.body_sha1@,
            reserved: self.reserved@,
        }
    }
}

fn push_le(out: &mut Vec<u8>, v: u32)
    ensures
        final(out)@ == old(out)@ + le_bytes(v),
{
    out.push((v & 0xff) as u8);
    out.push(((v >> 8u32) & 0xff) as u8);
    out.push(((v >> 16u32) & 0xff) as u8);
    out.push(((v >> 24u32) & 0xff) as u8);
    assert(final(out)@ =~= old(out)@ + le_bytes(v));
}

fn read_le(src: &[u8], at: usize) -> (r: u32)
    requires
        at + 4 <= src@.len(),
    ensures
        r == u32_at(src@, at as int),
{
    (src[at] as u32) | ((src[at + 1] as u32) << 8u32) | ((src[at + 2] as u32) << 16u32) | ((
    src[at + 3] as u32) << 24u32)
}

impl APIProtoHeader {
    /// The header's 44 wire bytes.
    pub fn to_vec(&self) -> (r: Vec<u8>)
        ensures
            r@ == header_bytes(self@),
            r@.len() == PROTO_HEADER_LEN,
    {
        let mut out: Vec<u8> = Vec::with_capacity(PROTO_HEADER_LEN);
        out.extend_from_slice(self.header_flag.as_slice());
        push_le(&mut out, self.proto_id);
        out.push(self.proto_fmt_type);
        out.push(self.proto_ver);
        push_le(&mut out, self.serial_no);
        push_le(&mut out, self.body_len);
        out.extend_from_slice(self.body_sha1.as_slice());
        out.extend_from_slice(self.reserved.as_slice());
        assert(out@ =~= header_bytes(self@));
        out
    }

    /// Reads a header from the first 44 bytes of `src`; `None` while fewer
    /// are present. Bytes after the first 44 are not looked at.
    pub fn decode(src: &[u8]) -> (r: Option<APIProtoHeader>)
        ensures
            src@.len() < PROTO_HEADER_LEN <==> r is None,
            r matches Some(h) ==> h@ == header_of(src@),
    {
        if src.len() < PROTO_HEADER_LEN {
            return None;
        }
        let h = APIProtoHeader {
            header_flag: [src[0], src[1]],
            proto_id: read_le(src, 2),
            proto_fmt_type: src[6],
            proto_ver: src[7],
            serial_no: read_le(src, 8),
            body_len: read_le(src, 12),
            body_sha1: [
                src[16], src[17], src[18], src[19], src[20], src[21], src[22], src[23], src[24],
                src[25], src[26], src[27], src[28], src[29], src[30], src[31], src[32], src[33],
                src[34], src[35],
            ],
            reserved: [src[36], src[37], src[38], src[39], src[40], src[41], src[42], src[43]],
        };
        assert(h@.header_flag =~= src@.subrange(0, 2));
        assert(h@.body_sha1 =~= src@.subrange(16, 36));
        assert(h@.reserved =~= src@.subrange(36, 44));
        Some(h)
    }
}

/// Decoding the bytes of an encoded header gives back that header.
pub proof fn lemma_header_round_trip(h: HeaderView)
    requires
        header_wf(h),
    ensures
        header_bytes(h).len() == 44,
        header_of(header_bytes(h)) == h,
{
    let s = header_bytes(h);
    lemma_le_round_trip(h.proto_id);
    lemma_le_round_trip(h.serial_no);
    lemma_le_round_trip(h.body_len);
    assert(s.subrange(0, 2) =~= h.header_flag);
    assert(s.subrange(16, 36) =~= h.body_sha1);
    assert(s.subrange(36, 44) =~= h.reserved);
}

/// The header is read from the first 44 bytes alone: bytes past the 44th
/// (the body) do not change it.
pub proof fn lemma_header_prefix(s: Seq<u8>)
    requires
        s.len() >= 44,
    ensures
        header_of(s.take(44)) == header_of(s),
{
    let t = s.take(44);
    assert(t.subrange(0, 2) =~= s.subrange(0, 2));
    assert(t.subrange(16, 36) =~= s.subrange(16, 36));
    assert(t.subrange(36, 44) =~= s.subrange(36, 44));
}

} // verus!
