//! Frames: a header followed by exactly `body_len` body bytes, with the
//! body's SHA-1 digest carried in the header.
use crate::header::{
    header_bytes, header_of, lemma_header_prefix, lemma_header_round_trip, APIProtoHeader,
    HeaderView, HEADER_FLAG, PROTO_HEADER_LEN,
};
use crate::serial::{serial_no, SerialNo};
use vstd::prelude::*;
use vstd::slice::{slice_subrange, slice_to_vec};

verus! {

/// Transport errors.
#[derive(Debug)]
pub enum Error {
    /// More bytes are needed before a frame can be read.
    Incomplete,
    /// Malformed header, unsupported body format or checksum mismatch.
    ProtoError(String),
    /// Failure of the connection, or its close in the middle of a frame.
    ConnectionError(String),
    /// A single bounded read exceeded its deadline.
    Timeout(String),
    Other(String),
}

/// The SHA-1 digest of a byte sequence.
pub uninterp spec fn sha1_of(data: Seq<u8>) -> Seq<u8>;

/// Relies on rust-crypto's `Sha1` (`Digest::input`, then `Digest::result` into
/// a 20-byte buffer): the SHA-1 digest of `msg`, a function of its bytes alone.
#[verifier::external_body]
fn sha1(msg: &[u8]) -> (r: [u8; 20])
    ensures
        r@ == sha1_of(msg@),
{
    let mut buf: [u8; 20] = [0u8; 20];
    let mut hasher = crypto::sha1::Sha1::new();
    crypto::digest::Digest::input(&mut hasher, msg);
    crypto::digest::Digest::result(&mut hasher, &mut buf);
    buf
}

/// What the front of a byte buffer holds, as far as frames go.
pub enum FrameOutcome {
    /// Not yet a whole frame: the header or part of the body is missing.
    Incomplete,
    /// A whole header whose body format is not the binary one.
    Unsupported,
    /// A whole frame: its header and its body bytes.
    Complete { header: HeaderView, body: Seq<u8> },
}

/// The body format of binary-serialized bodies, the only one supported.
pub const BODY_FORMAT_BINARY: u8 = 0;

/// How the front of `s` reads as a frame.
pub open spec fn frame_outcome(s: Seq<u8>) -> FrameOutcome {
    if s.len() < PROTO_HEADER_LEN {
        FrameOutcome::Incomplete
    } else {
        let h = header_of(s);
        if h.proto_fmt_type != BODY_FORMAT_BINARY {
            FrameOutcome::Unsupported
        } else if s.len() < PROTO_HEADER_LEN + h.body_len {
            FrameOutcome::Incomplete
        } else {
            FrameOutcome::Complete {
                header: h,
                body: s.subrange(PROTO_HEADER_LEN as int, PROTO_HEADER_LEN + h.body_len),
            }
        }
    }
}

/// The number of buffer bytes a whole frame with this header takes.
pub open spec fn frame_len(h: HeaderView) -> int {
    PROTO_HEADER_LEN + h.body_len
}

/// The header an outgoing frame gets for a body, a message id and a sequence number.
pub open spec fn outgoing_header(body: Seq<u8>, proto_id: u32, serial_no: u32) -> HeaderView {
    HeaderView {
        header_flag: HEADER_FLAG@,
        proto_id,
        proto_fmt_type: BODY_FORMAT_BINARY,
        proto_ver: 0,
        serial_no,
        body_len: body.len() as u32,
        body_sha1: sha1_of(body),
        reserved: seq![0u8, 0u8, 0u8, 0u8, 0u8, 0u8, 0u8, 0u8],
    }
}

/// The wire bytes of a frame.
pub open spec fn frame_bytes(h: HeaderView, body: Seq<u8>) -> Seq<u8> {
    header_bytes(h) + body
}

/// A header with an undecoded body.
#[derive(Debug)]
pub struct FrameRaw {
    pub header: APIProtoHeader,
    pub body: Vec<u8>,
}

impl FrameRaw {
    /// The header's length field matches the body.
    pub open spec fn wf(&self) -> bool {
        self.header.body_len == self.body@.len()
    }

    /// Wraps a body into a frame: binary format, the given message id and
    /// sequence number, the body's length and SHA-1 digest, zero reserved bytes.
    pub fn new(body: Vec<u8>, proto_id: u32, serial_no: u32) -> (r: FrameRaw)
        requires
            body@.len() <= u32::MAX,
        ensures
            r.header@ == outgoing_header(body@, proto_id, serial_no),
            r.body@ == body@,
            r.wf(),
    {
        let digest = sha1(body.as_slice());
        let header = APIProtoHeader {
            header_flag: HEADER_FLAG,
            proto_id,
            proto_fmt_type: BODY_FORMAT_BINARY,
            proto_ver: 0,
            serial_no,
            body_len: body.len() as u32,
            body_sha1: digest,
            reserved: [0u8; 8],
        };
        assert(header@.reserved =~= seq![0u8, 0u8, 0u8, 0u8, 0u8, 0u8, 0u8, 0u8]);
        FrameRaw { header, body }
    }

    /// Wraps a body into a frame tagged with the counter's next sequence number.
    pub fn encode(body: Vec<u8>, proto_id: u32, counter: &mut SerialNo) -> (r: FrameRaw)
        requires
            body@.len() <= u32::MAX,
            old(counter)@ < u32::MAX,
        ensures
            r.header@ == outgoing_header(body@, proto_id, (old(counter)@ + 1) as u32),
            r.body@ == body@,
            r.wf(),
            final(counter)@ == old(counter)@ + 1,
    {
        let n = serial_no(counter);
        FrameRaw::new(body, proto_id, n)
    }

    /// The frame's wire bytes: the 44 header bytes, then the body.
    pub fn to_bytes(&self) -> (r: Vec<u8>)
        ensures
            r@ == frame_bytes(self.header@, self.body@),
    {
        let mut out = self.header.to_vec();
        out.extend_from_slice(self.body.as_slice());
        out
    }

    /// Reads one frame from the front of `src`. `Incomplete` while the header
    /// or the body is not all there; `ProtoError` for a body format other than
    /// the binary one. The frame takes `44 + body_len` bytes of `src`.
    pub fn parse(src: &[u8]) -> (r: Result<FrameRaw, Error>)
        ensures
            frame_outcome(src@) is Incomplete <==> r matches Err(Error::Incomplete),
            frame_outcome(src@) is Unsupported <==> r matches Err(Error::ProtoError(_)),
            frame_outcome(src@) is Complete <==> r is Ok,
            r matches Ok(f) ==> f.wf() && frame_outcome(src@) == (FrameOutcome::Complete {
                header: f.header@,
                body: f.body@,
            }),
    {
        let header = match APIProtoHeader::decode(src) {
            Some(h) => h,
            None => return Err(Error::Incomplete),
        };
        if header.proto_fmt_type != BODY_FORMAT_BINARY {
            return Err(Error::ProtoError("unsupported body format".to_string()));
        }
        let rest = src.len() - PROTO_HEADER_LEN;
        if rest < header.body_len as usize {
            return Err(Error::Incomplete);
        }
        let end = PROTO_HEADER_LEN + header.body_len as usize;
        let body = slice_to_vec(slice_subrange(src, PROTO_HEADER_LEN, end));
        Ok(FrameRaw { header, body })
    }

    /// Keeps the frame when `digest`, the SHA-1 digest of its body, is the one
    /// its header carries; otherwise `ProtoError`.
    pub fn check_digest(self, digest: &[u8; 20]) -> (r: Result<FrameRaw, Error>)
        ensures
            digest@ == self.header.body_sha1@ <==> r is Ok,
            r matches Ok(f) ==> f == self,
            r is Err ==> r matches Err(Error::ProtoError(_)),
    {
        let mut i: usize = 0;
        while i < 20
            invariant
                0 <= i <= 20,
                forall|j: int| 0 <= j < i ==> digest@[j] == self.header.body_sha1@[j],
            decreases 20 - i,
        {
            if digest[i] != self.header.body_sha1[i] {
                return Err(Error::ProtoError("body checksum mismatch".to_string()));
            }
            i = i + 1;
        }
        assert(digest@ =~= self.header.body_sha1@);
        Ok(self)
    }

    /// Keeps the frame when its body's SHA-1 digest is the one its header
    /// carries; otherwise `ProtoError`.
    pub fn verify_checksum(self) -> (r: Result<FrameRaw, Error>)
        ensures
            sha1_of(self.body@) == self.header.body_sha1@ <==> r is Ok,
            r matches Ok(f) ==> f == self,
            r is Err ==> r matches Err(Error::ProtoError(_)),
    {
        let digest = sha1(self.body.as_slice());
        self.check_digest(&digest)
    }
}

/// Decoding the bytes of an encoded binary-format frame gives back its
/// header (message id included) and its body, whatever bytes follow them.
pub proof fn lemma_frame_round_trip(frame: FrameRaw, rest: Seq<u8>)
    requires
        frame.wf(),
        frame.header.proto_fmt_type == BODY_FORMAT_BINARY,
    ensures
        frame_outcome(frame_bytes(frame.header@, frame.body@) + rest) == (FrameOutcome::Complete {
            header: frame.header@,
            body: frame.body@,
        }),
{
    let h = frame.header@;
    let body = frame.body@;
    lemma_header_round_trip(h);
    let s = frame_bytes(h, body) + rest;
    lemma_header_prefix(s);
    assert(s.take(44) =~= header_bytes(h));
    assert(s.subrange(44, 44 + body.len() as int) =~= body);
}

/// With 43 bytes of a header no frame can be read yet; the 44th byte
/// completes the header, which reads the same as from all the bytes, and no
/// body byte is taken with it: a frame with a body is still incomplete.
pub proof fn lemma_header_boundary(s: Seq<u8>)
    requires
        s.len() >= 44,
    ensures
        frame_outcome(s.take(43)) is Incomplete,
        header_of(s.take(44)) == header_of(s),
        header_of(s).proto_fmt_type == BODY_FORMAT_BINARY && header_of(s).body_len > 0
            ==> frame_outcome(s.take(44)) is Incomplete,
{
    lemma_header_prefix(s);
}

} // verus!
