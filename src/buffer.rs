//! Reassembly of frames from reads of any size. Bytes are only appended at
//! the back (from the socket) or consumed at the front (a whole frame), and
//! nothing buffered is dropped while a frame is incomplete.
use crate::frame::{frame_len, frame_outcome, sha1_of, Error, FrameOutcome, FrameRaw};
use crate::header::{header_of, lemma_header_prefix, PROTO_HEADER_LEN};
use bytes::BytesMut;
use vstd::prelude::*;

verus! {

#[verifier::external_type_specification]
#[verifier::external_body]
pub struct ExBytesMut(BytesMut);

/// The bytes a `BytesMut` holds.
pub uninterp spec fn bytes_mut_contents(b: BytesMut) -> Seq<u8>;

/// Relies on `BytesMut::with_capacity`: a new buffer of length 0.
#[verifier::external_body]
fn bytes_with_capacity(capacity: usize) -> (r: BytesMut)
    ensures
        bytes_mut_contents(r) == Seq::<u8>::empty(),
{
    BytesMut::with_capacity(capacity)
}

/// Relies on `BytesMut`'s `Deref` to `[u8]`: the bytes it holds, in order.
#[verifier::external_body]
fn bytes_as_slice(b: &BytesMut) -> (r: &[u8])
    ensures
        r@ == bytes_mut_contents(*b),
{
    &b[..]
}

/// Relies on `BytesMut::extend_from_slice`: appends `data` at the back,
/// growing the buffer first where needed.
#[verifier::external_body]
fn bytes_append(b: &mut BytesMut, data: &[u8])
    requires
        bytes_mut_contents(*old(b)).len() + data@.len() <= isize::MAX,
    ensures
        bytes_mut_contents(*final(b)) == bytes_mut_contents(*old(b)) + data@,
{
    b.extend_from_slice(data)
}

/// Relies on `Buf::advance` for `BytesMut`: drops the first `n` bytes
/// (it panics past the length, which `requires` excludes).
#[verifier::external_body]
fn bytes_advance(b: &mut BytesMut, n: usize)
    requires
        n <= bytes_mut_contents(*old(b)).len(),
    ensures
        bytes_mut_contents(*final(b)) == bytes_mut_contents(*old(b)).skip(n as int),
{
    bytes::Buf::advance(b, n)
}

/// Initial capacity of a connection's buffer.
pub const BUFFER_CAPACITY: usize = 4096;

/// What one bounded-timeout read from the socket gave.
#[derive(Debug)]
pub enum ReadEvent {
    /// The bytes read; none means that the peer closed the connection.
    Data(Vec<u8>),
    /// No byte arrived within the read's deadline.
    TimedOut,
    /// The read failed, with the I/O error's text.
    Failed(String),
}

/// The buffer of one connection, from which whole frames are carved.
pub struct FrameBuffer {
    buffer: BytesMut,
}

impl View for FrameBuffer {
    type V = Seq<u8>;

    closed spec fn view(&self) -> Seq<u8> {
        bytes_mut_contents(self.buffer)
    }
}

impl FrameBuffer {
    /// An empty buffer.
    pub fn new() -> (r: FrameBuffer)
        ensures
            r@ == Seq::<u8>::empty(),
    {
        FrameBuffer { buffer: bytes_with_capacity(BUFFER_CAPACITY) }
    }

    /// The buffered bytes, oldest first.
    pub fn as_slice(&self) -> (r: &[u8])
        ensures
            r@ == self@,
    {
        bytes_as_slice(&self.buffer)
    }

    /// Number of buffered bytes.
    pub fn len(&self) -> (r: usize)
        ensures
            r == self@.len(),
    {
        bytes_as_slice(&self.buffer).len()
    }

    /// Carves one frame from the front of the buffer. A whole frame whose body
    /// matches its checksum comes out and its `44 + body_len` bytes leave the
    /// buffer; `None` while the frame is not whole; `ProtoError` for an
    /// unsupported body format or a checksum mismatch. Only a frame that comes
    /// out changes the buffer.
    ///
    /// The body checksum is enforced here by design: the header carries it to
    /// detect corruption, so a frame whose body does not match is refused
    /// rather than handed on.
    pub fn poll_frame(&mut self) -> (r: Result<Option<FrameRaw>, Error>)
        ensures
            frame_outcome(old(self)@) is Incomplete <==> r matches Ok(None),
            frame_outcome(old(self)@) is Unsupported ==> r matches Err(Error::ProtoError(_)),
            frame_outcome(old(self)@) matches FrameOutcome::Complete { header, body } ==> (
            sha1_of(body) == header.body_sha1 <==> r matches Ok(Some(_))),
            r is Err ==> r matches Err(Error::ProtoError(_)),
            r matches Ok(Some(f)) ==> f.wf() && frame_outcome(old(self)@) == (
            FrameOutcome::Complete { header: f.header@, body: f.body@ }) && final(self)@
                == old(self)@.skip(frame_len(f.header@)),
            !(r matches Ok(Some(_))) ==> final(self)@ == old(self)@,
    {
        let src = bytes_as_slice(&self.buffer);
        let total = src.len();
        match FrameRaw::parse(src) {
            Ok(frame) => {
                assert(PROTO_HEADER_LEN + frame.body@.len() <= total);
                match frame.verify_checksum() {
                    Ok(f) => {
                        let n = PROTO_HEADER_LEN + f.body.len();
                        bytes_advance(&mut self.buffer, n);
                        Ok(Some(f))
                    },
                    Err(e) => Err(e),
                }
            },
            Err(Error::Incomplete) => Ok(None),
            Err(e) => Err(e),
        }
    }

    /// Takes in the result of one read: bytes are appended (`Ok(true)`: try
    /// again); a zero-byte read is a clean close while nothing is buffered
    /// (`Ok(false)`: no frame) and a `ConnectionError` otherwise, as a frame
    /// was cut off; a timeout gives `Timeout`; a failed read `ConnectionError`.
    pub fn on_read(&mut self, event: ReadEvent) -> (r: Result<bool, Error>)
        requires
            event matches ReadEvent::Data(d) ==> old(self)@.len() + d@.len() <= isize::MAX,
        ensures
            match event {
                ReadEvent::Data(d) => if d@.len() > 0 {
                    r == Ok::<bool, Error>(true) && final(self)@ == old(self)@ + d@
                } else {
                    (old(self)@.len() == 0 <==> (r matches Ok(false))) && (old(self)@.len() > 0
                        <==> (r matches Err(Error::ConnectionError(_)))) && final(self)@
                        == old(self)@
                },
                ReadEvent::TimedOut => r matches Err(Error::Timeout(_)) && final(self)@
                    == old(self)@,
                ReadEvent::Failed(m) => r == Err::<bool, Error>(Error::ConnectionError(m))
                    && final(self)@ == old(self)@,
            },
    {
        match event {
            ReadEvent::Data(d) => {
                if d.len() > 0 {
                    bytes_append(&mut self.buffer, d.as_slice());
                    Ok(true)
                } else if self.len() == 0 {
                    Ok(false)
                } else {
                    Err(Error::ConnectionError("connection reset by peer".to_string()))
                }
            },
            ReadEvent::TimedOut => Err(Error::Timeout("read timeout 5s".to_string())),
            ReadEvent::Failed(m) => Err(Error::ConnectionError(m)),
        }
    }
}

/// Fed a whole frame a piece at a time, the buffer holds no whole frame until
/// its last byte is in, and then holds the same frame as when fed at once.
pub proof fn lemma_incremental_feed(s: Seq<u8>, k: int)
    requires
        frame_outcome(s) is Complete,
        s.len() == frame_len(header_of(s)),
        0 <= k < s.len(),
    ensures
        frame_outcome(s.take(k)) is Incomplete,
{
    if k >= PROTO_HEADER_LEN {
        let t = s.take(k);
        lemma_header_prefix(t);
        lemma_header_prefix(s);
        assert(t.take(44) =~= s.take(44));
    }
}

} // verus!
