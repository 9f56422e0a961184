//! The request body, drained once and replayed as often as needed.
//!
//! A transport stream can be read a single time.  The gateway reads it to
//! the end into a `bytes::BytesMut`, freezes that into a `bytes::Bytes`,
//! and gives every later stage its own reader over the same bytes.

use vstd::prelude::*;

verus! {

#[verifier::external_type_specification]
#[verifier::external_body]
pub struct ExBytesMut(bytes::BytesMut);

#[verifier::external_type_specification]
#[verifier::external_body]
pub struct ExBytes(bytes::Bytes);

/// The bytes that a growing buffer holds, in order.
pub uninterp spec fn buffer_content(buffer: bytes::BytesMut) -> Seq<u8>;

/// The bytes that a frozen buffer holds, in order.
pub uninterp spec fn bytes_content(bytes: bytes::Bytes) -> Seq<u8>;

/// `BytesMut::new`.  Trusted: the new buffer is empty.
#[verifier::external_body]
fn empty_buffer() -> (buffer: bytes::BytesMut)
    ensures
        buffer_content(buffer) == Seq::<u8>::empty(),
{
    bytes::BytesMut::new()
}

/// `BytesMut::len`.  Trusted: it is the number of bytes held.
#[verifier::external_body]
fn buffer_len(buffer: &bytes::BytesMut) -> (n: usize)
    ensures
        n == buffer_content(*buffer).len(),
{
    buffer.len()
}

/// `Bytes::len`.  Trusted: it is the number of bytes held.
#[verifier::external_body]
fn bytes_len(bytes: &bytes::Bytes) -> (n: usize)
    ensures
        n == bytes_content(*bytes).len(),
{
    bytes.len()
}

/// `BufMut::put` of a `Bytes` into a `BytesMut`.  Trusted: the chunk's
/// bytes are appended.  The call panics where the new length overflows
/// `usize`, so that is excluded.
#[verifier::external_body]
fn put_chunk(buffer: &mut bytes::BytesMut, chunk: bytes::Bytes)
    requires
        buffer_content(*old(buffer)).len() + bytes_content(chunk).len() <= usize::MAX,
    ensures
        buffer_content(*final(buffer)) == buffer_content(*old(buffer)) + bytes_content(chunk),
{
    bytes::BufMut::put(buffer, chunk)
}

/// `BytesMut::freeze`.  Trusted: the frozen buffer holds the same bytes.
#[verifier::external_body]
fn freeze(buffer: bytes::BytesMut) -> (bytes: bytes::Bytes)
    ensures
        bytes_content(bytes) == buffer_content(buffer),
{
    buffer.freeze()
}

/// `Bytes::clone`.  Trusted: the clone is a second handle on the same
/// bytes.
#[verifier::external_body]
fn share(bytes: &bytes::Bytes) -> (other: bytes::Bytes)
    ensures
        bytes_content(other) == bytes_content(*bytes),
{
    bytes.clone()
}

/// `Bytes::to_vec`, through its view as a slice.  Trusted: the vector is a
/// copy of the bytes.
#[verifier::external_body]
fn copy_out(bytes: &bytes::Bytes) -> (copy: Vec<u8>)
    ensures
        copy@ == bytes_content(*bytes),
{
    bytes.to_vec()
}

/// A body that is still being read.
pub struct BodyBuffer {
    buffer: bytes::BytesMut,
}

impl View for BodyBuffer {
    type V = Seq<u8>;

    closed spec fn view(&self) -> Seq<u8> {
        buffer_content(self.buffer)
    }
}

/// A body that was read to its end.
pub struct BufferedBody {
    bytes: bytes::Bytes,
}

impl View for BufferedBody {
    type V = Seq<u8>;

    closed spec fn view(&self) -> Seq<u8> {
        bytes_content(self.bytes)
    }
}

/// The bytes of a chunk as the transport delivered it.
pub open spec fn chunk_view(chunk: bytes::Bytes) -> Seq<u8> {
    bytes_content(chunk)
}

impl BodyBuffer {
    /// A buffer with nothing read yet.
    pub fn new() -> (buffer: BodyBuffer)
        ensures
            buffer@ == Seq::<u8>::empty(),
    {
        BodyBuffer { buffer: empty_buffer() }
    }

    /// Appends a chunk.  Returns `false`, and leaves the buffer as it
    /// was, where the body would grow past what the machine can address.
    pub fn push(&mut self, chunk: bytes::Bytes) -> (taken: bool)
        ensures
            taken == (old(self)@.len() + chunk_view(chunk).len() <= usize::MAX),
            taken ==> final(self)@ == old(self)@ + chunk_view(chunk),
            !taken ==> final(self)@ == old(self)@,
    {
        let held = buffer_len(&self.buffer);
        let more = bytes_len(&chunk);
        if more <= usize::MAX - held {
            put_chunk(&mut self.buffer, chunk);
            true
        } else {
            false
        }
    }

    /// Ends the read: the body is whatever was appended, in order.
    pub fn finish(self) -> (body: BufferedBody)
        ensures
            body@ == self@,
    {
        BufferedBody { bytes: freeze(self.buffer) }
    }
}

impl BufferedBody {
    /// A fresh reader over the body, for one more stage to consume.
    pub fn replay(&self) -> (reader: bytes::Bytes)
        ensures
            chunk_view(reader) == self@,
    {
        share(&self.bytes)
    }

    /// The body's bytes, copied out.
    pub fn to_vec(&self) -> (copy: Vec<u8>)
        ensures
            copy@ == self@,
    {
        copy_out(&self.bytes)
    }
}

} // verus!
