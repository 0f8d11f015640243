//! The codec of the line: none. What the device sends is passed on chunk by chunk, and
//! what is to be sent goes out as it is.

use vstd::prelude::*;

verus! {

/// The byte buffer of the `bytes` crate, `bytes::BytesMut`. Nothing of its inside is
/// known here but what [`contents`] names.
#[verifier::external_type_specification]
#[verifier::external_body]
pub struct ExBytesMut(bytes::BytesMut);

/// The bytes that a buffer holds, first to last.
pub uninterp spec fn contents(buffer: bytes::BytesMut) -> Seq<u8>;

/// `BytesMut::len`: the number of bytes that the buffer holds.
#[verifier::external_body]
fn buffer_len(buffer: &bytes::BytesMut) -> (len: usize)
    ensures
        len == contents(*buffer).len(),
{
    buffer.len()
}

/// `BytesMut::split_to`: takes the first `at` bytes out of the buffer and returns them
/// as a buffer of their own; the others stay, in order. It panics where `at` is more
/// than the buffer holds.
#[verifier::external_body]
fn buffer_split_to(buffer: &mut bytes::BytesMut, at: usize) -> (head: bytes::BytesMut)
    requires
        at <= contents(*old(buffer)).len(),
    ensures
        contents(head) == contents(*old(buffer)).take(at as int),
        contents(*final(buffer)) == contents(*old(buffer)).skip(at as int),
{
    buffer.split_to(at)
}

/// `BytesMut::reserve`: makes room for `additional` more bytes and leaves the bytes
/// held as they are. It panics where the room asked for overflows `usize`.
#[verifier::external_body]
fn buffer_reserve(buffer: &mut bytes::BytesMut, additional: usize)
    requires
        contents(*old(buffer)).len() + additional <= isize::MAX,
    ensures
        contents(*final(buffer)) == contents(*old(buffer)),
{
    buffer.reserve(additional)
}

/// `BufMut::put_slice` of `BytesMut`: appends the bytes of `src` to those held. It
/// reserves the room first, and panics as [`buffer_reserve`] does.
#[verifier::external_body]
fn buffer_put_slice(buffer: &mut bytes::BytesMut, src: &[u8])
    requires
        contents(*old(buffer)).len() + src@.len() <= isize::MAX,
    ensures
        contents(*final(buffer)) == contents(*old(buffer)) + src@,
{
    bytes::BufMut::put_slice(buffer, src)
}

/// The codec that frames nothing.
#[derive(Debug, Clone, Copy, PartialEq, Eq, Structural)]
pub struct RawCodec;

impl RawCodec {
    pub fn new() -> (codec: Self)
        ensures
            codec == RawCodec,
    {
        RawCodec {  }
    }

    /// Takes everything that was received out of `buffer`: all of it is one chunk, and
    /// `buffer` is empty afterwards. Where nothing was received there is no chunk.
    pub fn decode(&mut self, buffer: &mut bytes::BytesMut) -> (chunk: Option<bytes::BytesMut>)
        ensures
            contents(*final(buffer)) == Seq::<u8>::empty(),
            contents(*old(buffer)).len() == 0 ==> chunk is None,
            contents(*old(buffer)).len() > 0 ==> chunk is Some && contents(chunk.unwrap())
                == contents(*old(buffer)),
    {
        let len = buffer_len(buffer);
        let data = buffer_split_to(buffer, len);
        if buffer_len(&data) > 0 {
            Some(data)
        } else {
            None
        }
    }

    /// Appends `data`, as it is, to what `buffer` holds to be sent.
    pub fn encode(&mut self, data: &[u8], buffer: &mut bytes::BytesMut)
        requires
            contents(*old(buffer)).len() + data@.len() <= isize::MAX,
        ensures
            contents(*final(buffer)) == contents(*old(buffer)) + data@,
    {
        buffer_reserve(buffer, data.len());
        buffer_put_slice(buffer, data);
    }

    /// Appends `data` to what `buffer` holds, as [`RawCodec::encode`] does, where the
    /// two together are no longer than a buffer can be; else leaves `buffer` as it is.
    /// Says whether it appended.
    pub fn try_encode(&mut self, data: &[u8], buffer: &mut bytes::BytesMut) -> (appended: bool)
        ensures
            appended == (contents(*old(buffer)).len() + data@.len() <= isize::MAX),
            appended ==> contents(*final(buffer)) == contents(*old(buffer)) + data@,
            !appended ==> *final(buffer) == *old(buffer),
    {
        let limit: usize = isize::MAX as usize;
        let held = buffer_len(buffer);
        if held <= limit && data.len() <= limit - held {
            self.encode(data, buffer);
            true
        } else {
            false
        }
    }
}

} // verus!
