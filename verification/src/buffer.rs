//! The byte buffer that the codec reads from and writes to.
//!
//! `bytes::BytesMut` is not verified here. This module declares the type,
//! names the bytes a buffer holds, and states what the codec relies on for
//! each of the buffer's operations that it calls.

use bytes::BytesMut;
use vstd::prelude::*;
use vstd::string::StringSliceAdditionalSpecFns;

verus! {

/// `bytes::BytesMut`, taken as it is: nothing inside it is looked at.
#[verifier::external_type_specification]
#[verifier::external_body]
pub struct ExBytesMut(bytes::BytesMut);

/// The bytes that a buffer holds, first to last.
pub uninterp spec fn buffered(buf: BytesMut) -> Seq<u8>;

/// `BytesMut::len`: the number of bytes held.
pub assume_specification[ bytes::BytesMut::len ](buf: &BytesMut) -> (len: usize)
    ensures
        len == buffered(*buf).len(),
;

/// `BytesMut::split_to`: hands out the first `at` bytes as a buffer of their
/// own and keeps the rest. It panics when `at` exceeds the length, so that is
/// required not to happen.
pub assume_specification[ bytes::BytesMut::split_to ](buf: &mut BytesMut, at: usize) -> (head:
    BytesMut)
    requires
        at <= buffered(*old(buf)).len(),
    ensures
        buffered(head) == buffered(*old(buf)).take(at as int),
        buffered(*final(buf)) == buffered(*old(buf)).skip(at as int),
;

/// `Buf::advance` on a `BytesMut`: drops the first `cnt` bytes. It panics
/// when `cnt` exceeds the length, so that is required not to happen.
#[verifier::external_body]
pub(crate) fn advance(buf: &mut BytesMut, cnt: usize)
    requires
        cnt <= buffered(*old(buf)).len(),
    ensures
        buffered(*final(buf)) == buffered(*old(buf)).skip(cnt as int),
{
    bytes::Buf::advance(buf, cnt)
}

/// `Deref::deref` on a `BytesMut`: the bytes held, as a slice.
#[verifier::external_body]
pub(crate) fn as_slice(buf: &BytesMut) -> (bytes: &[u8])
    ensures
        bytes@ == buffered(*buf),
{
    std::ops::Deref::deref(buf)
}

/// `fmt::Write::write_str` on a `BytesMut`: appends the bytes of `text` when
/// the buffer stays within `isize::MAX` bytes, and otherwise fails and leaves
/// the buffer as it was. The result tells whether the text was written.
#[verifier::external_body]
pub(crate) fn write_str(dst: &mut BytesMut, text: &str) -> (written: bool)
    ensures
        written <==> buffered(*old(dst)).len() + text.spec_bytes().len() <= isize::MAX,
        written ==> buffered(*final(dst)) == buffered(*old(dst)) + text.spec_bytes(),
        !written ==> buffered(*final(dst)) == buffered(*old(dst)),
{
    std::fmt::Write::write_str(dst, text).is_ok()
}

} // verus!
