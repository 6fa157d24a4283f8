//! Trusted boundary to `tantivy_common::CountingWriter`, the byte sink
//! that counts how many bytes ran through it.
//!
//! The library instantiates the sink with an in-memory `Vec<u8>`. Writing
//! to a `Vec<u8>` is infallible and always takes the whole buffer (std's
//! `Write` impl for `Vec<u8>` documents this), so these wrappers also
//! promise success; the only input left out is one that would overflow
//! the writer's `u64` byte counter.

use std::io::Write;

use vstd::prelude::*;

use tantivy_common::CountingWriter;

verus! {

#[verifier::external_type_specification]
#[verifier::external_body]
#[verifier::reject_recursive_types(W)]
pub struct ExCountingWriter<W>(CountingWriter<W>);

#[verifier::external_type_specification]
#[verifier::external_body]
pub struct ExIoError(std::io::Error);

/// The bytes written through a counting writer since it was created.
pub uninterp spec fn counting_log(w: CountingWriter<Vec<u8>>) -> Seq<u8>;

/// The bytes the underlying vector already held when the counting writer
/// was created.
pub uninterp spec fn counting_prior(w: CountingWriter<Vec<u8>>) -> Seq<u8>;

/// Relies on `CountingWriter::wrap`: wraps the vector and starts the byte
/// counter at zero.
#[verifier::external_body]
pub(crate) fn counting_wrap(underlying: Vec<u8>) -> (w: CountingWriter<Vec<u8>>)
    ensures
        counting_log(w) == Seq::<u8>::empty(),
        counting_prior(w) == underlying@,
{
    CountingWriter::wrap(underlying)
}

/// Relies on `CountingWriter::written_bytes`: the counter starts at zero
/// and each write adds exactly the number of bytes appended to the
/// underlying vector, so it equals the length of the written log.
#[verifier::external_body]
pub(crate) fn counting_written_bytes(w: &CountingWriter<Vec<u8>>) -> (r: u64)
    ensures
        r == counting_log(*w).len(),
{
    w.written_bytes()
}

/// Relies on `<CountingWriter as Write>::write` and std's `Write` impl
/// for `Vec<u8>`: the whole buffer is appended and the call cannot fail.
#[verifier::external_body]
pub(crate) fn counting_write(w: &mut CountingWriter<Vec<u8>>, buf: &[u8]) -> (r: Result<
    usize,
    std::io::Error,
>)
    requires
        counting_log(*old(w)).len() + buf@.len() <= u64::MAX,
    ensures
        r is Ok,
        r matches Ok(n) ==> n == buf@.len(),
        counting_log(*final(w)) == counting_log(*old(w)) + buf@,
        counting_prior(*final(w)) == counting_prior(*old(w)),
{
    w.write(buf)
}

/// Relies on `<CountingWriter as Write>::write_all` and std's `Write`
/// impl for `Vec<u8>`: the whole buffer is appended and the call cannot
/// fail.
#[verifier::external_body]
pub(crate) fn counting_write_all(w: &mut CountingWriter<Vec<u8>>, buf: &[u8]) -> (r: Result<
    (),
    std::io::Error,
>)
    requires
        counting_log(*old(w)).len() + buf@.len() <= u64::MAX,
    ensures
        r is Ok,
        counting_log(*final(w)) == counting_log(*old(w)) + buf@,
        counting_prior(*final(w)) == counting_prior(*old(w)),
{
    w.write_all(buf)
}

/// Relies on `<CountingWriter as Write>::flush`: it forwards to the
/// vector's flush, which does nothing and cannot fail.
#[verifier::external_body]
pub(crate) fn counting_flush(w: &mut CountingWriter<Vec<u8>>) -> (r: Result<(), std::io::Error>)
    ensures
        r is Ok,
        counting_log(*final(w)) == counting_log(*old(w)),
        counting_prior(*final(w)) == counting_prior(*old(w)),
{
    w.flush()
}

/// Relies on `CountingWriter::finish`: hands back the underlying vector,
/// which holds its original contents followed by everything written
/// through the counting writer.
#[verifier::external_body]
pub(crate) fn counting_finish(w: CountingWriter<Vec<u8>>) -> (r: Vec<u8>)
    ensures
        r@ == counting_prior(w) + counting_log(w),
{
    w.finish()
}

} // verus!
