//! Digest algorithms and the trusted boundary to `ring::digest`.
use vstd::prelude::*;

verus! {

/// The digest algorithms that `ring::digest` offers.
#[derive(Clone, Copy, Debug, PartialEq, Eq, Structural)]
pub enum DigestAlgorithm {
    Sha1ForLegacyUseOnly,
    Sha256,
    Sha384,
    Sha512,
    Sha512Truncated256,
}

/// Number of bytes in a digest produced by `alg`.
pub open spec fn digest_len(alg: DigestAlgorithm) -> nat {
    match alg {
        DigestAlgorithm::Sha1ForLegacyUseOnly => 20,
        DigestAlgorithm::Sha256 => 32,
        DigestAlgorithm::Sha384 => 48,
        DigestAlgorithm::Sha512 => 64,
        DigestAlgorithm::Sha512Truncated256 => 32,
    }
}

/// The most input bytes a context can finish on: the bit length of the
/// input must fit in 64 bits.
pub const MAX_DIGEST_INPUT: u64 = 0x1fff_ffff_ffff_ffff;

/// The digest of `data` under `alg`.
pub uninterp spec fn digest_of(alg: DigestAlgorithm, data: Seq<u8>) -> Seq<u8>;

/// The algorithm that a digest context was created with.
pub uninterp spec fn context_algorithm(ctx: ring::digest::Context) -> DigestAlgorithm;

/// All bytes that a digest context has absorbed, in order.
pub uninterp spec fn context_input(ctx: ring::digest::Context) -> Seq<u8>;

#[verifier::external_type_specification]
#[verifier::external_body]
pub struct ExContext(ring::digest::Context);

/// Relies on `ring::digest::Context::new`: a fresh context for the given
/// algorithm that has absorbed nothing.
#[verifier::external_body]
pub(crate) fn new_context(alg: DigestAlgorithm) -> (r: ring::digest::Context)
    ensures
        context_algorithm(r) == alg,
        context_input(r) == Seq::<u8>::empty(),
{
    ring::digest::Context::new(
        match alg {
            DigestAlgorithm::Sha1ForLegacyUseOnly => &ring::digest::SHA1_FOR_LEGACY_USE_ONLY,
            DigestAlgorithm::Sha256 => &ring::digest::SHA256,
            DigestAlgorithm::Sha384 => &ring::digest::SHA384,
            DigestAlgorithm::Sha512 => &ring::digest::SHA512,
            DigestAlgorithm::Sha512Truncated256 => &ring::digest::SHA512_256,
        },
    )
}

/// Relies on `ring::digest::Context::update`: the context absorbs `data`
/// after what it held, keeps its algorithm, and does not panic.
#[verifier::external_body]
pub(crate) fn update_context(ctx: &mut ring::digest::Context, data: &[u8])
    ensures
        context_algorithm(*final(ctx)) == context_algorithm(*old(ctx)),
        context_input(*final(ctx)) == context_input(*old(ctx)) + data@,
{
    ctx.update(data)
}

/// Relies on the derived `Clone` of `ring::digest::Context`: the copy holds
/// the same algorithm and the same absorbed input.
#[verifier::external_body]
pub(crate) fn clone_context(ctx: &ring::digest::Context) -> (r: ring::digest::Context)
    ensures
        context_algorithm(r) == context_algorithm(*ctx),
        context_input(r) == context_input(*ctx),
{
    ctx.clone()
}

/// Relies on `ring::digest::Context::finish`: the digest of all absorbed
/// input, with the algorithm's output length. It panics when the input's
/// bit length overflows 64 bits, which `requires` rules out.
#[verifier::external_body]
pub(crate) fn finish_context(ctx: ring::digest::Context) -> (r: Vec<u8>)
    requires
        context_input(ctx).len() <= MAX_DIGEST_INPUT,
    ensures
        r@ == digest_of(context_algorithm(ctx), context_input(ctx)),
        r@.len() == digest_len(context_algorithm(ctx)),
{
    ctx.finish().as_ref().to_vec()
}

} // verus!
