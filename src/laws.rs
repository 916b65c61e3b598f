//! Laws of the transcript accumulator over sequences of calls, stated on
//! [`TranscriptState`], the view of a [`crate::HandshakeHash`].
use vstd::prelude::*;

use crate::digest::{digest_of, DigestAlgorithm};
use crate::transcript::TranscriptState;

verus! {

/// Feeding chunks before selection holds each of them after what was held.
pub proof fn lemma_feed_all_unselected(s: TranscriptState, chunks: Seq<Seq<u8>>)
    requires
        !s.selected(),
    ensures
        !s.feed_all(chunks).selected(),
        s.feed_all(chunks).capture == s.capture,
        s.feed_all(chunks).buffer == s.buffer + chunks.flatten(),
    decreases chunks.len(),
{
    if chunks.len() == 0 {
        assert(s.buffer + chunks.flatten() =~= s.buffer);
    } else {
        let rest = chunks.drop_first();
        lemma_feed_all_unselected(s.feed(chunks.first()), rest);
        assert(s.buffer + chunks.flatten() =~= (s.buffer + chunks.first()) + rest.flatten());
    }
}

/// Feeding chunks after selection hashes each of them, and holds them only
/// while capture is on.
pub proof fn lemma_feed_all_selected(s: TranscriptState, chunks: Seq<Seq<u8>>)
    requires
        s.selected(),
    ensures
        s.feed_all(chunks).selected(),
        s.feed_all(chunks).algorithm() == s.algorithm(),
        s.feed_all(chunks).capture == s.capture,
        s.feed_all(chunks).hashed() == s.hashed() + chunks.flatten(),
        s.feed_all(chunks).buffer == if s.capture {
            s.buffer + chunks.flatten()
        } else {
            s.buffer
        },
    decreases chunks.len(),
{
    if chunks.len() == 0 {
        assert(s.buffer + chunks.flatten() =~= s.buffer);
        assert(s.hashed() + chunks.flatten() =~= s.hashed());
    } else {
        let rest = chunks.drop_first();
        lemma_feed_all_selected(s.feed(chunks.first()), rest);
        assert(s.buffer + chunks.flatten() =~= (s.buffer + chunks.first()) + rest.flatten());
        assert(s.hashed() + chunks.flatten() =~= (s.hashed() + chunks.first()) + rest.flatten());
    }
}

/// Before the digest algorithm is selected, every byte fed is held, in
/// order, whether or not capture is on.
pub proof fn lemma_held_before_selection(chunks: Seq<Seq<u8>>, capture: bool)
    ensures
        ({
            let start = if capture {
                TranscriptState::initial().enable_capture()
            } else {
                TranscriptState::initial()
            };
            start.feed_all(chunks).buffer == chunks.flatten()
        }),
{
    let start = if capture {
        TranscriptState::initial().enable_capture()
    } else {
        TranscriptState::initial()
    };
    lemma_feed_all_unselected(start, chunks);
    assert(start.buffer + chunks.flatten() =~= chunks.flatten());
}

/// Right after selection, the digest is that of the bytes held at that time.
pub proof fn lemma_selection_seeds_digest(s: TranscriptState, alg: DigestAlgorithm)
    requires
        !s.selected(),
    ensures
        s.select(alg).digest() == digest_of(alg, s.buffer),
{
}

/// Selected with capture off, nothing is held, and feeding holds nothing.
pub proof fn lemma_nothing_held_without_capture(
    s: TranscriptState,
    alg: DigestAlgorithm,
    chunks: Seq<Seq<u8>>,
)
    requires
        !s.selected(),
        !s.capture,
    ensures
        s.select(alg).buffer.len() == 0,
        s.select(alg).feed_all(chunks).buffer.len() == 0,
{
    lemma_feed_all_selected(s.select(alg), chunks);
}

/// Selected with capture on, the held bytes are every byte ever fed, before
/// and after selection, and so equal what the digest covers.
pub proof fn lemma_all_held_with_capture(
    s: TranscriptState,
    alg: DigestAlgorithm,
    chunks: Seq<Seq<u8>>,
)
    requires
        !s.selected(),
        s.capture,
    ensures
        s.select(alg).buffer == s.buffer,
        s.select(alg).feed_all(chunks).buffer == s.buffer + chunks.flatten(),
        s.select(alg).feed_all(chunks).buffer == s.select(alg).feed_all(chunks).hashed(),
{
    lemma_feed_all_selected(s.select(alg), chunks);
}

/// After selection, discarding capture empties the held bytes for good and
/// leaves the digest alone: it still covers every byte fed.
pub proof fn lemma_discard_keeps_digest(s: TranscriptState, chunks: Seq<Seq<u8>>)
    requires
        s.selected(),
    ensures
        s.discard_capture().buffer.len() == 0,
        s.discard_capture().digest() == s.digest(),
        s.discard_capture().feed_all(chunks).buffer.len() == 0,
        s.discard_capture().feed_all(chunks).digest() == digest_of(
            s.algorithm(),
            s.hashed() + chunks.flatten(),
        ),
{
    lemma_feed_all_selected(s.discard_capture(), chunks);
}

/// Draining hands out the held bytes once: afterwards nothing is held, so a
/// second drain hands out nothing, and capture stays on.
pub proof fn lemma_drain_single_use(s: TranscriptState)
    requires
        s.capture,
    ensures
        s.drained().buffer.len() == 0,
        s.drained().capture,
        s.drained().drained() == s.drained(),
{
}

} // verus!
