//! The handshake transcript accumulator.
use vstd::prelude::*;

use crate::digest::{
    clone_context, context_algorithm, context_input, digest_of, finish_context, new_context,
    update_context, DigestAlgorithm, MAX_DIGEST_INPUT,
};

verus! {

/// The abstract state of a [`HandshakeHash`].
pub struct TranscriptState {
    /// `None` until the digest algorithm is selected; then the algorithm and
    /// every byte the running digest has absorbed.
    pub hashing: Option<(DigestAlgorithm, Seq<u8>)>,
    /// Whether the raw transcript must be kept for client authentication.
    pub capture: bool,
    /// The bytes currently held back.
    pub buffer: Seq<u8>,
}

impl TranscriptState {
    /// A fresh accumulator: no algorithm, no capture, nothing held.
    pub open spec fn initial() -> TranscriptState {
        TranscriptState { hashing: None, capture: false, buffer: Seq::empty() }
    }

    /// Whether the digest algorithm has been selected.
    pub open spec fn selected(self) -> bool {
        self.hashing is Some
    }

    /// The algorithm in use, once selected.
    pub open spec fn algorithm(self) -> DigestAlgorithm
        recommends
            self.selected(),
    {
        self.hashing->Some_0.0
    }

    /// The bytes the running digest has absorbed, once selected.
    pub open spec fn hashed(self) -> Seq<u8>
        recommends
            self.selected(),
    {
        self.hashing->Some_0.1
    }

    /// Once selected, the held bytes are a suffix of the hashed bytes, and
    /// nothing is held while capture is off.
    pub open spec fn well_formed(self) -> bool {
        self.selected() ==> {
            &&& self.buffer.len() <= self.hashed().len()
            &&& self.buffer == self.hashed().subrange(
                self.hashed().len() - self.buffer.len(),
                self.hashed().len() as int,
            )
            &&& !self.capture ==> self.buffer.len() == 0
        }
    }

    pub open spec fn enable_capture(self) -> TranscriptState {
        TranscriptState { capture: true, ..self }
    }

    pub open spec fn discard_capture(self) -> TranscriptState {
        TranscriptState { capture: false, buffer: Seq::empty(), ..self }
    }

    /// Select `alg`: the digest starts over the held bytes, which are then
    /// dropped unless capture is on.
    pub open spec fn select(self, alg: DigestAlgorithm) -> TranscriptState {
        TranscriptState {
            hashing: Some((alg, self.buffer)),
            capture: self.capture,
            buffer: if self.capture {
                self.buffer
            } else {
                Seq::empty()
            },
        }
    }

    /// Feed `bytes`: hashed once selected, held before selection or while
    /// capture is on.
    pub open spec fn feed(self, bytes: Seq<u8>) -> TranscriptState {
        TranscriptState {
            hashing: match self.hashing {
                Some((alg, data)) => Some((alg, data + bytes)),
                None => None,
            },
            capture: self.capture,
            buffer: if !self.selected() || self.capture {
                self.buffer + bytes
            } else {
                self.buffer
            },
        }
    }

    /// Feed each of `chunks` in order.
    pub open spec fn feed_all(self, chunks: Seq<Seq<u8>>) -> TranscriptState
        decreases chunks.len(),
    {
        if chunks.len() == 0 {
            self
        } else {
            self.feed(chunks.first()).feed_all(chunks.drop_first())
        }
    }

    /// The state after the held bytes are handed out.
    pub open spec fn drained(self) -> TranscriptState {
        TranscriptState { buffer: Seq::empty(), ..self }
    }

    proof fn lemma_feed_well_formed(self, bytes: Seq<u8>)
        requires
            self.well_formed(),
        ensures
            self.feed(bytes).well_formed(),
    {
        let next = self.feed(bytes);
        if self.selected() {
            let h = self.hashed();
            let b = self.buffer;
            let nh = next.hashed();
            assert(nh == h + bytes);
            if self.capture {
                assert(b == h.subrange(h.len() - b.len(), h.len() as int));
                assert(nh.subrange(nh.len() - next.buffer.len(), nh.len() as int) =~= b + bytes);
            } else {
                next.lemma_empty_buffer_well_formed();
            }
        }
    }

    proof fn lemma_empty_buffer_well_formed(self)
        requires
            self.buffer.len() == 0,
        ensures
            self.well_formed(),
    {
        if self.selected() {
            let h = self.hashed();
            assert(h.subrange(h.len() as int, h.len() as int) =~= self.buffer);
        }
    }

    proof fn lemma_drained_well_formed(self)
        ensures
            self.drained().well_formed(),
    {
        self.drained().lemma_empty_buffer_well_formed();
    }

    proof fn lemma_discard_well_formed(self)
        ensures
            self.discard_capture().well_formed(),
    {
        self.discard_capture().lemma_empty_buffer_well_formed();
    }

    proof fn lemma_select_well_formed(self, alg: DigestAlgorithm)
        ensures
            self.select(alg).well_formed(),
    {
        let next = self.select(alg);
        if self.capture {
            assert(self.buffer.subrange(0, self.buffer.len() as int) =~= self.buffer);
        } else {
            next.lemma_empty_buffer_well_formed();
        }
    }

    /// The digest over everything hashed so far.
    pub open spec fn digest(self) -> Seq<u8>
        recommends
            self.selected(),
    {
        digest_of(self.algorithm(), self.hashed())
    }
}

/// Keeps a running digest of the handshake messages. Messages are held until
/// the digest algorithm is known, then hashed incrementally; with client
/// authentication possible, all messages are held as well.
pub struct HandshakeHash {
    /// `None` before the digest algorithm is known.
    ctx: Option<ring::digest::Context>,
    /// Whether all messages must be kept.
    client_auth_enabled: bool,
    /// Messages held before hashing starts, and for client authentication.
    buffer: Vec<u8>,
}

impl View for HandshakeHash {
    type V = TranscriptState;

    closed spec fn view(&self) -> TranscriptState {
        TranscriptState {
            hashing: match self.ctx {
                Some(c) => Some((context_algorithm(c), context_input(c))),
                None => None,
            },
            capture: self.client_auth_enabled,
            buffer: self.buffer@,
        }
    }
}

impl HandshakeHash {
    /// An accumulator with no algorithm selected, capture off and nothing held.
    pub fn new() -> (r: HandshakeHash)
        ensures
            r@ == TranscriptState::initial(),
            r@.well_formed(),
    {
        HandshakeHash { ctx: None, client_auth_enabled: false, buffer: Vec::new() }
    }

    /// Client authentication may follow, so keep the whole transcript. Only
    /// allowed before the digest algorithm is selected, since bytes may
    /// already have been dropped after that.
    pub fn set_client_auth_enabled(&mut self)
        requires
            old(self)@.well_formed(),
            !old(self)@.selected(),
        ensures
            final(self)@ == old(self)@.enable_capture(),
            final(self)@.well_formed(),
    {
        self.client_auth_enabled = true;
    }

    /// Client authentication will not happen: drop the held transcript.
    pub fn abandon_client_auth(&mut self)
        requires
            old(self)@.well_formed(),
        ensures
            final(self)@ == old(self)@.discard_capture(),
            final(self)@.well_formed(),
    {
        self.client_auth_enabled = false;
        self.buffer.clear();
        proof {
            old(self)@.lemma_discard_well_formed();
        }
        assert(self@ =~= old(self)@.discard_capture());
    }

    /// The digest algorithm is now known: start hashing, seeded with the
    /// held bytes.
    pub fn start_hash(&mut self, alg: DigestAlgorithm)
        requires
            old(self)@.well_formed(),
            !old(self)@.selected(),
        ensures
            final(self)@ == old(self)@.select(alg),
            final(self)@.well_formed(),
    {
        let mut ctx = new_context(alg);
        update_context(&mut ctx, self.buffer.as_slice());
        assert(context_input(ctx) =~= self.buffer@);
        self.ctx = Some(ctx);
        if !self.client_auth_enabled {
            self.buffer.clear();
        }
        assert(self@.buffer =~= old(self)@.select(alg).buffer);
        proof {
            old(self)@.lemma_select_well_formed(alg);
        }
    }

    /// Hash or hold the bytes of one message.
    pub fn update_raw(&mut self, buf: &[u8])
        requires
            old(self)@.well_formed(),
        ensures
            final(self)@ == old(self)@.feed(buf@),
            final(self)@.well_formed(),
    {
        let ghost pre = self@;
        if self.ctx.is_some() {
            let mut ctx = self.ctx.take().unwrap();
            update_context(&mut ctx, buf);
            self.ctx = Some(ctx);
        }
        if self.ctx.is_none() || self.client_auth_enabled {
            self.buffer.extend_from_slice(buf);
            assert(self.buffer@ =~= pre.buffer + buf@);
        }
        proof {
            pre.lemma_feed_well_formed(buf@);
        }
    }

    /// The digest over every byte fed so far. Hashing continues afterwards.
    pub fn get_current_hash(&self) -> (r: Vec<u8>)
        requires
            self@.selected(),
            self@.hashed().len() <= MAX_DIGEST_INPUT,
        ensures
            r@ == self@.digest(),
            r@.len() == crate::digest::digest_len(self@.algorithm()),
    {
        let ctx = clone_context(self.ctx.as_ref().unwrap());
        finish_context(ctx)
    }

    /// Hands out every held byte and leaves nothing held. Only allowed while
    /// the transcript is kept.
    pub fn take_handshake_buf(&mut self) -> (r: Vec<u8>)
        requires
            old(self)@.well_formed(),
            old(self)@.capture,
        ensures
            r@ == old(self)@.buffer,
            final(self)@ == old(self)@.drained(),
            final(self)@.well_formed(),
    {
        let mut taken = Vec::new();
        std::mem::swap(&mut self.buffer, &mut taken);
        proof {
            old(self)@.lemma_drained_well_formed();
        }
        assert(self@ =~= old(self)@.drained());
        taken
    }

    /// The bytes currently held.
    pub fn buffer(&self) -> (r: &[u8])
        ensures
            r@ == self@.buffer,
    {
        self.buffer.as_slice()
    }
}

} // verus!
