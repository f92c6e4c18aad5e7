use vstd::prelude::*;

verus! {

/// Milliseconds waited after a command is written before polling begins, so
/// the shell has time to begin producing output.
pub const WARM_UP_MS: u64 = 100;

/// Milliseconds between two polls of a session's output buffer.
pub const POLL_INTERVAL_MS: u64 = 50;

/// Milliseconds of silence, after at least one chunk of output, that are
/// read as the command having finished.
pub const SILENCE_THRESHOLD_MS: u64 = 300;

/// The state of one command's output capture: the bytes drained from the
/// session's buffer so far, and the timing facts the silence heuristic
/// decides on. The loop around it — drain the buffer, poll, sleep — is the
/// caller's; every decision the loop takes is made here.
pub struct Capture {
    captured: Vec<u8>,
    seen: bool,
    last_data_ms: u64,
    timeout_ms: u64,
}

impl Capture {
    /// The bytes drained into this capture so far. Nothing that stood in the
    /// session's buffer before the capture began can reach it: the capture
    /// starts empty and grows only by the chunks fed to `poll`.
    pub closed spec fn bytes(&self) -> Seq<u8> {
        self.captured@
    }

    /// Whether any chunk of output has been seen yet.
    pub closed spec fn seen_data(&self) -> bool {
        self.seen
    }

    /// When the last chunk was seen, in milliseconds since the command was
    /// written. Meaningful only once `seen_data()` holds.
    pub closed spec fn last_data_at(&self) -> u64 {
        self.last_data_ms
    }

    /// The caller's hard cutoff in milliseconds.
    pub closed spec fn timeout(&self) -> u64 {
        self.timeout_ms
    }

    /// A capture that has seen nothing, for a command with the given hard
    /// cutoff.
    pub fn new(timeout_ms: u64) -> (r: Capture)
        ensures
            r.bytes() == Seq::<u8>::empty(),
            !r.seen_data(),
            r.timeout() == timeout_ms,
    {
        Capture { captured: Vec::new(), seen: false, last_data_ms: 0, timeout_ms }
    }

    /// One poll of the session's output buffer. `chunk` is what the buffer
    /// held and was drained of; `now_ms` is the time since the command was
    /// written, which never runs backwards. Returns whether the capture is
    /// over: unconditionally once the hard cutoff has passed, or once at
    /// least one chunk has been seen and silence has outlasted the
    /// threshold. Past the cutoff nothing more is accumulated.
    pub fn poll(&mut self, now_ms: u64, chunk: Vec<u8>) -> (done: bool)
        requires
            old(self).seen_data() ==> old(self).last_data_at() <= now_ms,
        ensures
            final(self).timeout() == old(self).timeout(),
            done == (now_ms > old(self).timeout() || (chunk@.len() == 0 && old(self).seen_data()
                && now_ms - old(self).last_data_at() > SILENCE_THRESHOLD_MS)),
            (now_ms > old(self).timeout() || chunk@.len() == 0) ==> *final(self) == *old(self),
            (now_ms <= old(self).timeout() && chunk@.len() > 0) ==> (final(self).bytes() == old(
                self,
            ).bytes() + chunk@ && final(self).seen_data() && final(self).last_data_at() == now_ms),
    {
        if now_ms > self.timeout_ms {
            return true;
        }
        if chunk.len() > 0 {
            let mut chunk = chunk;
            self.captured.append(&mut chunk);
            self.seen = true;
            self.last_data_ms = now_ms;
            false
        } else {
            self.seen && now_ms - self.last_data_ms > SILENCE_THRESHOLD_MS
        }
    }

    /// Hands the captured bytes over for cleaning once the capture is over.
    pub fn into_bytes(self) -> (r: Vec<u8>)
        ensures
            r@ == self.bytes(),
    {
        self.captured
    }
}

/// The concatenation of a run's chunks, oldest first.
pub open spec fn concat_of(chunks: Seq<Seq<u8>>) -> Seq<u8>
    decreases chunks.len(),
{
    if chunks.len() == 0 {
        Seq::empty()
    } else {
        concat_of(chunks.drop_last()) + chunks.last()
    }
}

/// Law (provenance of a capture): over any run of polls, the capture's
/// bytes are exactly the concatenation of the chunks its appending polls
/// fed it, in order, and nothing else. `states` are the capture's bytes
/// between those polls: `new` makes `states[0]` empty, and each appending
/// poll extends the bytes by precisely its chunk, as `poll` ensures (its
/// other outcomes leave the bytes untouched and so stand nowhere in the
/// run). In particular no byte that stood in the session's buffer before
/// the initial drain-and-discard can appear in what the capture returns.
pub proof fn lemma_capture_provenance(states: Seq<Seq<u8>>, chunks: Seq<Seq<u8>>)
    requires
        states.len() == chunks.len() + 1,
        states[0] == Seq::<u8>::empty(),
        forall|k: int| 0 <= k < chunks.len() ==> #[trigger] states[k + 1] == states[k] + chunks[k],
    ensures
        states[chunks.len() as int] == concat_of(chunks),
    decreases chunks.len(),
{
    if chunks.len() > 0 {
        let n = chunks.len() as int;
        let s2 = states.drop_last();
        let c2 = chunks.drop_last();
        assert forall|k: int| 0 <= k < c2.len() implies #[trigger] s2[k + 1] == s2[k] + c2[k] by {
            assert(s2[k + 1] == states[k + 1]);
            assert(s2[k] == states[k]);
            assert(c2[k] == chunks[k]);
        }
        lemma_capture_provenance(s2, c2);
        assert(s2[n - 1] == states[n - 1]);
        assert(states[n] == states[n - 1] + chunks[n - 1]);
        assert(chunks.last() == chunks[n - 1]);
    }
}

} // verus!
