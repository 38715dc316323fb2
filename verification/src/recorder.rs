//! Byte tape of a recorded challenger transcript, and byte-faithful replay.
//!
//! A recording challenger forwards every observe/sample call to the pinned
//! byte challenger and records the bytes on a [`ByteRecorder`] tape: the
//! flat stream of absorbed bytes, the flat stream of sampled bytes, and the
//! ordered event log. [`verify_byte_equivalence`] replays an event log
//! through a fresh challenger and checks every sampled byte. Replay needs the
//! exact observe/sample interleaving, because sampling chains the hash output
//! back into the challenger's input.
use vstd::prelude::*;
use crate::bytes::{append_bytes, copy_bytes};
use crate::challenger::{
    ByteChallenger, challenger_input, challenger_output, keccak256_digest, new_byte_challenger,
    observe_byte, sample_byte,
};
use crate::text::{decimal, hex_byte, push_decimal, push_hex_byte};

verus! {

/// A single observe/sample call recorded on the byte-level challenger.
#[derive(Clone, Debug, PartialEq, Eq)]
pub enum ByteTranscriptEvent {
    /// One `observe(...)` call; carries every byte it placed into the input buffer.
    Observed(Vec<u8>),
    /// One or more `sample()` calls; carries the bytes the sampler returned.
    Sampled(Vec<u8>),
}

/// Snapshot of [`ByteRecorder`] cursor positions, taken by [`ByteRecorder::snapshot`].
#[derive(Clone, Copy, Debug, PartialEq, Eq, Structural)]
pub struct RecorderSnapshot {
    /// Number of bytes in the absorbed tape at snapshot time.
    pub absorbed_len: usize,
    /// Number of bytes in the sampled tape at snapshot time.
    pub sampled_len: usize,
}

/// The byte tape captured by a recording challenger.
///
/// Invariant: the absorbed tape is the concatenation of the bytes of the
/// observed events, and the sampled tape that of the sampled events.
#[derive(Clone, Debug)]
pub struct ByteRecorder {
    absorbed: Vec<u8>,
    sampled: Vec<u8>,
    events: Vec<ByteTranscriptEvent>,
}

/// The byte payload of an event.
pub open spec fn event_bytes(e: ByteTranscriptEvent) -> Seq<u8> {
    match e {
        ByteTranscriptEvent::Observed(b) => b@,
        ByteTranscriptEvent::Sampled(b) => b@,
    }
}

/// Concatenation of the bytes of the observed events among the first `n` events.
pub open spec fn observed_concat(events: Seq<ByteTranscriptEvent>, n: int) -> Seq<u8>
    decreases n,
{
    if n <= 0 {
        Seq::empty()
    } else {
        observed_concat(events, n - 1) + match events[n - 1] {
            ByteTranscriptEvent::Observed(b) => b@,
            ByteTranscriptEvent::Sampled(_) => Seq::empty(),
        }
    }
}

/// Concatenation of the bytes of the sampled events among the first `n` events.
pub open spec fn sampled_concat(events: Seq<ByteTranscriptEvent>, n: int) -> Seq<u8>
    decreases n,
{
    if n <= 0 {
        Seq::empty()
    } else {
        sampled_concat(events, n - 1) + match events[n - 1] {
            ByteTranscriptEvent::Observed(_) => Seq::empty(),
            ByteTranscriptEvent::Sampled(b) => b@,
        }
    }
}

impl ByteRecorder {
    /// The absorbed tape.
    pub closed spec fn absorbed_view(&self) -> Seq<u8> {
        self.absorbed@
    }

    /// The sampled tape.
    pub closed spec fn sampled_view(&self) -> Seq<u8> {
        self.sampled@
    }

    /// The event log.
    pub closed spec fn events_view(&self) -> Seq<ByteTranscriptEvent> {
        self.events@
    }

    /// The recorder's invariant: the flat tapes are the concatenations of
    /// the observed and sampled event bytes.
    pub open spec fn wf(&self) -> bool {
        &&& self.absorbed_view() == observed_concat(self.events_view(), self.events_view().len() as int)
        &&& self.sampled_view() == sampled_concat(self.events_view(), self.events_view().len() as int)
    }

    /// Creates a fresh recorder with empty tapes.
    pub fn new() -> (r: Self)
        ensures
            r.absorbed_view() == Seq::<u8>::empty(),
            r.sampled_view() == Seq::<u8>::empty(),
            r.events_view() == Seq::<ByteTranscriptEvent>::empty(),
            r.wf(),
    {
        ByteRecorder { absorbed: Vec::new(), sampled: Vec::new(), events: Vec::new() }
    }

    /// Records one observe call that absorbed `bytes`.
    pub fn record_observed(&mut self, bytes: &[u8])
        ensures
            final(self).absorbed_view() == old(self).absorbed_view() + bytes@,
            final(self).sampled_view() == old(self).sampled_view(),
            final(self).events_view().len() == old(self).events_view().len() + 1,
            final(self).events_view().drop_last() == old(self).events_view(),
            final(self).events_view().last() matches ByteTranscriptEvent::Observed(b) && b@ == bytes@,
            old(self).wf() ==> final(self).wf(),
    {
        append_bytes(&mut self.absorbed, bytes);
        let ghost before = self.events@;
        self.events.push(ByteTranscriptEvent::Observed(copy_bytes(bytes)));
        proof {
            let n = self.events@.len() as int;
            assert(self.events@.drop_last() =~= before);
            assert(self.events@.subrange(0, n - 1) =~= before);
            lemma_concat_prefix_stable(self.events@, before, n - 1);
        }
    }

    /// Records one sample call that returned `byte`.
    pub fn record_sampled(&mut self, byte: u8)
        ensures
            final(self).absorbed_view() == old(self).absorbed_view(),
            final(self).sampled_view() == old(self).sampled_view().push(byte),
            final(self).events_view().len() == old(self).events_view().len() + 1,
            final(self).events_view().drop_last() == old(self).events_view(),
            final(self).events_view().last() matches ByteTranscriptEvent::Sampled(b) && b@ == seq![byte],
            old(self).wf() ==> final(self).wf(),
    {
        self.sampled.push(byte);
        let ghost before = self.events@;
        let mut one: Vec<u8> = Vec::new();
        one.push(byte);
        self.events.push(ByteTranscriptEvent::Sampled(one));
        proof {
            let n = self.events@.len() as int;
            assert(self.events@.drop_last() =~= before);
            lemma_concat_prefix_stable(self.events@, before, n - 1);
            assert(self.events@[n - 1] == ByteTranscriptEvent::Sampled(one));
            assert(one@ =~= seq![byte]);
            assert(observed_concat(self.events@, n) =~= observed_concat(self.events@, n - 1));
            assert(sampled_concat(self.events@, n) =~= sampled_concat(self.events@, n - 1).push(byte));
        }
    }

    /// Returns a copy of every byte absorbed into the inner challenger so far.
    pub fn absorbed_bytes(&self) -> (r: Vec<u8>)
        ensures
            r@ == self.absorbed_view(),
    {
        copy_bytes(self.absorbed.as_slice())
    }

    /// Returns a copy of every byte returned from the inner challenger's `sample()` so far.
    pub fn sampled_bytes(&self) -> (r: Vec<u8>)
        ensures
            r@ == self.sampled_view(),
    {
        copy_bytes(self.sampled.as_slice())
    }

    /// Returns the current cursor positions in both tapes.
    pub fn snapshot(&self) -> (r: RecorderSnapshot)
        ensures
            r.absorbed_len == self.absorbed_view().len(),
            r.sampled_len == self.sampled_view().len(),
    {
        RecorderSnapshot { absorbed_len: self.absorbed.len(), sampled_len: self.sampled.len() }
    }

    /// Returns the bytes absorbed since the given snapshot.
    pub fn absorbed_since(&self, snapshot: &RecorderSnapshot) -> (r: Vec<u8>)
        requires
            snapshot.absorbed_len <= self.absorbed_view().len(),
        ensures
            r@ == self.absorbed_view().subrange(
                snapshot.absorbed_len as int,
                self.absorbed_view().len() as int,
            ),
    {
        let mut out: Vec<u8> = Vec::new();
        let mut i = snapshot.absorbed_len;
        while i < self.absorbed.len()
            invariant
                snapshot.absorbed_len <= i <= self.absorbed@.len(),
                out@ == self.absorbed@.subrange(snapshot.absorbed_len as int, i as int),
            decreases self.absorbed@.len() - i,
        {
            out.push(self.absorbed[i]);
            i = i + 1;
            assert(out@ =~= self.absorbed@.subrange(snapshot.absorbed_len as int, i as int));
        }
        out
    }

    /// Returns the bytes returned from `sample()` since the given snapshot.
    pub fn sampled_since(&self, snapshot: &RecorderSnapshot) -> (r: Vec<u8>)
        requires
            snapshot.sampled_len <= self.sampled_view().len(),
        ensures
            r@ == self.sampled_view().subrange(
                snapshot.sampled_len as int,
                self.sampled_view().len() as int,
            ),
    {
        let mut out: Vec<u8> = Vec::new();
        let mut i = snapshot.sampled_len;
        while i < self.sampled.len()
            invariant
                snapshot.sampled_len <= i <= self.sampled@.len(),
                out@ == self.sampled@.subrange(snapshot.sampled_len as int, i as int),
            decreases self.sampled@.len() - i,
        {
            out.push(self.sampled[i]);
            i = i + 1;
            assert(out@ =~= self.sampled@.subrange(snapshot.sampled_len as int, i as int));
        }
        out
    }

    /// Number of bytes currently in the absorbed tape.
    pub fn absorbed_len(&self) -> (r: usize)
        ensures
            r == self.absorbed_view().len(),
    {
        self.absorbed.len()
    }

    /// Number of bytes currently in the sampled tape.
    pub fn sampled_len(&self) -> (r: usize)
        ensures
            r == self.sampled_view().len(),
    {
        self.sampled.len()
    }

    /// Returns the ordered observe/sample event log.
    pub fn events(&self) -> (r: Vec<ByteTranscriptEvent>)
        ensures
            r@.len() == self.events_view().len(),
            forall|i: int| 0 <= i < r@.len() ==> same_event(#[trigger] r@[i], self.events_view()[i]),
    {
        let mut out: Vec<ByteTranscriptEvent> = Vec::new();
        let mut i: usize = 0;
        while i < self.events.len()
            invariant
                0 <= i <= self.events@.len(),
                out@.len() == i,
                forall|k: int| 0 <= k < i ==> same_event(#[trigger] out@[k], self.events@[k]),
            decreases self.events@.len() - i,
        {
            out.push(copy_event(&self.events[i]));
            i = i + 1;
        }
        out
    }

    /// Number of observe/sample events currently recorded.
    pub fn events_len(&self) -> (r: usize)
        ensures
            r == self.events_view().len(),
    {
        self.events.len()
    }
}

/// Two events are the same kind and carry the same bytes.
pub open spec fn same_event(a: ByteTranscriptEvent, b: ByteTranscriptEvent) -> bool {
    match (a, b) {
        (ByteTranscriptEvent::Observed(x), ByteTranscriptEvent::Observed(y)) => x@ == y@,
        (ByteTranscriptEvent::Sampled(x), ByteTranscriptEvent::Sampled(y)) => x@ == y@,
        _ => false,
    }
}

/// Returns a copy of an event.
pub fn copy_event(e: &ByteTranscriptEvent) -> (r: ByteTranscriptEvent)
    ensures
        same_event(r, *e),
{
    match e {
        ByteTranscriptEvent::Observed(b) => ByteTranscriptEvent::Observed(copy_bytes(b.as_slice())),
        ByteTranscriptEvent::Sampled(b) => ByteTranscriptEvent::Sampled(copy_bytes(b.as_slice())),
    }
}

/// The concatenations over a prefix depend only on that prefix.
proof fn lemma_concat_prefix_stable(events: Seq<ByteTranscriptEvent>, prefix: Seq<ByteTranscriptEvent>, n: int)
    requires
        0 <= n <= events.len(),
        prefix.len() == n,
        forall|i: int| 0 <= i < n ==> events[i] == prefix[i],
    ensures
        observed_concat(events, n) == observed_concat(prefix, n),
        sampled_concat(events, n) == sampled_concat(prefix, n),
    decreases n,
{
    if n > 0 {
        lemma_concat_prefix_stable(events, prefix.drop_last(), n - 1);
        lemma_concat_prefix_stable(prefix, prefix.drop_last(), n - 1);
    }
}

/// First detected mismatch when replaying a [`ByteTranscriptEvent`] log
/// through a fresh challenger.
#[derive(Clone, Copy, Debug, PartialEq, Eq, Structural)]
pub struct ReplayMismatch {
    /// Index of the `Sampled` event where the divergence was detected.
    pub event_index: usize,
    /// Byte position within the sampled event where the divergence occurred.
    pub byte_index: usize,
    /// Sampled byte recorded by the original challenger.
    pub expected: u8,
    /// Sampled byte produced by the replay challenger.
    pub actual: u8,
}

/// Human-readable rendering of a replay mismatch.
pub open spec fn replay_mismatch_text(m: ReplayMismatch) -> Seq<char> {
    "byte-equivalence replay diverged at event "@ + decimal(m.event_index as nat) + " byte "@
        + decimal(m.byte_index as nat) + ": original challenger sampled 0x"@ + hex_byte(m.expected)
        + ", replay sampled 0x"@ + hex_byte(m.actual)
}

impl ReplayMismatch {
    /// Human-readable description of this mismatch.
    pub fn message(&self) -> (r: String)
        ensures
            r@ == replay_mismatch_text(*self),
    {
        let mut s = String::from_str("byte-equivalence replay diverged at event ");
        push_decimal(&mut s, self.event_index as u64);
        s.append(" byte ");
        push_decimal(&mut s, self.byte_index as u64);
        s.append(": original challenger sampled 0x");
        push_hex_byte(&mut s, self.expected);
        s.append(", replay sampled 0x");
        push_hex_byte(&mut s, self.actual);
        s
    }
}

/// The challenger's buffers: (input buffer, output buffer).
pub type ChallengerState = (Seq<u8>, Seq<u8>);

/// State after observing `bytes`: they are appended to the input buffer, and
/// the output buffer is cleared when at least one byte was observed.
pub open spec fn observe_all(st: ChallengerState, bytes: Seq<u8>) -> ChallengerState {
    if bytes.len() == 0 {
        st
    } else {
        (st.0 + bytes, Seq::empty())
    }
}

/// One sample: refill both buffers with the digest of the input buffer when
/// the output buffer is empty, then pop the last output byte.
pub open spec fn sample_step(st: ChallengerState) -> (u8, ChallengerState) {
    if st.1.len() == 0 {
        let h = keccak256_digest(st.0);
        (h.last(), (h, h.drop_last()))
    } else {
        (st.1.last(), (st.0, st.1.drop_last()))
    }
}

/// Replays the first `k` expected bytes of a sampled event at `event_index`:
/// the state after them, or the first byte that differs.
pub open spec fn sample_prefix(
    st: ChallengerState,
    expected: Seq<u8>,
    k: int,
    event_index: int,
) -> Result<ChallengerState, ReplayMismatch>
    decreases k,
{
    if k <= 0 {
        Ok(st)
    } else {
        match sample_prefix(st, expected, k - 1, event_index) {
            Err(m) => Err(m),
            Ok(s) => {
                let (b, s2) = sample_step(s);
                if b == expected[k - 1] {
                    Ok(s2)
                } else {
                    Err(
                        ReplayMismatch {
                            event_index: event_index as usize,
                            byte_index: (k - 1) as usize,
                            expected: expected[k - 1],
                            actual: b,
                        },
                    )
                }
            },
        }
    }
}

/// Replays one event at position `index` from state `st`.
pub open spec fn replay_event(st: ChallengerState, e: ByteTranscriptEvent, index: int) -> Result<ChallengerState, ReplayMismatch> {
    match e {
        ByteTranscriptEvent::Observed(b) => Ok(observe_all(st, b@)),
        ByteTranscriptEvent::Sampled(b) => sample_prefix(st, b@, b@.len() as int, index),
    }
}

/// Replays the first `n` events from fresh buffers: the state after them, or
/// the first mismatch.
pub open spec fn replay_prefix(events: Seq<ByteTranscriptEvent>, n: int) -> Result<ChallengerState, ReplayMismatch>
    decreases n,
{
    if n <= 0 {
        Ok((Seq::empty(), Seq::empty()))
    } else {
        match replay_prefix(events, n - 1) {
            Err(m) => Err(m),
            Ok(st) => replay_event(st, events[n - 1], n - 1),
        }
    }
}

/// The outcome of replaying a whole event log.
pub open spec fn replay_outcome(events: Seq<ByteTranscriptEvent>) -> Result<(), ReplayMismatch> {
    match replay_prefix(events, events.len() as int) {
        Ok(_) => Ok(()),
        Err(m) => Err(m),
    }
}

/// Replays the first `n` events of `events` through a fresh challenger.
fn replay_first(events: &[ByteTranscriptEvent], n: usize) -> (r: Result<(), ReplayMismatch>)
    requires
        n <= events@.len(),
    ensures
        r == match replay_prefix(events@, n as int) {
            Ok(_) => Ok::<(), ReplayMismatch>(()),
            Err(m) => Err(m),
        },
{
    let mut challenger = new_byte_challenger();
    let mut event_index: usize = 0;
    while event_index < n
        invariant
            n <= events@.len(),
            0 <= event_index <= n,
            replay_prefix(events@, event_index as int) == Ok::<ChallengerState, ReplayMismatch>(
                (challenger_input(challenger), challenger_output(challenger)),
            ),
        decreases n - event_index,
    {
        let ghost st: ChallengerState = (challenger_input(challenger), challenger_output(challenger));
        match &events[event_index] {
            ByteTranscriptEvent::Observed(bytes) => {
                let mut k: usize = 0;
                while k < bytes.len()
                    invariant
                        n <= events@.len(),
                        0 <= event_index < n,
                        replay_prefix(events@, event_index as int) == Ok::<ChallengerState, ReplayMismatch>(st),
                        events@[event_index as int] matches ByteTranscriptEvent::Observed(b) && b@ == bytes@,
                        0 <= k <= bytes@.len(),
                        (challenger_input(challenger), challenger_output(challenger)) == observe_all(
                            st,
                            bytes@.subrange(0, k as int),
                        ),
                    decreases bytes@.len() - k,
                {
                    observe_byte(&mut challenger, bytes[k]);
                    k = k + 1;
                    assert(st.0 + bytes@.subrange(0, k as int) =~= st.0 + bytes@.subrange(
                        0,
                        k - 1,
                    ) + seq![bytes@[k - 1]]);
                }
                assert(bytes@.subrange(0, bytes@.len() as int) =~= bytes@);
            },
            ByteTranscriptEvent::Sampled(expected_bytes) => {
                let mut byte_index: usize = 0;
                while byte_index < expected_bytes.len()
                    invariant
                        n <= events@.len(),
                        0 <= event_index < n,
                        replay_prefix(events@, event_index as int) == Ok::<ChallengerState, ReplayMismatch>(st),
                        events@[event_index as int] matches ByteTranscriptEvent::Sampled(b) && b@
                            == expected_bytes@,
                        0 <= byte_index <= expected_bytes@.len(),
                        sample_prefix(st, expected_bytes@, byte_index as int, event_index as int)
                            == Ok::<ChallengerState, ReplayMismatch>(
                            (challenger_input(challenger), challenger_output(challenger)),
                        ),
                    decreases expected_bytes@.len() - byte_index,
                {
                    let expected = expected_bytes[byte_index];
                    let actual: u8 = sample_byte(&mut challenger);
                    if actual != expected {
                        proof {
                            let mm = ReplayMismatch { event_index, byte_index, expected, actual };
                            assert(sample_prefix(st, expected_bytes@, byte_index + 1, event_index as int)
                                == Err::<ChallengerState, ReplayMismatch>(mm));
                            lemma_sample_error_persists(
                                st,
                                expected_bytes@,
                                byte_index + 1,
                                expected_bytes@.len() as int,
                                event_index as int,
                            );
                            assert(replay_prefix(events@, event_index + 1) == Err::<
                                ChallengerState,
                                ReplayMismatch,
                            >(mm));
                            lemma_replay_error_persists(events@, event_index as int + 1, n as int);
                        }
                        return Err(ReplayMismatch { event_index, byte_index, expected, actual });
                    }
                    byte_index = byte_index + 1;
                }
            },
        }
        event_index = event_index + 1;
    }
    Ok(())
}

/// Once a sampled event's replay fails at some byte, it fails there for
/// every longer run of its bytes.
proof fn lemma_sample_error_persists(st: ChallengerState, expected: Seq<u8>, k: int, m: int, event_index: int)
    requires
        0 <= k <= m,
        sample_prefix(st, expected, k, event_index) is Err,
    ensures
        sample_prefix(st, expected, m, event_index) == sample_prefix(st, expected, k, event_index),
    decreases m - k,
{
    if m > k {
        lemma_sample_error_persists(st, expected, k, m - 1, event_index);
    }
}

/// Once a prefix fails to replay, every longer prefix fails with the same mismatch.
pub proof fn lemma_replay_error_persists(events: Seq<ByteTranscriptEvent>, n: int, m: int)
    requires
        0 <= n <= m,
        replay_prefix(events, n) is Err,
    ensures
        replay_prefix(events, m) == replay_prefix(events, n),
    decreases m - n,
{
    if m > n {
        lemma_replay_error_persists(events, n, m - 1);
    }
}

/// Replaying the first `n` events of a log only depends on those events.
pub proof fn lemma_replay_prefix_depends_on_prefix(a: Seq<ByteTranscriptEvent>, b: Seq<ByteTranscriptEvent>, n: int)
    requires
        0 <= n <= a.len(),
        n <= b.len(),
        forall|i: int| 0 <= i < n ==> a[i] == b[i],
    ensures
        replay_prefix(a, n) == replay_prefix(b, n),
    decreases n,
{
    if n > 0 {
        lemma_replay_prefix_depends_on_prefix(a, b, n - 1);
    }
}

/// Replays an observe/sample event log through a fresh
/// `HashChallenger<u8, Keccak256Hash, 32>` and checks that every sampled
/// byte matches the recorded value.
///
/// Returns `Ok(())` on byte-equivalent replay, or the first divergence.
pub fn verify_byte_equivalence(events: &[ByteTranscriptEvent]) -> (r: Result<(), ReplayMismatch>)
    ensures
        r == replay_outcome(events@),
{
    replay_first(events, events.len())
}

/// Byte-equivalence is closed under taking prefixes: if a log replays, so
/// does every prefix of it.
pub proof fn law_replay_prefix_closed(events: Seq<ByteTranscriptEvent>, n: int, m: int)
    requires
        0 <= m <= n <= events.len(),
        replay_outcome(events.take(n)) is Ok,
    ensures
        replay_outcome(events.take(m)) is Ok,
{
    lemma_replay_prefix_depends_on_prefix(events.take(n), events, n);
    lemma_replay_prefix_depends_on_prefix(events.take(m), events, m);
    if replay_prefix(events, m) is Err {
        lemma_replay_error_persists(events, m, n);
    }
}

/// Returns the length of the longest event prefix of `events` that replays
/// cleanly through [`verify_byte_equivalence`], by binary search.
pub fn longest_byte_equivalent_prefix(events: &[ByteTranscriptEvent]) -> (n: usize)
    ensures
        n <= events@.len(),
        replay_outcome(events@.take(n as int)) is Ok,
        forall|m: int| n < m <= events@.len() ==> replay_outcome(#[trigger] events@.take(m)) is Err,
{
    proof {
        assert(events@.take(0) =~= Seq::<ByteTranscriptEvent>::empty());
        lemma_prefix_outcome(events@, 0);
    }
    let mut lo: usize = 0;
    let mut hi: usize = events.len();
    while lo < hi
        invariant
            0 <= lo <= hi <= events@.len(),
            replay_prefix(events@, lo as int) is Ok,
            forall|m: int| hi < m <= events@.len() ==> #[trigger] replay_prefix(events@, m) is Err,
        decreases hi - lo,
    {
        let mid = lo + (hi - lo) / 2 + (hi - lo) % 2;
        let ok = replay_first(events, mid).is_ok();
        if ok {
            lo = mid;
        } else {
            proof {
                assert forall|m: int| mid - 1 < m <= events@.len() implies #[trigger] replay_prefix(
                    events@,
                    m,
                ) is Err by {
                    if m > hi {
                    } else {
                        lemma_replay_error_persists(events@, mid as int, m);
                    }
                }
            }
            hi = mid - 1;
        }
    }
    proof {
        lemma_prefix_outcome(events@, lo as int);
        assert forall|m: int| lo < m <= events@.len() implies replay_outcome(
            #[trigger] events@.take(m),
        ) is Err by {
            lemma_prefix_outcome(events@, m);
        }
    }
    lo
}

/// The outcome of replaying `events.take(n)` is that of the first `n` events.
proof fn lemma_prefix_outcome(events: Seq<ByteTranscriptEvent>, n: int)
    requires
        0 <= n <= events.len(),
    ensures
        replay_outcome(events.take(n)) is Ok <==> replay_prefix(events, n) is Ok,
{
    lemma_replay_prefix_depends_on_prefix(events.take(n), events, n);
}


/// A byte-level challenger that records every observe/sample call on a
/// [`ByteRecorder`] tape and forwards it to the pinned byte challenger.
///
/// The recording is purely additive: the sampled bytes and the evolution of
/// the challenger's buffers are those of the bare challenger.
pub struct RecordingByteChallenger {
    inner: ByteChallenger,
    recorder: ByteRecorder,
}

impl RecordingByteChallenger {
    /// The wrapped challenger's buffers.
    pub closed spec fn inner_state(&self) -> ChallengerState {
        (challenger_input(self.inner), challenger_output(self.inner))
    }

    /// The recorder's tape.
    pub closed spec fn tape(&self) -> ByteRecorder {
        self.recorder
    }

    /// The recorded event log replays, from fresh buffers, to exactly the
    /// wrapped challenger's current buffers, and the tape is well formed.
    pub open spec fn replays(&self) -> bool {
        &&& self.tape().wf()
        &&& replay_prefix(self.tape().events_view(), self.tape().events_view().len() as int)
            == Ok::<ChallengerState, ReplayMismatch>(self.inner_state())
    }

    /// Creates a recording wrapper around `inner` that records on `recorder`.
    pub fn new(inner: ByteChallenger, recorder: ByteRecorder) -> (r: Self)
        ensures
            r.inner_state() == (challenger_input(inner), challenger_output(inner)),
            r.tape() == recorder,
    {
        RecordingByteChallenger { inner, recorder }
    }

    /// Returns the recorder holding the captured tape.
    pub fn recorder(&self) -> (r: &ByteRecorder)
        ensures
            *r == self.tape(),
    {
        &self.recorder
    }

    /// Observes one byte: records an `Observed` event carrying it and
    /// forwards it to the wrapped challenger.
    pub fn observe(&mut self, value: u8)
        ensures
            final(self).inner_state() == observe_all(old(self).inner_state(), seq![value]),
            final(self).tape().absorbed_view() == old(self).tape().absorbed_view().push(value),
            final(self).tape().sampled_view() == old(self).tape().sampled_view(),
            final(self).tape().events_view().drop_last() == old(self).tape().events_view(),
            final(self).tape().events_view().len() == old(self).tape().events_view().len() + 1,
            final(self).tape().events_view().last() matches ByteTranscriptEvent::Observed(b)
                && b@ == seq![value],
            old(self).replays() ==> final(self).replays(),
    {
        let one: [u8; 1] = [value];
        self.observe_slice(one.as_slice());
        assert(one@ =~= seq![value]);
        assert(old(self).tape().absorbed_view() + seq![value] =~= old(self).tape().absorbed_view().push(value));
    }

    /// Observes a block of bytes as one call: records one `Observed` event
    /// carrying all of them and forwards them to the wrapped challenger.
    pub fn observe_slice(&mut self, values: &[u8])
        ensures
            final(self).inner_state() == observe_all(old(self).inner_state(), values@),
            final(self).tape().absorbed_view() == old(self).tape().absorbed_view() + values@,
            final(self).tape().sampled_view() == old(self).tape().sampled_view(),
            final(self).tape().events_view().drop_last() == old(self).tape().events_view(),
            final(self).tape().events_view().len() == old(self).tape().events_view().len() + 1,
            final(self).tape().events_view().last() matches ByteTranscriptEvent::Observed(b)
                && b@ == values@,
            old(self).replays() ==> final(self).replays(),
    {
        let ghost st0 = self.inner_state();
        let ghost events0 = self.recorder.events_view();
        self.recorder.record_observed(values);
        let ghost recorded = self.recorder;
        let mut i: usize = 0;
        while i < values.len()
            invariant
                0 <= i <= values@.len(),
                self.recorder == recorded,
                (challenger_input(self.inner), challenger_output(self.inner)) == observe_all(
                    st0,
                    values@.take(i as int),
                ),
            decreases values@.len() - i,
        {
            observe_byte(&mut self.inner, values[i]);
            assert(values@.take(i as int + 1) =~= values@.take(i as int).push(values@[i as int]));
            assert(st0.0 + values@.take(i as int + 1) =~= (st0.0 + values@.take(i as int)).push(values@[i as int]));
            i = i + 1;
        }
        assert(values@.take(values@.len() as int) =~= values@);
        proof {
            let ev = self.recorder.events_view();
            let n = ev.len() as int;
            lemma_replay_prefix_depends_on_prefix(ev, events0, n - 1);
        }
    }

    /// Samples one byte from the wrapped challenger, records a `Sampled`
    /// event carrying it, and returns it.
    pub fn sample(&mut self) -> (r: u8)
        ensures
            (r, final(self).inner_state()) == sample_step(old(self).inner_state()),
            final(self).tape().absorbed_view() == old(self).tape().absorbed_view(),
            final(self).tape().sampled_view() == old(self).tape().sampled_view().push(r),
            final(self).tape().events_view().drop_last() == old(self).tape().events_view(),
            final(self).tape().events_view().len() == old(self).tape().events_view().len() + 1,
            final(self).tape().events_view().last() matches ByteTranscriptEvent::Sampled(b)
                && b@ == seq![r],
            old(self).replays() ==> final(self).replays(),
    {
        let ghost st0 = self.inner_state();
        let ghost events0 = self.recorder.events_view();
        let r = sample_byte(&mut self.inner);
        self.recorder.record_sampled(r);
        proof {
            let ev = self.recorder.events_view();
            let n = ev.len() as int;
            lemma_replay_prefix_depends_on_prefix(ev, events0, n - 1);
            let e = ev[n - 1];
            if let ByteTranscriptEvent::Sampled(b) = e {
                assert(b@ == seq![r]);
                assert(sample_prefix(st0, b@, 0, n - 1) == Ok::<ChallengerState, ReplayMismatch>(st0));
            }
        }
        r
    }
}

/// Creates a recording challenger over a fresh pinned byte challenger and a
/// fresh recorder.
pub fn new_pinned_recording_byte_challenger() -> (r: RecordingByteChallenger)
    ensures
        r.inner_state() == (Seq::<u8>::empty(), Seq::<u8>::empty()),
        r.tape().events_view() == Seq::<ByteTranscriptEvent>::empty(),
        r.tape().absorbed_view() == Seq::<u8>::empty(),
        r.tape().sampled_view() == Seq::<u8>::empty(),
        r.replays(),
{
    RecordingByteChallenger::new(new_byte_challenger(), ByteRecorder::new())
}

/// Recording is byte-faithful: whatever sequence of observe and sample
/// calls a recording challenger has served since it was created fresh, its
/// event log replays through a fresh challenger with every sampled byte
/// matching, ending in the same buffers as the recording challenger's own.
pub proof fn law_recorded_log_replays(c: RecordingByteChallenger)
    requires
        c.replays(),
    ensures
        replay_outcome(c.tape().events_view()) is Ok,
        replay_prefix(c.tape().events_view(), c.tape().events_view().len() as int)
            == Ok::<ChallengerState, ReplayMismatch>(c.inner_state()),
{
}

/// Replay detects a changed sampled byte: if a log replays, then replacing
/// its sampled event `i` by one whose first byte differs makes replay fail
/// exactly at event `i`, byte 0, reporting the substituted byte as expected
/// and the byte the challenger produces as actual.
pub proof fn law_replay_detects_changed_sample(
    events: Seq<ByteTranscriptEvent>,
    i: int,
    changed: ByteTranscriptEvent,
)
    requires
        0 <= i < events.len(),
        replay_outcome(events) is Ok,
        events[i] matches ByteTranscriptEvent::Sampled(b) && b@.len() > 0,
        changed matches ByteTranscriptEvent::Sampled(c) && c@.len() > 0,
        events[i]->Sampled_0@[0] != changed->Sampled_0@[0],
    ensures
        replay_outcome(events.update(i, changed)) == Err::<(), ReplayMismatch>(
            ReplayMismatch {
                event_index: i as usize,
                byte_index: 0,
                expected: changed->Sampled_0@[0],
                actual: events[i]->Sampled_0@[0],
            },
        ),
{
    let mutated = events.update(i, changed);
    let b = events[i]->Sampled_0@;
    let c = changed->Sampled_0@;
    lemma_replay_prefix_depends_on_prefix(events, mutated, i);
    if replay_prefix(events, i + 1) is Err {
        lemma_replay_error_persists(events, i + 1, events.len() as int);
    }
    let st = replay_prefix(events, i)->Ok_0;
    assert(replay_prefix(events, i + 1) == sample_prefix(st, b, b.len() as int, i));
    if sample_prefix(st, b, 1, i) is Err {
        lemma_sample_error_persists(st, b, 1, b.len() as int, i);
    }
    assert(sample_prefix(st, b, 0, i) == Ok::<ChallengerState, ReplayMismatch>(st));
    assert(sample_step(st).0 == b[0]);
    let m = ReplayMismatch { event_index: i as usize, byte_index: 0, expected: c[0], actual: b[0] };
    assert(sample_prefix(st, c, 0, i) == Ok::<ChallengerState, ReplayMismatch>(st));
    assert(sample_prefix(st, c, 1, i) == Err::<ChallengerState, ReplayMismatch>(m));
    lemma_sample_error_persists(st, c, 1, c.len() as int, i);
    assert(mutated[i] == changed);
    assert(replay_prefix(mutated, i + 1) == Err::<ChallengerState, ReplayMismatch>(m));
    lemma_replay_error_persists(mutated, i + 1, mutated.len() as int);
}

} // verus!
