//! Bidirectional telemetry capture: reassembling the words sampled from the
//! return line, and reporting absence instead of blocking when the ESC
//! stayed silent.
//!
//! After a bidirectional transmission the engine samples twenty 4-bit groups
//! from the line (the first bit of the first group is a known-zero framing
//! bit). The sampler's shift register starts with sixteen zero bits, so the
//! groups pack into three 32-bit words: four groups in the first, eight in
//! each of the other two. The turnaround flushes one leading word first, so
//! a completed capture always hands the receiver exactly four words; fewer
//! means the guard window elapsed empty, a stall.

use vstd::prelude::*;

verus! {

/// Words the receive queue holds after one completed capture.
pub const CAPTURE_WORDS: usize = 4;

/// 4-bit sample groups taken from the line per capture.
pub const CAPTURE_GROUPS: usize = 20;

/// The raw reply to one bidirectional frame: the captured words, passed
/// through unvalidated. Interpreting their payload is the consumer's task.
#[derive(Debug, Clone, PartialEq, Eq)]
pub struct TelemetryFrame {
    /// The four words of one completed capture, in arrival order.
    pub words: Vec<u32>,
}

impl TelemetryFrame {
    /// A telemetry frame always carries one full capture.
    pub open spec fn wf(self) -> bool {
        self.words@.len() == CAPTURE_WORDS
    }
}

/// The value of a run of 4-bit samples packed into one word, the first
/// sample in the highest bits.
pub open spec fn packed_nibbles(s: Seq<u8>) -> int
    decreases s.len(),
{
    if s.len() == 0 {
        0
    } else {
        packed_nibbles(s.drop_last()) * 16 + s.last()
    }
}

/// Powers of sixteen, the radix of a 4-bit sample.
pub open spec fn pow16(n: nat) -> int
    decreases n,
{
    if n == 0 {
        1
    } else {
        16 * pow16((n - 1) as nat)
    }
}

/// Packs `count` samples of `samples` starting at `start` into one word,
/// the first sample in the highest bits, as the sampler's left-shifting
/// register does.
pub fn pack_group(samples: &Vec<u8>, start: usize, count: usize) -> (r: u32)
    requires
        start + count <= samples@.len(),
        count <= 8,
        forall|i: int| 0 <= i < samples@.len() ==> samples@[i] < 16,
    ensures
        r == packed_nibbles(samples@.subrange(start as int, start as int + count as int)),
{
    let ghost whole = samples@.subrange(start as int, start as int + count as int);
    let n = samples.len();
    let mut acc: u32 = 0;
    let mut k: usize = 0;
    while k < count
        invariant
            k <= count,
            count <= 8,
            n == samples@.len(),
            start + count <= samples@.len(),
            forall|i: int| 0 <= i < samples@.len() ==> samples@[i] < 16,
            whole == samples@.subrange(start as int, start as int + count as int),
            acc == packed_nibbles(whole.subrange(0, k as int)),
            acc < pow16(k as nat),
        decreases count - k,
    {
        let ghost prefix = whole.subrange(0, k as int);
        let nibble = samples[start + k];
        proof {
            assert(whole.subrange(0, k as int + 1).drop_last() =~= prefix);
            assert(whole.subrange(0, k as int + 1).last() == samples@[start + k]);
            lemma_pow16_le_max(k as nat);
        }
        acc = acc * 16 + nibble as u32;
        k += 1;
    }
    proof {
        assert(whole.subrange(0, count as int) =~= whole);
    }
    acc
}

/// A power of sixteen is at least one.
proof fn lemma_pow16_pos(n: nat)
    ensures
        pow16(n) >= 1,
    decreases n,
{
    if n > 0 {
        lemma_pow16_pos((n - 1) as nat);
    }
}

/// Powers of sixteen grow with the exponent.
proof fn lemma_pow16_mono(a: nat, b: nat)
    requires
        a <= b,
    ensures
        pow16(a) <= pow16(b),
    decreases b,
{
    if a < b {
        lemma_pow16_mono(a, (b - 1) as nat);
        lemma_pow16_pos((b - 1) as nat);
    }
}

/// Sixteen to at most the seventh stays within a 32-bit accumulator's room.
proof fn lemma_pow16_le_max(n: nat)
    requires
        n <= 7,
    ensures
        pow16(n) <= 0x1000_0000,
{
    lemma_pow16_mono(n, 7);
    assert(pow16(7) == 0x1000_0000) by {
        reveal_with_fuel(pow16, 8);
    }
}

/// Rebuilds the three reply words of one capture from its twenty 4-bit
/// samples: four groups land in the first word (behind the register's
/// sixteen zero seed bits), eight in each of the remaining two.
pub fn assemble_words(samples: &Vec<u8>) -> (r: Vec<u32>)
    requires
        samples@.len() == CAPTURE_GROUPS,
        forall|i: int| 0 <= i < samples@.len() ==> samples@[i] < 16,
    ensures
        r@.len() == 3,
        r@[0] == packed_nibbles(samples@.subrange(0, 4)),
        r@[1] == packed_nibbles(samples@.subrange(4, 12)),
        r@[2] == packed_nibbles(samples@.subrange(12, 20)),
{
    let mut words: Vec<u32> = Vec::new();
    words.push(pack_group(samples, 0, 4));
    words.push(pack_group(samples, 4, 8));
    words.push(pack_group(samples, 12, 8));
    words
}

/// Wraps one capture into a telemetry frame, or reports absence: only a full
/// capture of four words counts, and the frame carries exactly the captured
/// words — nothing is ever synthesized on a stall.
pub fn collect(words: &Vec<u32>) -> (r: Option<TelemetryFrame>)
    ensures
        r is Some <==> words@.len() == CAPTURE_WORDS,
        r matches Some(t) ==> t.wf() && t.words@ == words@,
{
    if words.len() != CAPTURE_WORDS {
        return None;
    }
    let mut taken: Vec<u32> = Vec::new();
    taken.push(words[0]);
    taken.push(words[1]);
    taken.push(words[2]);
    taken.push(words[3]);
    assert(taken@ =~= words@);
    Some(TelemetryFrame { words: taken })
}

} // verus!
