//! When the minimap video gets its frames, decided from the replay's packet
//! clocks.
//!
//! A packet clock is an `f32` of seconds. The library holds each clock as its
//! IEEE 754 binary32 bit pattern (`f32::to_bits`): sign bit 31, exponent bits
//! 30..23, mantissa bits 22..0. The predicates below are how `f32` compares,
//! stated on those bits.

use vstd::prelude::*;

verus! {

/// The bit pattern is a NaN: exponent all ones and a non-zero mantissa.
pub open spec fn f32_is_nan(b: u32) -> bool {
    b % 0x8000_0000 > 0x7f80_0000
}

/// The bit pattern is `+0.0` or `-0.0`, so it compares equal to `0.0`.
pub open spec fn f32_is_zero(b: u32) -> bool {
    b % 0x8000_0000 == 0
}

/// The bit pattern compares greater than `0.0`: sign bit clear, not zero,
/// not a NaN (`+inf` included).
pub open spec fn f32_is_positive(b: u32) -> bool {
    0 < b <= 0x7f80_0000
}

/// The two bit patterns compare equal with `==` on `f32`: neither is a NaN,
/// and they are the same pattern or both zeros.
pub open spec fn f32_eq(a: u32, b: u32) -> bool {
    !f32_is_nan(a) && !f32_is_nan(b) && (a == b || (f32_is_zero(a) && f32_is_zero(b)))
}

fn is_nan(b: u32) -> (r: bool)
    ensures
        r == f32_is_nan(b),
{
    b % 0x8000_0000 > 0x7f80_0000
}

fn is_zero(b: u32) -> (r: bool)
    ensures
        r == f32_is_zero(b),
{
    b % 0x8000_0000 == 0
}

/// Whether the clock `b` compares greater than `0.0`.
pub fn is_positive(b: u32) -> (r: bool)
    ensures
        r == f32_is_positive(b),
{
    0 < b && b <= 0x7f80_0000
}

/// Whether the clocks `a` and `b` compare equal.
pub fn clocks_equal(a: u32, b: u32) -> (r: bool)
    ensures
        r == f32_eq(a, b),
{
    !is_nan(a) && !is_nan(b) && (a == b || (is_zero(a) && is_zero(b)))
}

/// One packet's effect on the frame clock: with the clock of the frame in
/// progress `prev` and the packet's clock `clock`, the new frame clock and the
/// frame to draw (at `prev`), if any. A frame is drawn when the clock moves
/// on from a positive clock; a zero frame clock takes the packet's clock.
pub open spec fn tick(prev: u32, clock: u32) -> (u32, Option<u32>) {
    if !f32_eq(clock, prev) && f32_is_positive(prev) {
        (clock, Some(prev))
    } else if f32_is_zero(prev) {
        (clock, None)
    } else {
        (prev, None)
    }
}

/// The frame drawn at the end of the packets: the frame in progress, if its
/// clock is positive.
pub open spec fn last_frame(prev: u32) -> Option<u32> {
    if f32_is_positive(prev) {
        Some(prev)
    } else {
        None
    }
}

/// An optional frame as a sequence of zero or one frames.
pub open spec fn frame_seq(f: Option<u32>) -> Seq<u32> {
    match f {
        Some(x) => seq![x],
        None => Seq::empty(),
    }
}

/// The clocks of all frames drawn, in order, for packets with clocks
/// `clocks` when the frame clock starts at `prev`, the last frame included.
pub open spec fn frames(prev: u32, clocks: Seq<u32>) -> Seq<u32>
    decreases clocks.len(),
{
    if clocks.len() == 0 {
        frame_seq(last_frame(prev))
    } else {
        let (p2, f) = tick(prev, clocks[0]);
        frame_seq(f).add(frames(p2, clocks.drop_first()))
    }
}

/// The frame clock of a render in progress.
pub struct FrameClock {
    prev: u32,
}

impl FrameClock {
    /// A frame clock before any packet: `0.0`.
    pub fn new() -> (c: FrameClock)
        ensures
            c.current() == 0,
    {
        FrameClock { prev: 0 }
    }

    /// The bits of the clock of the frame in progress.
    pub closed spec fn current(&self) -> u32 {
        self.prev
    }

    /// Takes the next packet's clock; gives the clock of the frame to draw
    /// before the packet is processed, if one is due.
    pub fn on_packet(&mut self, clock: u32) -> (frame: Option<u32>)
        ensures
            (final(self).current(), frame) == tick(old(self).current(), clock),
    {
        let prev = self.prev;
        if !clocks_equal(clock, prev) && is_positive(prev) {
            self.prev = clock;
            Some(prev)
        } else if is_zero(prev) {
            self.prev = clock;
            None
        } else {
            None
        }
    }

    /// The clock of the last frame to draw once all packets are processed.
    pub fn finish(&self) -> (frame: Option<u32>)
        ensures
            frame == last_frame(self.current()),
    {
        if is_positive(self.prev) {
            Some(self.prev)
        } else {
            None
        }
    }
}

/// `f` is a subsequence of `s`: its elements occur in `s` in the same order.
pub open spec fn is_subsequence(f: Seq<u32>, s: Seq<u32>) -> bool
    decreases s.len(),
{
    if f.len() == 0 {
        true
    } else if s.len() == 0 {
        false
    } else {
        (f[0] == s[0] && is_subsequence(f.drop_first(), s.drop_first())) || is_subsequence(
            f,
            s.drop_first(),
        )
    }
}

proof fn lemma_subsequence_skip(f: Seq<u32>, x: u32, s: Seq<u32>)
    requires
        is_subsequence(f, s),
    ensures
        is_subsequence(f, seq![x].add(s)),
{
    assert(seq![x].add(s).drop_first() == s);
}

proof fn lemma_subsequence_insert(f: Seq<u32>, p: u32, x: u32, s: Seq<u32>)
    requires
        is_subsequence(f, seq![p].add(s)),
    ensures
        is_subsequence(f, seq![p, x].add(s)),
{
    let ps = seq![p].add(s);
    let pxs = seq![p, x].add(s);
    assert(ps.drop_first() == s);
    assert(pxs.drop_first() == seq![x].add(s));
    if f.len() > 0 {
        if f[0] == p && is_subsequence(f.drop_first(), s) {
            lemma_subsequence_skip(f.drop_first(), x, s);
        } else {
            lemma_subsequence_skip(f, x, s);
            lemma_subsequence_skip(f, p, seq![x].add(s));
            assert(seq![p].add(seq![x].add(s)) == pxs);
        }
    }
}

proof fn lemma_frames(prev: u32, clocks: Seq<u32>)
    ensures
        is_subsequence(frames(prev, clocks), seq![prev].add(clocks)),
        forall|i: int| 0 <= i < frames(prev, clocks).len() ==> f32_is_positive(
            #[trigger] frames(prev, clocks)[i],
        ),
    decreases clocks.len(),
{
    let all = seq![prev].add(clocks);
    assert(all.drop_first() == clocks);
    if clocks.len() == 0 {
        let f = frames(prev, clocks);
        if f.len() > 0 {
            assert(f[0] == prev);
            assert(f.drop_first().len() == 0);
            assert(is_subsequence(f.drop_first(), all.drop_first()));
        }
        assert(is_subsequence(f, all));
    } else {
        let c0 = clocks[0];
        let rest = clocks.drop_first();
        let (p2, fr) = tick(prev, c0);
        lemma_frames(p2, rest);
        let tail = frames(p2, rest);
        let f = frames(prev, clocks);
        assert(f == frame_seq(fr).add(tail));
        assert(clocks == seq![c0].add(rest));
        if fr is Some {
            assert(f[0] == prev);
            assert(f.drop_first() == tail);
            assert(is_subsequence(f.drop_first(), all.drop_first()));
            assert(is_subsequence(f, all));
        } else if f32_is_zero(prev) {
            assert(f == tail);
            lemma_subsequence_skip(tail, prev, clocks);
        } else {
            assert(f == tail);
            lemma_subsequence_insert(tail, prev, c0, rest);
            assert(seq![prev, c0].add(rest) == all);
        }
    }
}

proof fn lemma_subsequence_drop_head(f: Seq<u32>, x: u32, s: Seq<u32>)
    requires
        is_subsequence(f, seq![x].add(s)),
        f.len() == 0 || f[0] != x,
    ensures
        is_subsequence(f, s),
{
    assert(seq![x].add(s).drop_first() == s);
}

/// Law: every frame of a render is drawn at a positive clock, and the frames'
/// clocks are packet clocks taken in packet order: the frame clocks form a
/// subsequence of the packet clocks (so there are never more frames than
/// packets).
pub proof fn law_frames_follow_packets(clocks: Seq<u32>)
    ensures
        is_subsequence(frames(0, clocks), clocks),
        forall|i: int| 0 <= i < frames(0, clocks).len() ==> f32_is_positive(
            #[trigger] frames(0, clocks)[i],
        ),
{
    lemma_frames(0, clocks);
    let f = frames(0, clocks);
    if f.len() > 0 {
        assert(f32_is_positive(f[0]));
    }
    lemma_subsequence_drop_head(f, 0, clocks);
}

/// The clocks, in order, at which a frame clock at `p` moves on to a new
/// positive clock, for packets with clocks `s`: each positive clock greater
/// than the frame clock before it.
spec fn rises(p: u32, s: Seq<u32>) -> Seq<u32>
    decreases s.len(),
{
    if s.len() == 0 {
        Seq::empty()
    } else if s[0] > p && f32_is_positive(s[0]) {
        seq![s[0]].add(rises(s[0], s.drop_first()))
    } else {
        rises(p, s.drop_first())
    }
}

/// The clocks are non-negative, not NaN, and never go back: among such bit
/// patterns `f32` order is the order of the bits.
pub open spec fn steady_clocks(clocks: Seq<u32>) -> bool {
    &&& forall|i: int| 0 <= i < clocks.len() ==> #[trigger] clocks[i] <= 0x7f80_0000
    &&& forall|i: int, j: int| 0 <= i <= j < clocks.len() ==> clocks[i] <= clocks[j]
}

proof fn lemma_rises_shape(p: u32, s: Seq<u32>)
    ensures
        forall|k: int| 0 <= k < rises(p, s).len() ==> p < #[trigger] rises(p, s)[k] && f32_is_positive(
            rises(p, s)[k],
        ) && s.contains(rises(p, s)[k]),
        forall|k: int, l: int| 0 <= k < l < rises(p, s).len() ==> rises(p, s)[k] < rises(p, s)[l],
    decreases s.len(),
{
    if s.len() > 0 {
        let rest = s.drop_first();
        let r = rises(p, s);
        if s[0] > p && f32_is_positive(s[0]) {
            lemma_rises_shape(s[0], rest);
            let t = rises(s[0], rest);
            assert(r == seq![s[0]].add(t));
            assert forall|k: int| 0 <= k < r.len() implies s.contains(#[trigger] r[k]) by {
                if k == 0 {
                    assert(s[0] == r[0]);
                } else {
                    assert(r[k] == t[k - 1]);
                    assert(rest.contains(t[k - 1]));
                    let j = choose|j: int| 0 <= j < rest.len() && rest[j] == t[k - 1];
                    assert(s[j + 1] == rest[j]);
                }
            }
            assert forall|k: int, l: int| 0 <= k < l < r.len() implies r[k] < r[l] by {
                assert(r[l] == t[l - 1]);
                if k > 0 {
                    assert(r[k] == t[k - 1]);
                }
            }
        } else {
            lemma_rises_shape(p, rest);
            assert(r == rises(p, rest));
            assert forall|k: int| 0 <= k < r.len() implies s.contains(#[trigger] r[k]) by {
                assert(rest.contains(r[k]));
                let j = choose|j: int| 0 <= j < rest.len() && rest[j] == r[k];
                assert(s[j + 1] == rest[j]);
            }
        }
    }
}

proof fn lemma_rises_complete(p: u32, s: Seq<u32>)
    requires
        steady_clocks(s),
    ensures
        forall|i: int| 0 <= i < s.len() && p < s[i] && f32_is_positive(#[trigger] s[i]) ==> rises(
            p,
            s,
        ).contains(s[i]),
    decreases s.len(),
{
    if s.len() > 0 {
        let rest = s.drop_first();
        assert forall|i: int| 0 <= i < rest.len() implies #[trigger] rest[i] == s[i + 1] by {}
        assert(steady_clocks(rest)) by {
            assert forall|i: int| 0 <= i < rest.len() implies #[trigger] rest[i] <= 0x7f80_0000 by {
                assert(rest[i] == s[i + 1]);
            }
            assert forall|i: int, j: int| 0 <= i <= j < rest.len() implies rest[i] <= rest[j] by {
                assert(rest[i] == s[i + 1] && rest[j] == s[j + 1]);
            }
        }
        let r = rises(p, s);
        assert forall|i: int| 0 <= i < s.len() && p < s[i] && f32_is_positive(#[trigger] s[i]) implies r.contains(
            s[i],
        ) by {
            if s[0] > p && f32_is_positive(s[0]) {
                lemma_rises_complete(s[0], rest);
                let t = rises(s[0], rest);
                assert(r == seq![s[0]].add(t));
                if i == 0 || s[i] == s[0] {
                    assert(r[0] == s[i]);
                } else {
                    assert(s[0] <= s[i]);
                    assert(rest[i - 1] == s[i]);
                    let k = choose|k: int| 0 <= k < t.len() && t[k] == s[i];
                    assert(r[k + 1] == t[k]);
                }
            } else {
                lemma_rises_complete(p, rest);
                assert(i > 0);
                assert(rest[i - 1] == s[i]);
            }
        }
    }
}

proof fn lemma_frames_rise(prev: u32, clocks: Seq<u32>)
    requires
        prev <= 0x7f80_0000,
        steady_clocks(clocks),
        forall|i: int| 0 <= i < clocks.len() ==> prev <= #[trigger] clocks[i],
    ensures
        frames(prev, clocks) == frame_seq(last_frame(prev)).add(rises(prev, clocks)),
    decreases clocks.len(),
{
    if clocks.len() > 0 {
        let c0 = clocks[0];
        let rest = clocks.drop_first();
        assert forall|i: int| 0 <= i < rest.len() implies #[trigger] rest[i] == clocks[i + 1] by {}
        assert(steady_clocks(rest)) by {
            assert forall|i: int| 0 <= i < rest.len() implies #[trigger] rest[i] <= 0x7f80_0000 by {
                assert(rest[i] == clocks[i + 1]);
            }
            assert forall|i: int, j: int| 0 <= i <= j < rest.len() implies rest[i] <= rest[j] by {
                assert(rest[i] == clocks[i + 1] && rest[j] == clocks[j + 1]);
            }
        }
        assert forall|i: int| 0 <= i < rest.len() implies c0 <= #[trigger] rest[i] by {
            assert(rest[i] == clocks[i + 1]);
        }
        assert(prev % 0x8000_0000 == prev);
        assert(c0 % 0x8000_0000 == c0);
        lemma_frames_rise(c0, rest);
        if prev == c0 {
            if f32_is_positive(prev) {
                assert(tick(prev, c0) == (prev, None::<u32>));
            } else {
                assert(tick(prev, c0) == (c0, None::<u32>));
            }
            lemma_frames_rise(prev, rest);
        } else if f32_is_positive(prev) {
            assert(tick(prev, c0) == (c0, Some(prev)));
            assert(rises(prev, clocks) == seq![c0].add(rises(c0, rest)));
        } else {
            assert(tick(prev, c0) == (c0, None::<u32>));
            assert(rises(prev, clocks) == seq![c0].add(rises(c0, rest)));
        }
    }
}

/// Law: for packet clocks that are non-negative, not NaN and never go back,
/// each distinct positive clock gets exactly one frame: the frames' clocks
/// strictly increase, each is a positive packet clock, and every positive
/// packet clock has a frame.
pub proof fn law_one_frame_per_clock(clocks: Seq<u32>)
    requires
        steady_clocks(clocks),
    ensures
        forall|k: int, l: int| 0 <= k < l < frames(0, clocks).len() ==> frames(0, clocks)[k] < frames(
            0,
            clocks,
        )[l],
        forall|k: int| 0 <= k < frames(0, clocks).len() ==> f32_is_positive(#[trigger] frames(0, clocks)[k])
            && clocks.contains(frames(0, clocks)[k]),
        forall|i: int| 0 <= i < clocks.len() && f32_is_positive(#[trigger] clocks[i]) ==> frames(
            0,
            clocks,
        ).contains(clocks[i]),
{
    lemma_frames_rise(0, clocks);
    assert(frame_seq(last_frame(0)) == Seq::<u32>::empty());
    assert(frames(0, clocks) == rises(0, clocks));
    lemma_rises_shape(0, clocks);
    lemma_rises_complete(0, clocks);
}

/// The longest battle clock after one more packet: among positive clocks,
/// `f32` order is the order of the bit patterns.
pub open spec fn longer(longest: Option<u32>, clock: u32) -> Option<u32> {
    if f32_is_positive(clock) && (longest is None || clock > longest->0) {
        Some(clock)
    } else {
        longest
    }
}

/// The battle's length as the packet clocks `clocks` give it: the greatest
/// positive clock, `None` where no clock is positive.
pub open spec fn battle_duration_of(clocks: Seq<u32>) -> Option<u32>
    decreases clocks.len(),
{
    if clocks.len() == 0 {
        None
    } else {
        longer(battle_duration_of(clocks.drop_last()), clocks.last())
    }
}

/// A scan of a replay's packet clocks for the battle's length.
pub struct DurationScan {
    longest: Option<u32>,
}

impl DurationScan {
    /// A scan that has seen no packet.
    pub fn new() -> (s: DurationScan)
        ensures
            s.longest() is None,
    {
        DurationScan { longest: None }
    }

    /// The greatest positive clock seen so far.
    pub closed spec fn longest(&self) -> Option<u32> {
        self.longest
    }

    /// Takes the next packet's clock.
    pub fn observe(&mut self, clock: u32)
        ensures
            final(self).longest() == longer(old(self).longest(), clock),
    {
        if is_positive(clock) {
            match self.longest {
                None => {
                    self.longest = Some(clock);
                },
                Some(l) => {
                    if clock > l {
                        self.longest = Some(clock);
                    }
                },
            }
        }
    }

    /// The battle's length: the greatest positive clock seen, if any.
    pub fn battle_duration(&self) -> (d: Option<u32>)
        ensures
            d == self.longest(),
    {
        self.longest
    }
}

/// Law: the battle's length is the greatest positive packet clock. It is
/// `None` exactly when no clock is positive; otherwise it is a positive clock
/// of some packet, and no positive clock exceeds it.
pub proof fn law_battle_duration_is_greatest_clock(clocks: Seq<u32>)
    ensures
        battle_duration_of(clocks) is None <==> forall|i: int|
            0 <= i < clocks.len() ==> !f32_is_positive(#[trigger] clocks[i]),
        battle_duration_of(clocks) matches Some(d) ==> {
            &&& f32_is_positive(d)
            &&& exists|i: int| 0 <= i < clocks.len() && clocks[i] == d
            &&& forall|i: int|
                0 <= i < clocks.len() && f32_is_positive(#[trigger] clocks[i]) ==> clocks[i] <= d
        },
    decreases clocks.len(),
{
    if clocks.len() > 0 {
        let init = clocks.drop_last();
        law_battle_duration_is_greatest_clock(init);
        let n = clocks.len() - 1;
        assert forall|i: int| 0 <= i < n implies clocks[i] == #[trigger] init[i] by {}
        let d = battle_duration_of(clocks);
        if d is None {
            assert forall|i: int| 0 <= i < clocks.len() implies !f32_is_positive(
                #[trigger] clocks[i],
            ) by {
                if i < n {
                    assert(clocks[i] == init[i]);
                }
            }
        } else {
            if battle_duration_of(init) is Some && d == battle_duration_of(init) {
                let j = choose|j: int| 0 <= j < init.len() && init[j] == d->0;
                assert(clocks[j] == d->0);
            } else {
                assert(clocks[n] == d->0);
            }
            assert forall|i: int| 0 <= i < clocks.len() && f32_is_positive(
                #[trigger] clocks[i],
            ) implies clocks[i] <= d->0 by {
                if i < n {
                    assert(clocks[i] == init[i]);
                }
            }
        }
    }
}

} // verus!
