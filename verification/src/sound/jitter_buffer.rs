//! adaptive buffer used to smooth incoming network audio data
//!
//! Allow for gap free playback with the minimum amount of delay.
//!
//! Writes to the buffer come with network jitter; reads are clocked by the
//! audio engine.  The buffer first fills to a target depth, then hands out
//! samples in arrival order.  When it runs dry it counts an underrun, hands out
//! what it has padded with silence, and fills again.  When it overflows (a
//! long write delay followed by a burst of writes), the next read throws the
//! oldest excess out, down to the target depth, and counts an overrun: some
//! gaps in playback, to keep the latency down.
//!
//! The target depth is `MIN_DEPTH` plus an adaptive amount that the caller
//! computes from the buffer's recent history; the buffer reports its depth at
//! each read so that the caller can keep depth statistics.
use vstd::prelude::*;

verus! {

/// Smallest target depth, in samples.
pub const MIN_DEPTH: usize = 512;

/// How far below the target depth a filling buffer may start playing.
pub const FILL_MARGIN: usize = 128;

/// How far over the target depth a playing buffer may run before a read
/// throws out the excess.
pub const OVERRUN_MARGIN: usize = 128;

/// The state of a jitter buffer.
pub struct JitterState<T> {
    /// the samples waiting, oldest first
    pub samples: Seq<T>,
    pub target_depth: usize,
    pub filling: bool,
    pub underruns: usize,
    pub overruns: usize,
}

/// What one read gives: the samples, and the depth of the buffer when it was
/// read (none while it is filling).
pub struct Draw<T> {
    pub samples: Vec<T>,
    pub depth: Option<usize>,
}

/// `n` samples of silence.
pub open spec fn silence_of<T>(n: nat, silence: T) -> Seq<T> {
    Seq::new(n, |i: int| silence)
}

/// Whether a read with adaptive depth `boost` finds the buffer still filling.
pub open spec fn still_filling<T>(s: JitterState<T>, boost: nat) -> bool {
    s.filling && s.samples.len() < MIN_DEPTH + boost - FILL_MARGIN
}

/// How many of the oldest samples a read throws out: when a playing buffer
/// holds more than `OVERRUN_MARGIN` samples over its target depth, all but
/// the target depth of them.
pub open spec fn excess<T>(s: JitterState<T>, boost: nat) -> nat {
    let target = MIN_DEPTH + boost;
    if !still_filling(s, boost) && s.samples.len() > target + OVERRUN_MARGIN {
        (s.samples.len() - target) as nat
    } else {
        0
    }
}

/// A counter moved on by one, wrapping after `usize::MAX`.
pub open spec fn bump(n: usize) -> usize {
    if n == usize::MAX { 0 } else { (n + 1) as usize }
}

/// The result of reading `count` samples with adaptive depth `boost`: the
/// new state, the samples handed out, and the depth reported.
pub open spec fn draw<T>(s: JitterState<T>, count: nat, boost: nat, silence: T) -> (JitterState<T>, Seq<T>, Option<nat>) {
    let target = MIN_DEPTH + boost;
    if still_filling(s, boost) {
        (
            JitterState { samples: s.samples, target_depth: target as usize, filling: true, underruns: s.underruns, overruns: s.overruns },
            silence_of(count, silence),
            None,
        )
    } else {
        let x = excess(s, boost);
        let samples = s.samples.skip(x as int);
        let overruns = if x > 0 { bump(s.overruns) } else { s.overruns };
        let len = samples.len();
        if len >= count {
            (
                JitterState { samples: samples.skip(count as int), target_depth: target as usize, filling: false, underruns: s.underruns, overruns },
                samples.take(count as int),
                Some(len),
            )
        } else {
            (
                JitterState { samples: Seq::empty(), target_depth: target as usize, filling: true, underruns: bump(s.underruns), overruns },
                samples + silence_of((count - len) as nat, silence),
                Some(len),
            )
        }
    }
}

/// Adaptive buffer for smoothing network audio data
///
/// Note that all adaptation functions are performed on buffer read.
pub struct JitterBuffer<T> {
    buffer: Vec<T>,
    target_depth: usize,
    filling: bool,
    underruns: usize,
    overruns: usize,
}

impl<T> View for JitterBuffer<T> {
    type V = JitterState<T>;

    closed spec fn view(&self) -> JitterState<T> {
        JitterState {
            samples: self.buffer@,
            target_depth: self.target_depth,
            filling: self.filling,
            underruns: self.underruns,
            overruns: self.overruns,
        }
    }
}

impl<T: Copy> JitterBuffer<T> {
    /// Build a new empty buffer, filling to the smallest target depth.
    pub fn new() -> (b: JitterBuffer<T>)
        ensures
            b@ == (JitterState::<T> { samples: Seq::empty(), target_depth: MIN_DEPTH, filling: true, underruns: 0, overruns: 0 }),
    {
        JitterBuffer { buffer: Vec::new(), target_depth: MIN_DEPTH, filling: true, underruns: 0, overruns: 0 }
    }

    /// retrieves the current number of samples in the buffer
    pub fn length(&self) -> (n: usize)
        ensures
            n == self@.samples.len(),
    {
        self.buffer.len()
    }

    /// How many times has the buffer overflowed (no room at the inn)
    pub fn get_overruns(&self) -> (n: usize)
        ensures
            n == self@.overruns,
    {
        self.overruns
    }

    /// How many times has the buffer starved (no water in the bottle)
    pub fn get_underruns(&self) -> (n: usize)
        ensures
            n == self@.underruns,
    {
        self.underruns
    }

    /// is the buffer filling to it's target depth
    pub fn is_filling(&self) -> (r: bool)
        ensures
            r == self@.filling,
    {
        self.filling
    }

    /// The depth the buffer fills to before it plays.
    pub fn get_target_depth(&self) -> (n: usize)
        ensures
            n == self@.target_depth,
    {
        self.target_depth
    }

    /// append data to the buffer
    pub fn append(&mut self, audio: &[T])
        requires
            old(self)@.samples.len() + audio@.len() <= usize::MAX,
        ensures
            final(self)@ == (JitterState { samples: old(self)@.samples + audio@, ..old(self)@ }),
    {
        let ghost s = self.buffer@;
        let n = audio.len();
        let mut i: usize = 0;
        while i < n
            invariant
                n == audio@.len(),
                i <= n,
                self.buffer@ == s + audio@.subrange(0, i as int),
                s == old(self)@.samples,
                self.target_depth == old(self)@.target_depth,
                self.filling == old(self)@.filling,
                self.underruns == old(self)@.underruns,
                self.overruns == old(self)@.overruns,
            decreases n - i,
        {
            self.buffer.push(audio[i]);
            i = i + 1;
            proof {
                assert(s + audio@.subrange(0, i as int) =~= s + audio@.subrange(0, i - 1) + seq![audio@[i - 1]]);
            }
        }
        proof {
            assert(audio@.subrange(0, n as int) =~= audio@);
        }
    }

    /// Read `count` samples.  The target depth becomes `MIN_DEPTH` plus
    /// `depth_boost`.  A buffer that is filling hands out silence.  A playing
    /// buffer that holds more than `OVERRUN_MARGIN` samples over the target
    /// first throws out its oldest samples down to the target depth (an
    /// overrun); then it hands out its oldest samples, padded with `silence`
    /// when it has fewer than `count` (an underrun, after which it fills
    /// again).  The result always holds exactly `count` samples.
    pub fn get(&mut self, count: usize, depth_boost: usize, silence: T) -> (r: Draw<T>)
        requires
            depth_boost <= usize::MAX - MIN_DEPTH,
        ensures
            ({
                let (s, out, depth) = draw(old(self)@, count as nat, depth_boost as nat, silence);
                &&& final(self)@ == s
                &&& r.samples@ == out
                &&& match r.depth {
                    Some(d) => depth == Some(d as nat),
                    None => depth is None,
                }
            }),
    {
        // Adjust target depth
        self.target_depth = MIN_DEPTH + depth_boost;
        // check if we are filling
        if self.filling {
            if self.buffer.len() >= self.target_depth - FILL_MARGIN {
                self.filling = false;
            }
        }
        // First case, we are filling so don't give them anything
        if self.filling {
            return Draw { samples: silence_vec(count, silence), depth: None };
        }
        // Too much data (a long gap, then a burst): throw out the oldest
        // samples down to the target depth
        let full = self.buffer.len();
        let ghost s0 = self.buffer@;
        if full > OVERRUN_MARGIN && full - OVERRUN_MARGIN > self.target_depth {
            self.overruns = self.overruns.wrapping_add(1);
            let (_dropped, kept) = split_vec(&self.buffer, full - self.target_depth);
            self.buffer = kept;
        } else {
            proof {
                assert(s0.skip(0) =~= s0);
            }
        }
        proof {
            assert(excess(old(self)@, depth_boost as nat) == (if full > OVERRUN_MARGIN && full - OVERRUN_MARGIN > self.target_depth { (full - self.target_depth) as nat } else { 0 }));
            assert(self.buffer@ == old(self)@.samples.skip(excess(old(self)@, depth_boost as nat) as int));
        }
        let len = self.buffer.len();
        // we have enough data to satisfy
        if len >= count {
            let (front, back) = split_vec(&self.buffer, count);
            self.buffer = back;
            return Draw { samples: front, depth: Some(len) };
        }
        // This is the onset of an underrun: hand out what is there, then silence
        self.underruns = self.underruns.wrapping_add(1);
        self.filling = true;
        let mut out: Vec<T> = Vec::new();
        std::mem::swap(&mut out, &mut self.buffer);
        let ghost before = out@;
        let pad = count - len;
        let mut i: usize = 0;
        while i < pad
            invariant
                i <= pad,
                out@ == before + silence_of(i as nat, silence),
            decreases pad - i,
        {
            out.push(silence);
            i = i + 1;
            proof {
                assert(before + silence_of(i as nat, silence) =~= before + silence_of((i - 1) as nat, silence) + seq![silence]);
            }
        }
        Draw { samples: out, depth: Some(len) }
    }
}

/// `count` copies of `silence`.
fn silence_vec<T: Copy>(count: usize, silence: T) -> (v: Vec<T>)
    ensures
        v@ == silence_of(count as nat, silence),
{
    let mut v: Vec<T> = Vec::new();
    let mut i: usize = 0;
    while i < count
        invariant
            i <= count,
            v@ == silence_of(i as nat, silence),
        decreases count - i,
    {
        v.push(silence);
        i = i + 1;
        proof {
            assert(silence_of(i as nat, silence) =~= silence_of((i - 1) as nat, silence).push(silence));
        }
    }
    v
}

/// The first `k` elements of `v`, and the rest.
fn split_vec<T: Copy>(v: &Vec<T>, k: usize) -> (r: (Vec<T>, Vec<T>))
    requires
        k <= v@.len(),
    ensures
        r.0@ == v@.take(k as int),
        r.1@ == v@.skip(k as int),
{
    let mut front: Vec<T> = Vec::new();
    let mut back: Vec<T> = Vec::new();
    let n = v.len();
    let mut i: usize = 0;
    while i < n
        invariant
            n == v@.len(),
            k <= n,
            i <= n,
            front@ == v@.subrange(0, if i < k { i as int } else { k as int }),
            back@ == if i <= k { Seq::<T>::empty() } else { v@.subrange(k as int, i as int) },
        decreases n - i,
    {
        if i < k {
            front.push(v[i]);
        } else {
            back.push(v[i]);
        }
        i = i + 1;
        proof {
            if i <= k {
                assert(v@.subrange(0, i as int) =~= v@.subrange(0, i - 1).push(v@[i - 1]));
            } else {
                assert(v@.subrange(k as int, i as int) =~= (if i - 1 <= k { Seq::<T>::empty() } else { v@.subrange(k as int, i - 1) }).push(v@[i - 1]));
            }
        }
    }
    proof {
        assert(v@.take(k as int) =~= v@.subrange(0, k as int));
        if n > k {
            assert(v@.skip(k as int) =~= v@.subrange(k as int, n as int));
        } else {
            assert(v@.skip(k as int) =~= Seq::<T>::empty());
        }
    }
    (front, back)
}

/// How many buffered samples a read hands out: none while filling, otherwise
/// as many as asked for, or all there are once the excess is thrown out.
pub open spec fn delivered<T>(s: JitterState<T>, count: nat, boost: nat) -> nat {
    let left = (s.samples.len() - excess(s, boost)) as nat;
    if still_filling(s, boost) {
        0
    } else if left >= count {
        count
    } else {
        left
    }
}

/// A read always hands out exactly the number of samples asked for.
pub proof fn lemma_draw_length<T>(s: JitterState<T>, count: nat, boost: nat, silence: T)
    ensures
        draw(s, count, boost, silence).1.len() == count,
{
}

/// No sample is duplicated or reordered, and only an overrun loses any: a read
/// throws out the `excess` oldest samples, hands out the next ones in arrival
/// order followed only by silence, and what it does not hand out stays
/// buffered in order.
pub proof fn lemma_draw_conserves<T>(s: JitterState<T>, count: nat, boost: nat, silence: T)
    ensures
        ({
            let (t, out, _) = draw(s, count, boost, silence);
            let k = delivered(s, count, boost);
            let x = excess(s, boost);
            &&& s.samples.skip(x as int) =~= out.take(k as int) + t.samples
            &&& out.skip(k as int) =~= silence_of((count - k) as nat, silence)
        }),
{
    let (t, out, _) = draw(s, count, boost, silence);
    let k = delivered(s, count, boost);
    let x = excess(s, boost);
    if !still_filling(s, boost) && s.samples.skip(x as int).len() < count {
        assert(out.take(k as int) =~= s.samples.skip(x as int));
    }
}

/// An overrun is counted exactly when samples are thrown out, and a read that
/// throws samples out leaves the buffer at its target depth before it hands
/// any out.
pub proof fn lemma_overrun_counted<T>(s: JitterState<T>, count: nat, boost: nat, silence: T)
    ensures
        ({
            let (t, _, depth) = draw(s, count, boost, silence);
            &&& (excess(s, boost) > 0 ==> t.overruns == bump(s.overruns) && depth == Some((MIN_DEPTH + boost) as nat))
            &&& (excess(s, boost) == 0 ==> t.overruns == s.overruns)
        }),
{
}

/// A buffer that is playing hands out, in order, the samples appended to it:
/// after appending `audio` to a buffer holding `s`, a read of `count` samples
/// (no more than are there, and with no overrun) gives the first `count` of
/// `s` followed by `audio`.
pub proof fn lemma_append_then_draw<T>(s: JitterState<T>, audio: Seq<T>, count: nat, boost: nat, silence: T)
    requires
        !s.filling || s.samples.len() + audio.len() >= MIN_DEPTH + boost - FILL_MARGIN,
        s.samples.len() + audio.len() <= MIN_DEPTH + boost + OVERRUN_MARGIN,
        count <= s.samples.len() + audio.len(),
    ensures
        draw(JitterState { samples: s.samples + audio, ..s }, count, boost, silence).1 == (s.samples + audio).take(count as int),
{
    assert((s.samples + audio).skip(0) =~= s.samples + audio);
}

} // verus!
