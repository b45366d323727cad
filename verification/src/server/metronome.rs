//! beat clock used by the room mixer to put a metronome beat on packets
use vstd::prelude::*;

verus! {

/// Microseconds in one minute.
pub const MICROS_PER_MINUTE: u128 = 60_000_000;

/// Counts beats (0..3) of a 4/4 bar from a microsecond clock at a given tempo.
pub struct Metronome {
    beat: u8,
    duration: u128,
    tempo: u128,
}

impl Metronome {
    /// tempo in beats per minute
    pub closed spec fn tempo(&self) -> u128 {
        self.tempo
    }

    /// length of one beat in microseconds
    pub closed spec fn interval(&self) -> u128 {
        self.duration
    }

    /// the beat most recently computed by `get_beat`
    pub closed spec fn beat(&self) -> u8 {
        self.beat
    }

    /// The beat length always follows from the tempo, which is never zero.
    pub closed spec fn wf(&self) -> bool {
        &&& self.tempo > 0
        &&& self.duration == MICROS_PER_MINUTE / self.tempo
        &&& self.beat < 4
    }

    /// A metronome at 120 beats per minute, on beat 0.
    pub fn new() -> (m: Metronome)
        ensures
            m.wf(),
            m.tempo() == 120,
            m.interval() == 500_000,
            m.beat() == 0,
    {
        Metronome { beat: 0, tempo: 120, duration: MICROS_PER_MINUTE / 120 }
    }

    /// Change the tempo; a tempo of zero is ignored.
    pub fn set_tempo(&mut self, tempo: u128)
        requires
            old(self).wf(),
        ensures
            final(self).wf(),
            final(self).beat() == old(self).beat(),
            tempo > 0 ==> final(self).tempo() == tempo && final(self).interval() == MICROS_PER_MINUTE / tempo,
            tempo == 0 ==> final(self).tempo() == old(self).tempo() && final(self).interval() == old(self).interval(),
    {
        if tempo > 0 {
            self.tempo = tempo;
            self.duration = MICROS_PER_MINUTE / tempo;
        }
    }

    pub fn get_tempo(&self) -> (t: u128)
        ensures
            t == self.tempo(),
    {
        self.tempo
    }

    pub fn get_beat_interval(&self) -> (d: u128)
        ensures
            d == self.interval(),
    {
        self.duration
    }

    /// The beat of the bar (0..3) that `now_time` falls in.
    pub fn get_beat(&mut self, now_time: u128) -> (b: u8)
        requires
            old(self).wf(),
            old(self).interval() > 0,
        ensures
            final(self).wf(),
            b == (now_time / old(self).interval()) % 4,
            b < 4,
            final(self).beat() == b,
            final(self).tempo() == old(self).tempo(),
            final(self).interval() == old(self).interval(),
    {
        let b = ((now_time / self.duration) % 4) as u8;
        self.beat = b;
        b
    }
}

/// The beat of a time (`get_beat` gives it) comes round again every bar: a time
/// one beat later is on the next beat, and a time four beats later is on the
/// same beat.
pub proof fn lemma_beat_cycle(now_time: int, interval: int)
    requires
        interval > 0,
        now_time >= 0,
    ensures
        ((now_time + interval) / interval) % 4 == ((now_time / interval) + 1) % 4,
        ((now_time + 4 * interval) / interval) % 4 == (now_time / interval) % 4,
{
    vstd::arithmetic::div_mod::lemma_hoist_over_denominator(now_time, 1, interval as nat);
    vstd::arithmetic::div_mod::lemma_hoist_over_denominator(now_time, 4, interval as nat);
    assert(now_time + 1 * interval == now_time + interval);
}

/// A tempo change takes effect on the beat length at once: `t` beats per
/// minute give beats of `60_000_000 / t` microseconds, shorter for a faster
/// tempo.
pub proof fn lemma_faster_tempo_shorter_beat(t1: u128, t2: u128)
    requires
        0 < t1 <= t2,
    ensures
        MICROS_PER_MINUTE / t2 <= MICROS_PER_MINUTE / t1,
{
    vstd::arithmetic::div_mod::lemma_div_is_ordered_by_denominator(MICROS_PER_MINUTE as int, t1 as int, t2 as int);
}

/// The tempo of a new metronome after the tempos `ts` were set on it in turn:
/// the last positive one, or 120 when there is none.
pub open spec fn last_tempo(ts: Seq<u128>) -> u128
    decreases ts.len(),
{
    if ts.len() == 0 {
        120
    } else if ts.last() > 0 {
        ts.last()
    } else {
        last_tempo(ts.drop_last())
    }
}

/// The tempo is the last positive one set.  A new metronome has the tempo of
/// no settings (`new` gives 120); and when a metronome whose tempo is that of
/// the settings `ts` is set to `t` (as `set_tempo` does: a positive tempo is
/// taken, zero is ignored), its tempo becomes that of `ts` followed by `t`.
/// `get_beat` leaves the tempo as it is.
pub proof fn lemma_tempo_is_last_set(ts: Seq<u128>, t: u128, before: Metronome, after: Metronome)
    requires
        before.tempo() == last_tempo(ts),
        t > 0 ==> after.tempo() == t,
        t == 0 ==> after.tempo() == before.tempo(),
    ensures
        last_tempo(Seq::empty()) == 120,
        after.tempo() == last_tempo(ts.push(t)),
{
    assert(ts.push(t).drop_last() =~= ts);
}

} // verus!
