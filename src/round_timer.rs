use vstd::prelude::*;

verus! {

/// Simulation frames per second of round time.
pub const FRAMES_PER_SECOND: usize = 60;

/// Counts down the frames left in a round.
#[derive(Copy, Clone, Debug, PartialEq, Eq, Structural, Hash)]
pub struct RoundTimer {
    pub total_round_timer: usize,
    pub round_counter: usize,
}

impl RoundTimer {
    pub open spec fn wf(self) -> bool {
        self.round_counter <= self.total_round_timer
    }

    /// The timer after one frame, and whether the round ran out on it.
    pub open spec fn counted_down(self) -> (RoundTimer, bool) {
        if self.round_counter > 0 {
            let next = (self.round_counter - 1) as usize;
            (RoundTimer { round_counter: next, ..self }, next == 0)
        } else {
            (self, false)
        }
    }

    pub fn new(round_time_in_seconds: usize) -> (r: RoundTimer)
        requires
            round_time_in_seconds * FRAMES_PER_SECOND <= usize::MAX,
        ensures
            r.total_round_timer == round_time_in_seconds * FRAMES_PER_SECOND,
            r.round_counter == r.total_round_timer,
            r.wf(),
    {
        let frames = round_time_in_seconds * FRAMES_PER_SECOND;
        RoundTimer { total_round_timer: frames, round_counter: frames }
    }

    pub fn reset(&mut self)
        ensures
            *final(self) == (RoundTimer { round_counter: old(self).total_round_timer, ..*old(self) }),
            final(self).wf(),
    {
        self.round_counter = self.total_round_timer;
    }

    /// Whole seconds left, as shown to the players.
    pub fn seconds_left(&self) -> (r: usize)
        ensures
            r == self.round_counter / FRAMES_PER_SECOND,
    {
        self.round_counter / FRAMES_PER_SECOND
    }
}

/// Counts one frame off the round. Returns true on the frame the round runs
/// out, and only then; a timer already at zero stays there.
pub fn round_timer_system(timer: &mut RoundTimer) -> (round_over: bool)
    ensures
        (*final(timer), round_over) == old(timer).counted_down(),
        old(timer).wf() ==> final(timer).wf(),
{
    if timer.round_counter > 0 {
        timer.round_counter = timer.round_counter - 1;
        timer.round_counter == 0
    } else {
        false
    }
}

/// A round of `n` frames signals its end exactly once: on the `n`-th
/// frame, and on no frame before or after it.
pub proof fn lemma_round_ends_once(t: RoundTimer, k: nat)
    requires
        t.round_counter > 0,
    ensures
        countdown(t, k).1 == (k >= t.round_counter) as nat,
    decreases k,
{
    if k > 0 {
        lemma_round_ends_once(t, (k - 1) as nat);
        lemma_countdown_state(t, (k - 1) as nat);
    }
}

/// The timer after `k` frames, and how many of them signalled the end of
/// the round.
pub open spec fn countdown(t: RoundTimer, k: nat) -> (RoundTimer, nat)
    decreases k,
{
    if k == 0 {
        (t, 0)
    } else {
        let (prev, fired) = countdown(t, (k - 1) as nat);
        let (next, now) = prev.counted_down();
        (next, fired + (if now { 1nat } else { 0nat }))
    }
}

proof fn lemma_countdown_state(t: RoundTimer, k: nat)
    ensures
        countdown(t, k).0.round_counter == (if k >= t.round_counter { 0 } else {
            t.round_counter - k
        }),
    decreases k,
{
    if k > 0 {
        lemma_countdown_state(t, (k - 1) as nat);
    }
}

} // verus!
