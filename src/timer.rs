use vstd::prelude::*;

verus! {

/// A frame-counting cooldown. While `running` is true the ability it guards
/// is unavailable.
#[derive(Copy, Clone, Debug, Default, PartialEq, Eq, Hash)]
pub struct AbilityTimer {
    pub total_frames: usize,
    pub current_frame: usize,
    pub running: bool,
}

impl AbilityTimer {
    /// The timer never counts past its length.
    pub open spec fn wf(self) -> bool {
        self.current_frame <= self.total_frames
    }

    /// The timer after one frame has been counted.
    pub open spec fn ticked(self) -> AbilityTimer {
        if !self.running {
            self
        } else {
            let next = if self.current_frame < self.total_frames {
                (self.current_frame + 1) as usize
            } else {
                self.current_frame
            };
            AbilityTimer { total_frames: self.total_frames, current_frame: next, running: next < self.total_frames }
        }
    }

    /// The timer armed from its first frame.
    pub open spec fn started(self) -> AbilityTimer {
        AbilityTimer { total_frames: self.total_frames, current_frame: 0, running: true }
    }

    /// The timer back at its first frame and disarmed.
    pub open spec fn cleared(self) -> AbilityTimer {
        AbilityTimer { total_frames: self.total_frames, current_frame: 0, running: false }
    }

    pub fn new(total_frames: usize) -> (r: AbilityTimer)
        ensures
            r.total_frames == total_frames,
            r.current_frame == 0,
            !r.running,
            r.wf(),
    {
        AbilityTimer { total_frames, current_frame: 0, running: false }
    }

    /// Counts one frame while armed; disarms on reaching `total_frames`.
    /// Does nothing while disarmed.
    pub fn tick(&mut self)
        ensures
            *final(self) == old(self).ticked(),
            old(self).wf() ==> final(self).wf(),
    {
        if self.running {
            if self.current_frame < self.total_frames {
                self.current_frame = self.current_frame + 1;
            }
            if self.current_frame >= self.total_frames {
                self.running = false;
            }
        }
    }

    pub fn running(&mut self) -> (r: bool)
        ensures
            r == old(self).running,
            *final(self) == *old(self),
    {
        self.running
    }

    /// Arms the timer from its first frame; arming an armed timer restarts it.
    pub fn start(&mut self)
        ensures
            *final(self) == old(self).started(),
            final(self).wf(),
    {
        self.current_frame = 0;
        self.running = true;
    }

    pub fn reset(&mut self)
        ensures
            *final(self) == old(self).cleared(),
            final(self).wf(),
    {
        self.current_frame = 0;
        self.running = false;
    }
}

} // verus!
