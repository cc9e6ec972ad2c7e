//! Frame counting of a sprite animation.

use vstd::prelude::*;

verus! {

/// The frame counter of one sprite sheet: which frame is shown, and how
/// long it has been shown.
#[derive(Clone, Copy, Debug, PartialEq, Eq, Structural)]
pub struct Anmiation {
    /// Number of frames on the sheet.
    pub frames: usize,
    /// Index of the frame that is shown.
    pub current_frame: usize,
    /// Milliseconds gathered toward the next frame.
    pub frame_time_counter: u64,
    /// Milliseconds that one frame is shown.
    pub frame_time: u32,
    /// Whether the first frame follows the last.
    pub looping: bool,
}

impl Anmiation {
    /// The counter is one that [`Anmiation::new`] and the methods produce.
    pub open spec fn wf(&self) -> bool {
        &&& self.frames >= 1
        &&& self.frame_time >= 1
        &&& self.current_frame < self.frames
        &&& self.frame_time_counter < self.frame_time
    }

    /// The frame after the one shown.
    pub open spec fn next_frame(&self) -> int {
        if self.looping {
            (self.current_frame + 1) % (self.frames as int)
        } else if self.current_frame < self.frames - 1 {
            self.current_frame + 1
        } else {
            self.current_frame as int
        }
    }

    /// The counter after `dt` more milliseconds.
    pub open spec fn updated(&self, dt: u32) -> Anmiation {
        let total = self.frame_time_counter + dt;
        Anmiation {
            frames: self.frames,
            current_frame: if total > self.frame_time {
                self.next_frame() as usize
            } else {
                self.current_frame
            },
            frame_time_counter: (total % (self.frame_time as int)) as u64,
            frame_time: self.frame_time,
            looping: self.looping,
        }
    }

    /// The counter set back to the first frame.
    pub open spec fn rewound(&self) -> Anmiation {
        Anmiation {
            frames: self.frames,
            current_frame: 0,
            frame_time_counter: 0,
            frame_time: self.frame_time,
            looping: self.looping,
        }
    }

    /// A sheet that does not loop shows its last frame.
    pub open spec fn done(&self) -> bool {
        !self.looping && self.current_frame == self.frames - 1
    }

    /// A counter at the first of `frames` frames, each shown for
    /// `frame_time` milliseconds.
    pub fn new(frames: usize, frame_time: u32, looping: bool) -> (a: Anmiation)
        requires
            frames >= 1,
            frame_time >= 1,
        ensures
            a.wf(),
            a == (Anmiation { frames, current_frame: 0, frame_time_counter: 0, frame_time, looping }),
    {
        Anmiation { frames, current_frame: 0, frame_time_counter: 0, frame_time, looping }
    }

    /// Lets `dt` milliseconds pass. Once more than one frame time has
    /// gathered the next frame is shown, and only the next one, however long
    /// `dt` is; a sheet that does not loop stays on its last frame.
    pub fn update(&mut self, dt: u32)
        requires
            old(self).wf(),
        ensures
            final(self).wf(),
            *final(self) == old(self).updated(dt),
    {
        let total: u64 = self.frame_time_counter + dt as u64;
        if total > self.frame_time as u64 {
            if self.looping {
                self.current_frame = (self.current_frame + 1) % self.frames;
            } else if self.current_frame < self.frames - 1 {
                self.current_frame += 1;
            }
        }
        self.frame_time_counter = total % (self.frame_time as u64);
    }

    /// Goes back to the first frame.
    pub fn reset(&mut self)
        requires
            old(self).wf(),
        ensures
            final(self).wf(),
            *final(self) == old(self).rewound(),
    {
        self.current_frame = 0;
        self.frame_time_counter = 0;
    }

    /// Whether a sheet that does not loop has reached its last frame.
    pub fn is_done(&self) -> (d: bool)
        requires
            self.wf(),
        ensures
            d == self.done(),
    {
        !self.looping && self.current_frame == self.frames - 1
    }
}

} // verus!
