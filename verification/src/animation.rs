//! Animation helpers for the interactive screen: spinners, progress and
//! scroll indicators, and timed transitions. All of them are pure
//! functions of the clock reading they are handed, in milliseconds.

use vstd::prelude::*;
use vstd::arithmetic::div_mod::{lemma_small_mod, lemma_mod_self_0};

verus! {

/// A looping frame animation for waiting states.
pub struct Spinner {
    /// The frames, cycled in order.
    pub frames: Vec<&'static str>,
    /// The frame currently shown; always an index into `frames`.
    pub current_frame: usize,
    /// When the frame last advanced, in milliseconds.
    pub last_update_ms: u64,
    /// How long each frame is held, in milliseconds.
    pub frame_duration_ms: u64,
}

impl Spinner {
    /// A spinner holds at least one frame and points inside them.
    pub open spec fn wf(self) -> bool {
        &&& self.frames@.len() > 0
        &&& self.current_frame < self.frames@.len()
    }

    /// The ten-frame braille spinner.
    pub fn modern() -> (r: Spinner)
        ensures
            r.wf(),
            r.frames@.len() == 10,
            r.current_frame == 0,
            r.last_update_ms == 0,
            r.frame_duration_ms == 80,
    {
        Spinner {
            frames: vec!["⠋", "⠙", "⠹", "⠸", "⠼", "⠴", "⠦", "⠧", "⠇", "⠏"],
            current_frame: 0,
            last_update_ms: 0,
            frame_duration_ms: 80,
        }
    }

    /// The eight-frame dotted spinner.
    pub fn dots() -> (r: Spinner)
        ensures
            r.wf(),
            r.frames@.len() == 8,
            r.current_frame == 0,
            r.last_update_ms == 0,
            r.frame_duration_ms == 100,
    {
        Spinner {
            frames: vec!["⣾", "⣽", "⣻", "⢿", "⡿", "⣟", "⣯", "⣷"],
            current_frame: 0,
            last_update_ms: 0,
            frame_duration_ms: 100,
        }
    }

    /// The four-frame circle spinner.
    pub fn circle() -> (r: Spinner)
        ensures
            r.wf(),
            r.frames@.len() == 4,
            r.current_frame == 0,
            r.last_update_ms == 0,
            r.frame_duration_ms == 120,
    {
        Spinner {
            frames: vec!["◐", "◓", "◑", "◒"],
            current_frame: 0,
            last_update_ms: 0,
            frame_duration_ms: 120,
        }
    }

    /// Returns the frame to show at time `now_ms`, advancing to the next
    /// frame — wrapping at the end — once the hold time has passed.
    pub fn tick(&mut self, now_ms: u64) -> (r: &'static str)
        requires
            old(self).wf(),
        ensures
            final(self).wf(),
            final(self).frames == old(self).frames,
            final(self).frame_duration_ms == old(self).frame_duration_ms,
            if now_ms >= old(self).last_update_ms + old(self).frame_duration_ms {
                &&& final(self).current_frame as int == (old(self).current_frame + 1) as int % (
                old(self).frames@.len() as int)
                &&& final(self).last_update_ms == now_ms
            } else {
                &&& final(self).current_frame == old(self).current_frame
                &&& final(self).last_update_ms == old(self).last_update_ms
            },
            r == final(self).frames@[final(self).current_frame as int],
    {
        let len = self.frames.len();
        if now_ms >= self.last_update_ms && now_ms - self.last_update_ms >= self.frame_duration_ms
        {
            let next: usize = self.current_frame + 1;
            self.current_frame = if next == len {
                0
            } else {
                next
            };
            self.last_update_ms = now_ms;
            proof {
                let len_i = old(self).frames@.len() as int;
                let nxt = old(self).current_frame + 1 as int;
                if nxt == len_i {
                    lemma_mod_self_0(len_i);
                } else {
                    lemma_small_mod(nxt as nat, len_i as nat);
                }
            }
        }
        self.frames[self.current_frame]
    }
}

/// A textual progress bar of full and partial block characters.
pub struct ProgressBar;

impl ProgressBar {
    /// Renders a bar of `width` cells for a progress of `numer` out of
    /// `denom`: full blocks first, at most one partial block, light shade
    /// for the rest.
    pub fn render(numer: u64, denom: u64, width: usize) -> (r: Vec<char>)
        requires
            0 < denom <= 1000000000,
            numer <= denom,
            width <= 1000,
        ensures
            r@.len() == width,
    {
        let wu: u64 = width as u64;
        proof {
            assert(numer * wu <= 1000000000u64 * 1000) by (nonlinear_arith)
                requires
                    numer <= 1000000000u64,
                    wu <= 1000u64,
            ;
        }
        let filled_calc: u64 = numer * wu / denom;
        let filled: usize = if filled_calc > wu {
            width
        } else {
            filled_calc as usize
        };
        let eighths_total: u64 = numer * wu * 8 / denom;
        let partial: u64 = eighths_total % 8;
        let partial_char: char = match partial {
            0 => ' ',
            1 => '▏',
            2 => '▎',
            3 => '▍',
            4 => '▌',
            5 => '▋',
            6 => '▊',
            _ => '▉',
        };
        let mut bar: Vec<char> = Vec::new();
        let mut i: usize = 0;
        while i < width
            invariant
                0 <= i <= width,
                bar@.len() == i,
            decreases width - i,
        {
            if i < filled {
                bar.push('█');
            } else if i == filled && partial > 0 {
                bar.push(partial_char);
            } else {
                bar.push('░');
            }
            i += 1;
        }
        bar
    }
}

/// A vertical scroll position indicator.
pub struct ScrollIndicator;

impl ScrollIndicator {
    /// One marker line per screen row, with a diamond at the row matching
    /// the scroll position; empty when everything fits on screen.
    pub fn render(current: usize, total: usize, height: usize) -> (r: Vec<String>)
        requires
            current < total || total == 0,
            height <= 10000,
            total <= 100000000,
        ensures
            total <= height ==> r@.len() == 0,
            total > height ==> r@.len() == height,
    {
        if total <= height {
            return Vec::new();
        }
        if height == 0 {
            return Vec::new();
        }
        let cu: u64 = current as u64;
        let hu: u64 = (height - 1) as u64;
        proof {
            assert(cu * hu <= 100000000u64 * 10000) by (nonlinear_arith)
                requires
                    cu <= 100000000u64,
                    hu <= 10000u64,
            ;
        }
        let ip64: u64 = (cu * hu) / ((total - 1) as u64);
        let indicator_pos: usize = if ip64 >= height as u64 {
            height - 1
        } else {
            ip64 as usize
        };
        let mut indicators: Vec<String> = Vec::new();
        let mut i: usize = 0;
        while i < height
            invariant
                0 <= i <= height,
                indicators@.len() == i,
            decreases height - i,
        {
            if i == indicator_pos {
                indicators.push(String::from_str("◆"));
            } else {
                indicators.push(String::from_str("│"));
            }
            i += 1;
        }
        indicators
    }

    /// A one-character scroll bar: the block whose height matches the
    /// position within the whole.
    pub fn mini(current: usize, total: usize) -> (r: String)
        requires
            total <= 100000000,
            current <= total,
        ensures
            total == 0 ==> r@.len() == 0,
    {
        if total == 0 {
            return String::new();
        }
        let denom: u64 = if total > 1 {
            (total - 1) as u64
        } else {
            1
        };
        let pos: u64 = if (current as u64) < denom {
            current as u64
        } else {
            denom
        };
        let index: u64 = pos * 7 / denom;
        let s: &str = match index {
            0 => "▁",
            1 => "▂",
            2 => "▃",
            3 => "▄",
            4 => "▅",
            5 => "▆",
            6 => "▇",
            _ => "█",
        };
        String::from_str(s)
    }
}

/// A timed transition between two screen states.
pub struct Transition {
    /// When the transition started, in milliseconds.
    pub start_ms: u64,
    /// How long it runs, in milliseconds.
    pub duration_ms: u64,
}

impl Transition {
    /// Starts a transition of the given length at time zero; the caller
    /// supplies the reference clock on every reading.
    pub fn new(duration_ms: u64) -> (r: Transition)
        ensures
            r.start_ms == 0,
            r.duration_ms == duration_ms,
    {
        Transition { start_ms: 0, duration_ms }
    }

    /// The progress at time `now_ms`, in thousandths, saturating at one
    /// whole.
    pub fn progress_permille(&self, now_ms: u64) -> (r: u64)
        ensures
            r <= 1000,
            self.duration_ms > 0 && now_ms >= self.start_ms + self.duration_ms ==> r == 1000,
            now_ms <= self.start_ms ==> self.duration_ms > 0 ==> r == 0,
    {
        if self.duration_ms == 0 {
            return 1000;
        }
        let elapsed: u64 = if now_ms >= self.start_ms {
            now_ms - self.start_ms
        } else {
            0
        };
        if elapsed >= self.duration_ms {
            1000
        } else {
            let q: u128 = (elapsed as u128) * 1000 / (self.duration_ms as u128);
            if q >= 1000 {
                1000
            } else {
                q as u64
            }
        }
    }

    /// The eased progress at time `now_ms`, in thousandths: quadratic in,
    /// quadratic out, meeting halfway.
    pub fn ease_in_out_permille(&self, now_ms: u64) -> (r: u64)
        ensures
            r <= 1000,
    {
        let t = self.progress_permille(now_ms);
        if t < 500 {
            proof {
                assert(t * t < 500 * 500) by (nonlinear_arith)
                    requires
                        t < 500u64,
                ;
            }
            let sq = t * t;
            2 * sq / 1000
        } else {
            proof {
                assert(1000000 <= (4000 - 2 * t) * t && (4000 - 2 * t) * t <= 2000000)
                    by (nonlinear_arith)
                    requires
                        500u64 <= t <= 1000u64,
                ;
            }
            ((4000 - 2 * t) * t) / 1000 - 1000
        }
    }

    /// Whether the transition has run its course at time `now_ms`.
    pub fn is_complete(&self, now_ms: u64) -> (r: bool)
        ensures
            r == (now_ms >= self.start_ms + self.duration_ms),
    {
        now_ms >= self.start_ms && now_ms - self.start_ms >= self.duration_ms
    }
}

} // verus!
