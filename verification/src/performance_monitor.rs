//! Frame-performance monitoring.
//!
//! Tracks render times to detect when the system cannot hold 60 frames per
//! second and automatically disables blur effects after a run of
//! consecutive slow frames. Render times are carried as whole microseconds.

use vstd::prelude::*;
use crate::text::{matches_lower, spec_lower_str};

verus! {

/// The shortest render time slower than the 60fps target, in microseconds:
/// a frame is slow exactly when it takes longer than 1/60 s.
pub const TARGET_FRAME_TIME_MICROS: u64 = 16_667;

/// Number of consecutive slow frames before disabling blur
pub const SLOW_FRAME_THRESHOLD: usize = 3;

/// Size of the frame time buffer for the rolling window
pub const FRAME_BUFFER_SIZE: usize = 10;

/// A frame is slow when its render time exceeds the 60fps frame budget.
pub open spec fn spec_is_slow(render_micros: u64) -> bool {
    render_micros * 60 > 1_000_000
}

/// Blur mode setting
#[derive(Debug, Clone, Copy, PartialEq, Eq, Structural)]
pub enum BlurMode {
    /// Automatically detect based on performance
    Auto,
    /// Always enable blur (ignore performance issues)
    ForceOn,
    /// Always disable blur (for performance or preference)
    ForceOff,
}

impl Default for BlurMode {
    fn default() -> (r: Self)
        ensures
            r == BlurMode::Auto,
    {
        BlurMode::Auto
    }
}

/// The blur mode a configuration string names, matched case-insensitively;
/// anything unrecognized means automatic detection.
pub open spec fn spec_blur_mode_from(s: Seq<char>) -> BlurMode {
    let l = spec_lower_str(s);
    if l == "on"@ || l == "forceon"@ || l == "force_on"@ || l == "enabled"@ {
        BlurMode::ForceOn
    } else if l == "off"@ || l == "forceoff"@ || l == "force_off"@ || l == "disabled"@ {
        BlurMode::ForceOff
    } else {
        BlurMode::Auto
    }
}

impl BlurMode {
    /// Parse from a configuration string.
    pub fn from_str(s: &str) -> (r: Self)
        ensures
            r == spec_blur_mode_from(s@),
    {
        if matches_lower(s, "on") || matches_lower(s, "forceon") || matches_lower(s, "force_on")
            || matches_lower(s, "enabled") {
            BlurMode::ForceOn
        } else if matches_lower(s, "off") || matches_lower(s, "forceoff") || matches_lower(
            s,
            "force_off",
        ) || matches_lower(s, "disabled") {
            BlurMode::ForceOff
        } else {
            BlurMode::Auto
        }
    }
}

/// Performance metrics for a single frame
#[derive(Debug, Clone, Copy)]
pub struct FrameMetrics {
    /// Time taken to render the frame, in microseconds
    pub render_micros: u64,
}

/// Performance monitor for tracking frame times and blur decisions
#[derive(Debug)]
pub struct PerformanceMonitor {
    /// Rolling window of recent frame times, oldest first
    pub frame_times: Vec<FrameMetrics>,
    /// Count of consecutive slow frames
    pub consecutive_slow_frames: usize,
    /// Whether blur has been auto-disabled
    pub blur_disabled: bool,
    /// Manual blur mode override
    pub blur_mode: BlurMode,
}

impl PerformanceMonitor {
    /// The recorded frame metrics, oldest first.
    pub open spec fn frames(self) -> Seq<FrameMetrics> {
        self.frame_times@
    }

    /// The count of consecutive slow frames.
    pub open spec fn slow_run(self) -> usize {
        self.consecutive_slow_frames
    }

    /// Whether blur has been auto-disabled.
    pub open spec fn auto_disabled(self) -> bool {
        self.blur_disabled
    }

    /// The manual blur mode.
    pub open spec fn mode(self) -> BlurMode {
        self.blur_mode
    }

    /// The rolling window never exceeds its size.
    pub open spec fn wf(self) -> bool {
        self.frames().len() <= FRAME_BUFFER_SIZE
    }

    /// Whether blur should currently be off: a manual override decides
    /// outright, and automatic mode follows the performance detector.
    pub open spec fn spec_should_disable_blur(self) -> bool {
        match self.mode() {
            BlurMode::ForceOn => false,
            BlurMode::ForceOff => true,
            BlurMode::Auto => self.auto_disabled(),
        }
    }

    /// Create a new performance monitor.
    pub fn new() -> (r: Self)
        ensures
            r.wf(),
            r.frames() =~= Seq::<FrameMetrics>::empty(),
            r.slow_run() == 0,
            !r.auto_disabled(),
            r.mode() == BlurMode::Auto,
    {
        PerformanceMonitor {
            frame_times: Vec::new(),
            consecutive_slow_frames: 0,
            blur_disabled: false,
            blur_mode: BlurMode::Auto,
        }
    }

    /// Set the blur mode (manual override).
    pub fn set_blur_mode(&mut self, mode: BlurMode)
        ensures
            final(self).mode() == mode,
            final(self).frames() == old(self).frames(),
            final(self).slow_run() == old(self).slow_run(),
            final(self).auto_disabled() == old(self).auto_disabled(),
    {
        self.blur_mode = mode;
    }

    /// Get the current blur mode.
    pub fn blur_mode(&self) -> (r: BlurMode)
        ensures
            r == self.mode(),
    {
        self.blur_mode
    }

    /// Record a frame's render time, in microseconds.
    ///
    /// The rolling window drops its oldest entry when full. A slow frame
    /// grows the consecutive-slow count (saturating) and, at the threshold,
    /// auto-disables blur; a fast frame resets the count.
    pub fn record_frame(&mut self, render_micros: u64)
        requires
            old(self).wf(),
        ensures
            final(self).wf(),
            final(self).mode() == old(self).mode(),
            final(self).frames() == (if old(self).frames().len() >= FRAME_BUFFER_SIZE {
                old(self).frames().skip(1).push(FrameMetrics { render_micros })
            } else {
                old(self).frames().push(FrameMetrics { render_micros })
            }),
            final(self).slow_run() == (if spec_is_slow(render_micros) {
                if old(self).slow_run() == usize::MAX {
                    usize::MAX
                } else {
                    (old(self).slow_run() + 1) as usize
                }
            } else {
                0usize
            }),
            final(self).auto_disabled() == (old(self).auto_disabled() || (spec_is_slow(
                render_micros,
            ) && final(self).slow_run() >= SLOW_FRAME_THRESHOLD)),
    {
        let metrics = FrameMetrics { render_micros };
        if self.frame_times.len() >= FRAME_BUFFER_SIZE {
            self.frame_times.remove(0);
        }
        self.frame_times.push(metrics);
        proof {
            if old(self).frames().len() >= FRAME_BUFFER_SIZE {
                assert(self.frames() =~= old(self).frames().skip(1).push(metrics));
            }
        }
        let is_slow = render_micros >= TARGET_FRAME_TIME_MICROS;
        proof {
            assert(is_slow == spec_is_slow(render_micros));
        }
        if is_slow {
            if self.consecutive_slow_frames < usize::MAX {
                self.consecutive_slow_frames = self.consecutive_slow_frames + 1;
            }
            if self.consecutive_slow_frames >= SLOW_FRAME_THRESHOLD && !self.blur_disabled {
                self.blur_disabled = true;
            }
        } else {
            self.consecutive_slow_frames = 0;
        }
    }

    /// Check if blur should be disabled based on current settings and
    /// performance.
    pub fn should_disable_blur(&self) -> (r: bool)
        ensures
            r == self.spec_should_disable_blur(),
    {
        match self.blur_mode {
            BlurMode::ForceOn => false,
            BlurMode::ForceOff => true,
            BlurMode::Auto => self.blur_disabled,
        }
    }

    /// Get the effective blur radius considering performance: 0 when blur
    /// is off, else the theme's radius.
    pub fn get_effective_blur_radius(&self, theme_blur_radius: u8) -> (r: u8)
        ensures
            r == (if self.spec_should_disable_blur() {
                0u8
            } else {
                theme_blur_radius
            }),
    {
        if self.should_disable_blur() {
            0
        } else {
            theme_blur_radius
        }
    }

    /// Get the number of frames in the window.
    pub fn frame_count(&self) -> (r: usize)
        ensures
            r == self.frames().len(),
    {
        self.frame_times.len()
    }

    /// Get the number of consecutive slow frames.
    pub fn consecutive_slow_frames(&self) -> (r: usize)
        ensures
            r == self.slow_run(),
    {
        self.consecutive_slow_frames
    }

    /// Check if blur was auto-disabled.
    pub fn is_blur_auto_disabled(&self) -> (r: bool)
        ensures
            r == self.auto_disabled(),
    {
        self.blur_disabled
    }

    /// Reset the performance monitor (e.g. after the user changes
    /// settings).
    pub fn reset(&mut self)
        ensures
            final(self).wf(),
            final(self).frames() =~= Seq::<FrameMetrics>::empty(),
            final(self).slow_run() == 0,
            !final(self).auto_disabled(),
            final(self).mode() == old(self).mode(),
    {
        self.frame_times.clear();
        self.consecutive_slow_frames = 0;
        self.blur_disabled = false;
    }

    /// Force re-enable blur (user action).
    pub fn re_enable_blur(&mut self)
        ensures
            final(self).frames() == old(self).frames(),
            final(self).slow_run() == 0,
            !final(self).auto_disabled(),
            final(self).mode() == old(self).mode(),
    {
        self.blur_disabled = false;
        self.consecutive_slow_frames = 0;
    }
}

impl Default for PerformanceMonitor {
    fn default() -> (r: Self)
        ensures
            r.wf(),
            r.frames() =~= Seq::<FrameMetrics>::empty(),
            r.slow_run() == 0,
            !r.auto_disabled(),
            r.mode() == BlurMode::Auto,
    {
        PerformanceMonitor::new()
    }
}

} // verus!
