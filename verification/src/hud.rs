//! The HUD state: named text fields, an overlay color, the console toggle,
//! and the three-phase fade timer that drives the overlay's alpha channel.
//!
//! Time is measured in whole milliseconds. A fade runs through the phases
//! `In` (alpha climbs from 0 to 1), `InBetween` (alpha holds at 1) and `Out`
//! (alpha falls back to 0); when `Out` completes the timer is cleared and the
//! overlay color is no longer driven.

use vstd::prelude::*;

use crate::color::{Color, COLOR_SCALE};

verus! {

/// How long a fade holds at full alpha between the `In` and `Out` phases.
pub const FADE_HOLD_MS: u32 = 500;

/// Duration used by [`Hud::start_default_fade`] for both the in and out phase.
pub const DEFAULT_FADE_MS: u32 = 500;

/// The phase a fade timer is in. Phases advance `In` -> `InBetween` -> `Out`;
/// completing `Out` clears the timer.
#[derive(Clone, Copy, Debug, PartialEq, Eq, Structural)]
pub enum FadeDirection {
    In,
    Out,
    InBetween,
}

/// A running fade: a base color, the elapsed time within the current phase,
/// one duration per phase, and the current phase.
#[derive(Clone, Copy, Debug, PartialEq, Eq, Structural)]
pub struct FadeInOut {
    pub base_color: Color,
    pub elapsed_ms: u32,
    pub time_in_ms: u32,
    pub time_out_ms: u32,
    pub time_in_between_ms: u32,
    pub direction: FadeDirection,
}

/// The duration of the phase a fade is currently in.
pub open spec fn phase_duration(f: FadeInOut) -> u32 {
    match f.direction {
        FadeDirection::In => f.time_in_ms,
        FadeDirection::InBetween => f.time_in_between_ms,
        FadeDirection::Out => f.time_out_ms,
    }
}

/// The alpha a fade state projects, in thousandths: `elapsed / duration`
/// while fading in, full scale while holding, `1 - elapsed / duration` while
/// fading out. A phase of zero duration is treated as already complete: its
/// alpha is the value the following phase starts from.
pub open spec fn alpha_spec(f: FadeInOut) -> int {
    match f.direction {
        FadeDirection::In => if f.time_in_ms == 0 {
            COLOR_SCALE as int
        } else {
            f.elapsed_ms * COLOR_SCALE / (f.time_in_ms as int)
        },
        FadeDirection::InBetween => COLOR_SCALE as int,
        FadeDirection::Out => if f.time_out_ms == 0 {
            0
        } else {
            COLOR_SCALE - f.elapsed_ms * COLOR_SCALE / (f.time_out_ms as int)
        },
    }
}

impl FadeInOut {
    /// The timer's invariant: the elapsed time never leaves the current
    /// phase, and the base color's channels are within scale.
    pub open spec fn wf(self) -> bool {
        self.elapsed_ms <= phase_duration(self) && self.base_color.wf()
    }

    /// A fresh fade: phase `In`, nothing elapsed yet.
    pub fn new(base_color: Color, time_in_ms: u32, time_out_ms: u32, time_between_ms: u32) -> (f:
        FadeInOut)
        ensures
            f == (FadeInOut {
                base_color,
                elapsed_ms: 0,
                time_in_ms,
                time_out_ms,
                time_in_between_ms: time_between_ms,
                direction: FadeDirection::In,
            }),
            base_color.wf() ==> f.wf(),
    {
        FadeInOut {
            base_color,
            time_in_ms,
            time_out_ms,
            time_in_between_ms: time_between_ms,
            direction: FadeDirection::In,
            elapsed_ms: 0,
        }
    }

    /// Runtime check of [`FadeInOut::wf`], for callers outside the verified
    /// world.
    pub fn is_wf(&self) -> (b: bool)
        ensures
            b == self.wf(),
    {
        let within_phase = match self.direction {
            FadeDirection::In => self.elapsed_ms <= self.time_in_ms,
            FadeDirection::InBetween => self.elapsed_ms <= self.time_in_between_ms,
            FadeDirection::Out => self.elapsed_ms <= self.time_out_ms,
        };
        within_phase && self.base_color.is_wf()
    }

    /// The alpha this state projects, in thousandths.
    pub fn alpha(&self) -> (a: u32)
        requires
            self.wf(),
        ensures
            a == alpha_spec(*self),
            a <= COLOR_SCALE,
    {
        proof {
            lemma_alpha_in_range(*self);
        }
        match self.direction {
            FadeDirection::In => {
                if self.time_in_ms == 0 {
                    COLOR_SCALE
                } else {
                    (self.elapsed_ms as u64 * COLOR_SCALE as u64 / self.time_in_ms as u64) as u32
                }
            },
            FadeDirection::Out => {
                if self.time_out_ms == 0 {
                    0
                } else {
                    COLOR_SCALE - (self.elapsed_ms as u64 * COLOR_SCALE as u64
                        / self.time_out_ms as u64) as u32
                }
            },
            FadeDirection::InBetween => COLOR_SCALE,
        }
    }
}

/// The alpha of a well-formed fade state lies within the fixed-point scale.
pub proof fn lemma_alpha_in_range(f: FadeInOut)
    requires
        f.wf(),
    ensures
        0 <= alpha_spec(f) <= COLOR_SCALE,
{
    lemma_phase_ratio_in_range(f.elapsed_ms as int, f.time_in_ms as int);
    lemma_phase_ratio_in_range(f.elapsed_ms as int, f.time_out_ms as int);
}

/// `e * COLOR_SCALE / t` lies in `0 ..= COLOR_SCALE` whenever `0 <= e <= t`.
proof fn lemma_phase_ratio_in_range(e: int, t: int)
    requires
        0 <= e,
    ensures
        0 < t && e <= t ==> 0 <= e * COLOR_SCALE / t <= COLOR_SCALE,
{
    if 0 < t && e <= t {
        assert(0 <= e * COLOR_SCALE / t <= COLOR_SCALE) by (nonlinear_arith)
            requires
                0 <= e,
                0 < t,
                e <= t,
        ;
    }
}

/// Alpha is continuous at the phase boundaries: it reaches full scale at the
/// end of `In`, holds full scale throughout `InBetween`, and starts `Out` at
/// full scale. The `Out` clause needs a positive out duration: with
/// `time_out_ms == 0` the phase is already complete and its alpha is 0.
pub proof fn lemma_alpha_continuous_at_boundaries(f: FadeInOut)
    ensures
        alpha_spec(FadeInOut {
            direction: FadeDirection::In,
            elapsed_ms: f.time_in_ms,
            ..f
        }) == COLOR_SCALE,
        alpha_spec(FadeInOut { direction: FadeDirection::InBetween, ..f }) == COLOR_SCALE,
        f.time_out_ms > 0 ==> alpha_spec(FadeInOut {
            direction: FadeDirection::Out,
            elapsed_ms: 0,
            ..f
        }) == COLOR_SCALE,
{
    if f.time_in_ms > 0 {
        assert(f.time_in_ms * COLOR_SCALE / (f.time_in_ms as int) == COLOR_SCALE) by (nonlinear_arith)
            requires
                f.time_in_ms > 0,
        ;
    }
}

/// The fade state one frame later, before the completed-`Out` case clears
/// the timer: elapsed time grows by `dt_ms`; reaching the current phase's
/// duration resets the elapsed time and moves to the next phase; reaching
/// the end of `Out` pins the elapsed time at the out duration.
pub open spec fn settled_fade(f: FadeInOut, dt_ms: u32) -> FadeInOut {
    let e = f.elapsed_ms + dt_ms;
    match f.direction {
        FadeDirection::In => if e >= f.time_in_ms {
            FadeInOut { elapsed_ms: 0, direction: FadeDirection::InBetween, ..f }
        } else {
            FadeInOut { elapsed_ms: e as u32, ..f }
        },
        FadeDirection::InBetween => if e >= f.time_in_between_ms {
            FadeInOut { elapsed_ms: 0, direction: FadeDirection::Out, ..f }
        } else {
            FadeInOut { elapsed_ms: e as u32, ..f }
        },
        FadeDirection::Out => if e >= f.time_out_ms {
            FadeInOut { elapsed_ms: f.time_out_ms, ..f }
        } else {
            FadeInOut { elapsed_ms: e as u32, ..f }
        },
    }
}

/// The fade state stored after one frame: the settled state, or nothing once
/// the `Out` phase has completed.
pub open spec fn advanced_fade(f: FadeInOut, dt_ms: u32) -> Option<FadeInOut> {
    if f.direction is Out && f.elapsed_ms + dt_ms >= f.time_out_ms {
        None
    } else {
        Some(settled_fade(f, dt_ms))
    }
}

/// The alpha written to the overlay during a frame that advances `f` by
/// `dt_ms`: the settled state's alpha.
pub open spec fn frame_alpha(f: FadeInOut, dt_ms: u32) -> int {
    alpha_spec(settled_fade(f, dt_ms))
}

/// Advancing preserves the timer invariant, whatever the frame time.
pub proof fn lemma_settled_fade_wf(f: FadeInOut, dt_ms: u32)
    requires
        f.base_color.wf(),
    ensures
        settled_fade(f, dt_ms).wf(),
{
}

/// The alpha written during a frame lies within the fixed-point scale, for
/// every starting state with a well-formed color and every frame time.
pub proof fn lemma_frame_alpha_in_range(f: FadeInOut, dt_ms: u32)
    requires
        f.base_color.wf(),
    ensures
        0 <= frame_alpha(f, dt_ms) <= COLOR_SCALE,
{
    lemma_settled_fade_wf(f, dt_ms);
    lemma_alpha_in_range(settled_fade(f, dt_ms));
}

/// Once the `Out` phase completes, the timer is cleared and the last alpha
/// written to the overlay is 0.
pub proof fn lemma_fade_clears_after_out(f: FadeInOut, dt_ms: u32)
    requires
        f.direction is Out,
        f.elapsed_ms + dt_ms >= f.time_out_ms,
    ensures
        advanced_fade(f, dt_ms) is None,
        frame_alpha(f, dt_ms) == 0,
{
    if f.time_out_ms > 0 {
        assert(f.time_out_ms * COLOR_SCALE / (f.time_out_ms as int) == COLOR_SCALE) by (nonlinear_arith)
            requires
                f.time_out_ms > 0,
        ;
    }
}

/// The HUD's backing state: one string per text slot, the overlay color, the
/// fade timer (if one is running) and the console's visibility toggle.
pub struct Hud {
    pub console_text: String,
    pub top_left_text: String,
    pub top_right_text: String,
    pub bottom_center_text: String,
    pub center_text: String,
    pub foreground: Color,
    pub fade_in_out: Option<FadeInOut>,
    pub show_console: bool,
}

/// What a fade request leaves behind: if no fade was running, a fresh timer
/// with the requested in and out durations and a hold of [`FADE_HOLD_MS`];
/// if one was running, nothing changes.
pub open spec fn fade_requested(
    h0: Hud,
    h1: Hud,
    time_in_ms: u32,
    time_out_ms: u32,
    base_color: Color,
) -> bool {
    &&& (h0.fade_in_out is None ==> h1 == (Hud {
        fade_in_out: Some(FadeInOut {
            base_color,
            elapsed_ms: 0,
            time_in_ms,
            time_out_ms,
            time_in_between_ms: FADE_HOLD_MS,
            direction: FadeDirection::In,
        }),
        ..h0
    }))
    &&& (h0.fade_in_out is Some ==> h1 == h0)
}

impl Hud {
    /// The HUD invariant: the overlay color is within scale and a running
    /// fade timer is well formed.
    pub open spec fn wf(self) -> bool {
        &&& self.foreground.wf()
        &&& (self.fade_in_out matches Some(f) ==> f.wf())
    }

    /// Runtime check of [`Hud::wf`], for callers outside the verified world.
    pub fn is_wf(&self) -> (b: bool)
        ensures
            b == self.wf(),
    {
        let fade_ok = match self.fade_in_out {
            Some(f) => f.is_wf(),
            None => true,
        };
        self.foreground.is_wf() && fade_ok
    }

    /// Empties the four non-console text slots.
    pub fn clear_texts(&mut self)
        ensures
            final(self).console_text == old(self).console_text,
            final(self).foreground == old(self).foreground,
            final(self).fade_in_out == old(self).fade_in_out,
            final(self).show_console == old(self).show_console,
            final(self).top_left_text@ == Seq::<char>::empty(),
            final(self).top_right_text@ == Seq::<char>::empty(),
            final(self).center_text@ == Seq::<char>::empty(),
            final(self).bottom_center_text@ == Seq::<char>::empty(),
    {
        self.top_left_text = String::new();
        self.top_right_text = String::new();
        self.center_text = String::new();
        self.bottom_center_text = String::new();
    }

    /// Requests a fade. If one is already running the request is ignored and
    /// the running fade's parameters are untouched; otherwise a fresh timer
    /// starts in phase `In`.
    pub fn fade(&mut self, time_in_ms: u32, time_out_ms: u32, base_color: Color)
        ensures
            fade_requested(*old(self), *final(self), time_in_ms, time_out_ms, base_color),
            old(self).wf() && base_color.wf() ==> final(self).wf(),
    {
        if self.fade_in_out.is_none() {
            self.fade_in_out = Some(FadeInOut::new(base_color, time_in_ms, time_out_ms, FADE_HOLD_MS));
        }
    }

    /// Requests the default fade: half a second in and out, black overlay.
    pub fn start_default_fade(&mut self)
        ensures
            fade_requested(
                *old(self),
                *final(self),
                DEFAULT_FADE_MS,
                DEFAULT_FADE_MS,
                Color { r: 0, g: 0, b: 0, a: COLOR_SCALE },
            ),
            old(self).wf() ==> final(self).wf(),
    {
        let black = Color::black();
        self.fade(DEFAULT_FADE_MS, DEFAULT_FADE_MS, black);
    }
}

impl Default for Hud {
    /// The initial HUD: placeholder console text, empty text slots, a fully
    /// transparent white overlay, no fade running, console hidden.
    fn default() -> (h: Hud)
        ensures
            h.console_text@ == "hahaha\nhhehehe\nheheiheihei\nheheaheahe\n"@,
            h.top_left_text@ == Seq::<char>::empty(),
            h.top_right_text@ == Seq::<char>::empty(),
            h.center_text@ == Seq::<char>::empty(),
            h.bottom_center_text@ == Seq::<char>::empty(),
            h.foreground == (Color { r: COLOR_SCALE, g: COLOR_SCALE, b: COLOR_SCALE, a: 0 }),
            h.fade_in_out is None,
            h.show_console == false,
            h.wf(),
    {
        Hud {
            console_text: "hahaha\nhhehehe\nheheiheihei\nheheaheahe\n".to_owned(),
            top_left_text: String::new(),
            top_right_text: String::new(),
            center_text: String::new(),
            bottom_center_text: String::new(),
            foreground: Color { r: COLOR_SCALE, g: COLOR_SCALE, b: COLOR_SCALE, a: 0 },
            fade_in_out: None,
            show_console: false,
        }
    }
}

/// Advances the fade timer by one frame of `dt_ms` milliseconds and writes
/// the derived alpha into the overlay color. With no fade running the HUD is
/// left untouched, so the overlay keeps whatever was set externally.
pub fn fade_out_in_out(hud: &mut Hud, dt_ms: u32)
    requires
        old(hud).wf(),
    ensures
        final(hud).wf(),
        old(hud).fade_in_out is None ==> *final(hud) == *old(hud),
        old(hud).fade_in_out matches Some(f) ==> *final(hud) == (Hud {
            fade_in_out: advanced_fade(f, dt_ms),
            foreground: Color { a: frame_alpha(f, dt_ms) as u32, ..f.base_color },
            ..*old(hud)
        }),
{
    if let Some(f0) = hud.fade_in_out {
        let mut f = f0;
        let e: u64 = f.elapsed_ms as u64 + dt_ms as u64;
        match f.direction {
            FadeDirection::In => {
                if e >= f.time_in_ms as u64 {
                    f.elapsed_ms = 0;
                    f.direction = FadeDirection::InBetween;
                } else {
                    f.elapsed_ms = e as u32;
                }
                hud.fade_in_out = Some(f);
            },
            FadeDirection::InBetween => {
                if e >= f.time_in_between_ms as u64 {
                    f.elapsed_ms = 0;
                    f.direction = FadeDirection::Out;
                } else {
                    f.elapsed_ms = e as u32;
                }
                hud.fade_in_out = Some(f);
            },
            FadeDirection::Out => {
                if e >= f.time_out_ms as u64 {
                    f.elapsed_ms = f.time_out_ms;
                    hud.fade_in_out = None;
                } else {
                    f.elapsed_ms = e as u32;
                    hud.fade_in_out = Some(f);
                }
            },
        }
        proof {
            lemma_settled_fade_wf(f0, dt_ms);
        }
        let a = f.alpha();
        hud.foreground = f.base_color;
        hud.foreground.set_alpha(a);
    }
}

} // verus!
