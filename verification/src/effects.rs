use vstd::prelude::*;

use crate::theme::Color;
use ratatui::style::Color as TuiColor;
use tachyonfx::{fx, Duration, Effect, Interpolation, Motion, SimpleRng};

verus! {

#[verifier::external_type_specification]
#[verifier::external_body]
pub struct ExEffect(Effect);

#[verifier::external_type_specification]
#[verifier::external_body]
pub struct ExSimpleRng(SimpleRng);

#[verifier::external_type_specification]
#[verifier::external_body]
pub struct ExDuration(Duration);

/// Direction in which a sweep or slide effect moves.
#[derive(Debug, Clone, Copy, PartialEq, Eq, Structural)]
pub enum FxMotion {
    LeftToRight,
    RightToLeft,
    UpToDown,
    DownToUp,
}

/// Easing curve of an effect's timer.
#[derive(Debug, Clone, Copy, PartialEq, Eq, Structural)]
pub enum FxEasing {
    QuadIn,
    QuadOut,
    CubicOut,
}

/// Axis along which an expand effect grows.
#[derive(Debug, Clone, Copy, PartialEq, Eq, Structural)]
pub enum FxAxis {
    Horizontal,
    Vertical,
}

/// The tachyonfx duration `Duration::from_millis(millis)`.
pub uninterp spec fn millis_duration(millis: u32) -> Duration;

/// The effect `fx::sweep_in(motion, gradient, randomness, color, (from_millis(millis), easing))`.
pub uninterp spec fn sweep_in_fx(
    motion: FxMotion,
    gradient: u16,
    randomness: u16,
    color: Color,
    millis: u32,
    easing: FxEasing,
) -> Effect;

/// The effect `fx::sweep_out(motion, gradient, randomness, color, (from_millis(millis), easing))`.
pub uninterp spec fn sweep_out_fx(
    motion: FxMotion,
    gradient: u16,
    randomness: u16,
    color: Color,
    millis: u32,
    easing: FxEasing,
) -> Effect;

/// The effect `fx::expand(axis, Style::from((fg, bg)), millis)`.
pub uninterp spec fn expand_fx(axis: FxAxis, fg: Color, bg: Color, millis: u32) -> Effect;

/// The effect `fx::expand(axis, Style::from((fg, bg)), millis).reversed()`.
pub uninterp spec fn shrink_fx(axis: FxAxis, fg: Color, bg: Color, millis: u32) -> Effect;

/// Calls tachyonfx's `Duration::from_millis`, a `const fn` that stores its argument;
/// the result is named `millis_duration(millis)`.
#[verifier::external_body]
pub(crate) fn duration_from_millis(millis: u32) -> (d: Duration)
    ensures
        d == millis_duration(millis),
{
    Duration::from_millis(millis)
}

/// Calls `SimpleRng::gen`, which advances the SplitMix32 state and returns the mixed
/// value. The state is private to tachyonfx and, for a generator made by
/// `SimpleRng::default`, seeded from the clock, so nothing is stated of the number
/// returned nor of the state after the call.
#[verifier::external_body]
pub(crate) fn rng_next(rng: &mut SimpleRng) -> (value: u32) {
    rng.gen()
}

/// Calls `<Effect as Clone>::clone`, which copies the effect's shader with
/// `clone_box`; the copy is the same effect as the original.
#[verifier::external_body]
pub(crate) fn clone_effect(effect: &Effect) -> (copy: Effect)
    ensures
        copy == *effect,
{
    effect.clone()
}

/// Calls `tachyonfx::fx::sweep_in` with the timer `(Duration::from_millis(millis), easing)`.
/// The effect it builds holds a generator seeded with the constant 0, so the result
/// is a function of the arguments, named `sweep_in_fx`.
#[verifier::external_body]
pub(crate) fn fx_sweep_in(
    motion: FxMotion,
    gradient: u16,
    randomness: u16,
    color: Color,
    millis: u32,
    easing: FxEasing,
) -> (effect: Effect)
    ensures
        effect == sweep_in_fx(motion, gradient, randomness, color, millis, easing),
{
    let Color::Rgb(r, g, b) = color;
    let direction = match motion {
        FxMotion::LeftToRight => Motion::LeftToRight, FxMotion::RightToLeft => Motion::RightToLeft,
        FxMotion::UpToDown => Motion::UpToDown, FxMotion::DownToUp => Motion::DownToUp,
    };
    let curve = match easing {
        FxEasing::QuadIn => Interpolation::QuadIn, FxEasing::QuadOut => Interpolation::QuadOut,
        FxEasing::CubicOut => Interpolation::CubicOut,
    };
    fx::sweep_in(direction, gradient, randomness, TuiColor::Rgb(r, g, b), (Duration::from_millis(millis), curve))
}

/// Calls `tachyonfx::fx::sweep_out`, which the source writes as `sweep_in` with the
/// flipped direction and a reversed timer; its generator is seeded with 0, so the
/// result is a function of the arguments, named `sweep_out_fx`.
#[verifier::external_body]
pub(crate) fn fx_sweep_out(
    motion: FxMotion,
    gradient: u16,
    randomness: u16,
    color: Color,
    millis: u32,
    easing: FxEasing,
) -> (effect: Effect)
    ensures
        effect == sweep_out_fx(motion, gradient, randomness, color, millis, easing),
{
    let Color::Rgb(r, g, b) = color;
    let direction = match motion {
        FxMotion::LeftToRight => Motion::LeftToRight, FxMotion::RightToLeft => Motion::RightToLeft,
        FxMotion::UpToDown => Motion::UpToDown, FxMotion::DownToUp => Motion::DownToUp,
    };
    let curve = match easing {
        FxEasing::QuadIn => Interpolation::QuadIn, FxEasing::QuadOut => Interpolation::QuadOut,
        FxEasing::CubicOut => Interpolation::CubicOut,
    };
    fx::sweep_out(direction, gradient, randomness, TuiColor::Rgb(r, g, b), (Duration::from_millis(millis), curve))
}

/// Calls `tachyonfx::fx::slide_in`. The effect it builds takes its generator from
/// `SimpleRng::default`, which is seeded from the clock, so nothing is stated of it.
#[verifier::external_body]
pub(crate) fn fx_slide_in(
    motion: FxMotion,
    gradient: u16,
    randomness: u16,
    color: Color,
    millis: u32,
    easing: FxEasing,
) -> (effect: Effect) {
    let Color::Rgb(r, g, b) = color;
    let direction = match motion {
        FxMotion::LeftToRight => Motion::LeftToRight, FxMotion::RightToLeft => Motion::RightToLeft,
        FxMotion::UpToDown => Motion::UpToDown, FxMotion::DownToUp => Motion::DownToUp,
    };
    let curve = match easing {
        FxEasing::QuadIn => Interpolation::QuadIn, FxEasing::QuadOut => Interpolation::QuadOut,
        FxEasing::CubicOut => Interpolation::CubicOut,
    };
    fx::slide_in(direction, gradient, randomness, TuiColor::Rgb(r, g, b), (Duration::from_millis(millis), curve))
}

/// Calls `tachyonfx::fx::slide_out`. The effect it builds takes its generator from
/// `SimpleRng::default`, which is seeded from the clock, so nothing is stated of it.
#[verifier::external_body]
pub(crate) fn fx_slide_out(
    motion: FxMotion,
    gradient: u16,
    randomness: u16,
    color: Color,
    millis: u32,
    easing: FxEasing,
) -> (effect: Effect) {
    let Color::Rgb(r, g, b) = color;
    let direction = match motion {
        FxMotion::LeftToRight => Motion::LeftToRight, FxMotion::RightToLeft => Motion::RightToLeft,
        FxMotion::UpToDown => Motion::UpToDown, FxMotion::DownToUp => Motion::DownToUp,
    };
    let curve = match easing {
        FxEasing::QuadIn => Interpolation::QuadIn, FxEasing::QuadOut => Interpolation::QuadOut,
        FxEasing::CubicOut => Interpolation::CubicOut,
    };
    fx::slide_out(direction, gradient, randomness, TuiColor::Rgb(r, g, b), (Duration::from_millis(millis), curve))
}

/// Calls `tachyonfx::fx::expand` with the style `Style::from((fg, bg))` and a timer of
/// `millis` milliseconds; the effect holds no generator, so the result is named `expand_fx`.
#[verifier::external_body]
pub(crate) fn fx_expand(axis: FxAxis, fg: Color, bg: Color, millis: u32) -> (effect: Effect)
    ensures
        effect == expand_fx(axis, fg, bg, millis),
{
    let (Color::Rgb(fr, fg_, fb), Color::Rgb(br, bg_, bb)) = (fg, bg);
    let direction = match axis {
        FxAxis::Horizontal => fx::ExpandDirection::Horizontal, FxAxis::Vertical => fx::ExpandDirection::Vertical,
    };
    let style = ratatui::style::Style::from((TuiColor::Rgb(fr, fg_, fb), TuiColor::Rgb(br, bg_, bb)));
    fx::expand(direction, style, millis)
}

/// Calls `tachyonfx::fx::expand` as `fx_expand` does, then `Effect::reversed` on the
/// result, which reverses its timer; the result is named `shrink_fx`.
#[verifier::external_body]
pub(crate) fn fx_shrink(axis: FxAxis, fg: Color, bg: Color, millis: u32) -> (effect: Effect)
    ensures
        effect == shrink_fx(axis, fg, bg, millis),
{
    let (Color::Rgb(fr, fg_, fb), Color::Rgb(br, bg_, bb)) = (fg, bg);
    let direction = match axis {
        FxAxis::Horizontal => fx::ExpandDirection::Horizontal, FxAxis::Vertical => fx::ExpandDirection::Vertical,
    };
    let style = ratatui::style::Style::from((TuiColor::Rgb(fr, fg_, fb), TuiColor::Rgb(br, bg_, bb)));
    fx::expand(direction, style, millis).reversed()
}

/// Calls `tachyonfx::fx::coalesce` with the timer `(Duration::from_millis(millis), easing)`.
/// The effect it builds takes its generator from `SimpleRng::default`, seeded from the
/// clock, so nothing is stated of it.
#[verifier::external_body]
pub(crate) fn fx_coalesce(millis: u32, easing: FxEasing) -> (effect: Effect) {
    let curve = match easing {
        FxEasing::QuadIn => Interpolation::QuadIn, FxEasing::QuadOut => Interpolation::QuadOut,
        FxEasing::CubicOut => Interpolation::CubicOut,
    };
    fx::coalesce((Duration::from_millis(millis), curve))
}

} // verus!
