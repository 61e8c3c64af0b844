//! What the panel takes from iced_audio: its normalized value and parameter
//! types, and the conversions of its four ranges. Each item below is trusted.
//!
//! The conversions of the linear, stepped and decibel ranges, and std's text of
//! a float, use only arithmetic, rounding and comparisons on their arguments:
//! their results are named below. The frequency range goes through `powf` and
//! `log2`, whose precision std leaves open, so its results get no name.

use vstd::prelude::*;
use iced_audio::{FloatRange, FreqRange, IntRange, LogDBRange, Normal, NormalParam};
use crate::ranges::{DecibelRange, FrequencyRange, LinearRange, StepRange};
use crate::text::{is_fixed_text, is_plain_text};

verus! {

/// iced_audio's normalized value: a position from 0 to 1, held as a float.
#[verifier::external_type_specification]
#[verifier::external_body]
pub struct ExNormal(Normal);

/// iced_audio's parameter state: the current and the default position.
#[verifier::external_type_specification]
pub struct ExNormalParam(NormalParam);

/// The step of the range from `min` to `max` that the position `n` falls on
/// (IntRange::unmap_to_value).
pub uninterp spec fn step_of(min: int, max: int, n: Normal) -> int;

/// The position of the step `v` of the range from `min` to `max`
/// (IntRange::map_to_normal).
pub uninterp spec fn step_position_of(min: int, max: int, v: int) -> Normal;

/// The position of the value `v` on the linear range from `min` to `max`
/// (FloatRange::map_to_normal).
pub uninterp spec fn linear_position_of(min: int, max: int, v: int) -> Normal;

/// The text, with two places, of the value at `n` on the linear range from `min`
/// to `max` (FloatRange::unmap_to_value, then `{:.2}`).
pub uninterp spec fn linear_text_of(min: int, max: int, n: Normal) -> Seq<char>;

/// The text, with three places, of the decibels at `n` on the range from
/// `min_db` to `max_db` with 0 dB at `zero` (LogDBRange::unmap_to_value, then
/// `{:.3}`).
pub uninterp spec fn decibel_text_of(min_db: int, max_db: int, zero: Normal, n: Normal) -> Seq<char>;

/// The shortest text of the position `n` (Normal::as_f32, then `{}`).
pub uninterp spec fn normal_text_of(n: Normal) -> Seq<char>;

/// Relies on iced_audio's NormalParam::update: it sets the current position and
/// keeps the default.
pub assume_specification[ NormalParam::update ](param: &mut NormalParam, normal: Normal)
    ensures
        final(param).value == normal,
        final(param).default == old(param).default,
;

/// Relies on iced_audio's Normal::MIN: the lowest position.
#[verifier::external_body]
pub(crate) fn lowest_normal() -> Normal {
    Normal::MIN
}

/// Relies on iced_audio's Normal::CENTER: the middle position.
#[verifier::external_body]
pub(crate) fn centre_normal() -> Normal {
    Normal::CENTER
}

/// Relies on iced_audio's IntRange::new and IntRange::unmap_to_value: the position
/// times the span, rounded, plus the minimum. For a position in [0, 1] and a span
/// that f32 holds exactly this lies within the bounds; a NaN position gives the
/// minimum.
#[verifier::external_body]
pub(crate) fn step_value(range: StepRange, normal: Normal) -> (r: i32)
    requires
        range.wf(),
    ensures
        r == step_of(range.min as int, range.max as int, normal),
        range.min <= r <= range.max,
{
    IntRange::new(range.min, range.max).unmap_to_value(normal)
}

/// Relies on iced_audio's IntRange::snapped: the position of the step that
/// `normal` falls on, which it computes as map_to_normal of unmap_to_value.
#[verifier::external_body]
pub(crate) fn step_snapped(range: StepRange, normal: Normal) -> (r: Normal)
    requires
        range.wf(),
    ensures
        r == step_position_of(
            range.min as int,
            range.max as int,
            step_of(range.min as int, range.max as int, normal),
        ),
{
    IntRange::new(range.min, range.max).snapped(normal)
}

/// Relies on iced_audio's IntRange::normal_param: map_to_normal of each step.
#[verifier::external_body]
pub(crate) fn step_param(range: StepRange, value: i32, default: i32) -> (r: NormalParam)
    requires
        range.wf(),
    ensures
        r.value == step_position_of(range.min as int, range.max as int, value as int),
        r.default == step_position_of(range.min as int, range.max as int, default as int),
{
    IntRange::new(range.min, range.max).normal_param(value, default)
}

/// Relies on iced_audio's FloatRange::default_normal_param: map_to_normal of 0,
/// for both the value and the default.
#[verifier::external_body]
pub(crate) fn linear_default_param(range: LinearRange) -> (r: NormalParam)
    requires
        range.wf(),
    ensures
        r.value == linear_position_of(range.min as int, range.max as int, 0),
        r.default == linear_position_of(range.min as int, range.max as int, 0),
{
    FloatRange::new(range.min.into(), range.max.into()).default_normal_param()
}

/// Relies on iced_audio's FloatRange::unmap_to_value, which is finite or NaN on a
/// range with finite bounds, and on std's `{:.2}`: two digits after the point.
#[verifier::external_body]
pub(crate) fn linear_text(range: LinearRange, normal: Normal) -> (r: String)
    requires
        range.wf(),
    ensures
        r@ == linear_text_of(range.min as int, range.max as int, normal),
        is_fixed_text(r@, 2),
{
    format!("{:.2}", FloatRange::new(range.min.into(), range.max.into()).unmap_to_value(normal))
}

/// Relies on iced_audio's LogDBRange::default_normal_param: map_to_normal of
/// 0 dB, which is the zero position itself, for both the value and the default.
#[verifier::external_body]
pub(crate) fn decibel_default_param(range: DecibelRange) -> (r: NormalParam)
    requires
        range.wf(),
    ensures
        r.value == range.zero_position,
        r.default == range.zero_position,
{
    LogDBRange::new(range.min_db.into(), range.max_db.into(), range.zero_position)
        .default_normal_param()
}

/// Relies on iced_audio's LogDBRange::unmap_to_value and on std's `{:.3}`. The
/// value may be infinite where the zero position is so close to 0 that its
/// reciprocal overflows, so only the name is stated.
#[verifier::external_body]
pub(crate) fn decibel_text(range: DecibelRange, normal: Normal) -> (r: String)
    requires
        range.wf(),
    ensures
        r@ == decibel_text_of(
            range.min_db as int,
            range.max_db as int,
            range.zero_position,
            normal,
        ),
{
    let db = LogDBRange::new(range.min_db.into(), range.max_db.into(), range.zero_position);
    format!("{:.3}", db.unmap_to_value(normal))
}

/// Relies on iced_audio's FreqRange::normal_param: the positions of two frequencies.
#[verifier::external_body]
pub(crate) fn frequency_param(range: FrequencyRange, value: i16, default: i16) -> NormalParam
    requires
        range.wf(),
{
    FreqRange::new(range.min_hz.into(), range.max_hz.into()).normal_param(value.into(), default.into())
}

/// Relies on iced_audio's FreqRange::unmap_to_value, which is finite or NaN, and
/// on std's `{:.2}`: two digits after the point.
#[verifier::external_body]
pub(crate) fn frequency_text(range: FrequencyRange, normal: Normal) -> (r: String)
    requires
        range.wf(),
    ensures
        is_fixed_text(r@, 2),
{
    format!("{:.2}", FreqRange::new(range.min_hz.into(), range.max_hz.into()).unmap_to_value(normal))
}

/// Relies on iced_audio's Normal::as_f32, and on std's `{}`: the shortest decimal
/// text that reads back as the same value, with no exponent, or NaN.
#[verifier::external_body]
pub(crate) fn normal_text(normal: Normal) -> (r: String)
    ensures
        r@ == normal_text_of(normal),
        is_plain_text(r@),
{
    format!("{}", normal.as_f32())
}

} // verus!
