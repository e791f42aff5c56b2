//! Playhead arithmetic.
//!
//! A playhead counts every frame unit played since the animation started: it
//! is not wrapped into one pass of the composition. The loop it is in and its
//! place within that loop are derived from it on demand, so both survive a
//! change of settings. Each function here states its result as a formula over
//! the integers, saturated to the 64 bits of a playhead.

use vstd::prelude::*;
use crate::asset::Composition;
use crate::playback::playback_settings::{PlaybackDirection, PlaybackLoopBehavior, PlaybackSettings};

verus! {

/// The divisor that turns microseconds times thousandths into seconds.
pub const ELAPSED_SCALE: i128 = 1_000_000_000;

/// `a / b` rounded towards zero.
pub open spec fn trunc_div(a: int, b: int) -> int
    recommends
        b != 0,
{
    if a >= 0 {
        a / b
    } else {
        -((-a) / b)
    }
}

/// What is left of `a` after `trunc_div(a, b)` times `b`; it has the sign of `a`.
pub open spec fn trunc_rem(a: int, b: int) -> int
    recommends
        b != 0,
{
    if a >= 0 {
        a % b
    } else {
        -((-a) % b)
    }
}

/// The smaller of two integers.
pub open spec fn min_int(a: int, b: int) -> int {
    if a <= b {
        a
    } else {
        b
    }
}

/// The larger of two integers.
pub open spec fn max_int(a: int, b: int) -> int {
    if a >= b {
        a
    } else {
        b
    }
}

/// `x` brought into the range of a playhead.
pub open spec fn saturate(x: int) -> int {
    if x < i64::MIN {
        i64::MIN as int
    } else if x > i64::MAX {
        i64::MAX as int
    } else {
        x
    }
}

/// Whether `x` is a playhead as it stands.
pub open spec fn fits(x: int) -> bool {
    i64::MIN <= x <= i64::MAX
}

fn saturate_i64(x: i128) -> (r: i64)
    ensures
        r == saturate(x as int),
{
    if x < i64::MIN as i128 {
        i64::MIN
    } else if x > i64::MAX as i128 {
        i64::MAX
    } else {
        x as i64
    }
}

proof fn lemma_product_bound(a: int, b: int, bound_a: int, bound_b: int)
    requires
        -bound_a <= a <= bound_a,
        -bound_b <= b <= bound_b,
    ensures
        -(bound_a * bound_b) <= a * b <= bound_a * bound_b,
{
    assert(-(bound_a * bound_b) <= a * b <= bound_a * bound_b) by (nonlinear_arith)
        requires
            -bound_a <= a <= bound_a,
            -bound_b <= b <= bound_b,
    ;
}

proof fn lemma_div_bound(n: int, b: int)
    requires
        n >= 0,
        b != 0,
    ensures
        -n <= n / b <= n,
        -n <= n % b <= n,
{
    if b > 0 {
        assert(0 <= n / b <= n && 0 <= n % b <= n) by (nonlinear_arith)
            requires
                n >= 0,
                b > 0,
        ;
    } else {
        assert(-n <= n / b <= 0 && 0 <= n % b <= n) by (nonlinear_arith)
            requires
                n >= 0,
                b < 0,
        ;
    }
}

proof fn lemma_trunc_div_bound(a: int, b: int)
    requires
        b != 0,
    ensures
        a >= 0 ==> -a <= trunc_div(a, b) <= a,
        a <= 0 ==> a <= trunc_div(a, b) <= -a,
        a >= 0 ==> -a <= trunc_rem(a, b) <= a,
        a <= 0 ==> a <= trunc_rem(a, b) <= -a,
        b > 0 && a >= 0 ==> trunc_div(a, b) >= 0,
        b > 0 && a <= 0 ==> trunc_div(a, b) <= 0,
{
    if a >= 0 {
        lemma_div_bound(a, b);
    } else {
        lemma_div_bound(-a, b);
    }
}

// ---------------------------------------------------------------------------
// Speed and time
// ---------------------------------------------------------------------------

/// The frame units that pass in `dt_micros` microseconds at `speed`
/// thousandths of `frame_rate` units per second, rounded towards zero.
pub open spec fn elapsed_frames(dt_micros: int, speed: int, frame_rate: int) -> int {
    trunc_div(dt_micros * speed * frame_rate, 1_000_000_000)
}

/// Moves a playhead on by the time of one tick.
///
/// Speed only scales the step: a speed of zero leaves the playhead where it
/// is, and a negative speed moves it backwards.
pub fn advance_playhead(rendered_frames: i64, dt_micros: u32, speed: i32, frame_rate: u32) -> (advanced: i64)
    ensures
        advanced == saturate(rendered_frames + elapsed_frames(dt_micros as int, speed as int, frame_rate as int)),
{
    proof {
        lemma_product_bound(dt_micros as int, speed as int, 0x1_0000_0000, 0x1_0000_0000);
        lemma_product_bound(
            dt_micros as int * speed as int,
            frame_rate as int,
            0x1_0000_0000_0000_0000,
            0x1_0000_0000,
        );
    }
    let scaled: i128 = (dt_micros as i128) * (speed as i128);
    let product: i128 = scaled * (frame_rate as i128);
    let elapsed: i128 = product / ELAPSED_SCALE;
    proof {
        lemma_trunc_div_bound(product as int, 1_000_000_000);
    }
    saturate_i64(rendered_frames as i128 + elapsed)
}

// ---------------------------------------------------------------------------
// Intermission
// ---------------------------------------------------------------------------

/// The loops a playhead has behind it, where one pass takes `length` frame
/// units and is followed by `intermission` idle ones.
pub open spec fn loops_completed(rendered_frames: int, length: int, intermission: int) -> int {
    if rendered_frames > length + intermission {
        trunc_div(rendered_frames, length + intermission)
    } else if rendered_frames > length {
        1
    } else {
        0
    }
}

/// Whether a playhead sits in the idle window that follows a pass.
pub open spec fn in_intermission(rendered_frames: int, length: int, intermission: int) -> bool {
    let loops = loops_completed(rendered_frames, length, intermission);
    &&& rendered_frames > length
    &&& rendered_frames >= loops * length
    &&& rendered_frames < loops * length + intermission
}

/// Where a playhead stands once the intermission changes from `old_intermission`
/// to `new_intermission`.
///
/// Inside an intermission it moves to the last position before the loop
/// boundary that the new intermission gives. Elsewhere every loop behind it
/// contributes the change in idle time, and the result is not let below zero.
pub open spec fn reanchored(rendered_frames: int, length: int, old_intermission: int, new_intermission: int) -> int {
    let loops = loops_completed(rendered_frames, length, old_intermission);
    if in_intermission(rendered_frames, length, old_intermission) {
        loops * (length + new_intermission) - 1
    } else {
        max_int(0, rendered_frames + (new_intermission - old_intermission) * loops)
    }
}

/// Re-anchors a playhead to a new intermission.
///
/// The loop the playhead is in stays the same; only the idle time that each
/// completed loop contributed changes.
pub fn change_intermission(
    rendered_frames: i64,
    composition: &Composition,
    old_intermission: u32,
    new_intermission: u32,
) -> (moved: i64)
    ensures
        moved == saturate(
            reanchored(
                rendered_frames as int,
                composition.length(),
                old_intermission as int,
                new_intermission as int,
            ),
        ),
{
    let rendered: i128 = rendered_frames as i128;
    let length: i128 = composition.frame_end() as i128 - composition.frame_start() as i128;
    let old_cycle: i128 = length + old_intermission as i128;
    let loops: i128 = if rendered > old_cycle {
        rendered / old_cycle
    } else if rendered > length {
        1
    } else {
        0
    };
    proof {
        lemma_trunc_div_bound(rendered as int, old_cycle as int);
        lemma_product_bound(loops as int, length as int, 0x8000_0000_0000_0000, 0x1_0000_0000);
        lemma_product_bound(
            loops as int,
            length as int + new_intermission as int,
            0x8000_0000_0000_0000,
            0x2_0000_0000,
        );
        lemma_product_bound(
            new_intermission as int - old_intermission as int,
            loops as int,
            0x1_0000_0000,
            0x8000_0000_0000_0000,
        );
    }
    let passes: i128 = loops * length;
    let inside: bool = rendered > length && rendered >= passes && rendered < passes + old_intermission as i128;
    if inside {
        saturate_i64(loops * (length + new_intermission as i128) - 1)
    } else {
        let shift: i128 = (new_intermission as i128 - old_intermission as i128) * loops;
        let shifted: i128 = rendered + shift;
        if shifted < 0 {
            0
        } else {
            saturate_i64(shifted)
        }
    }
}

// ---------------------------------------------------------------------------
// Seek
// ---------------------------------------------------------------------------

/// The first position that both the settings' segment and the composition hold.
pub open spec fn effective_start(settings: PlaybackSettings, composition: Composition) -> int {
    max_int(settings.segments.start as int, composition.start())
}

/// The position just past the last one that both the settings' segment and the
/// composition hold.
pub open spec fn effective_end(settings: PlaybackSettings, composition: Composition) -> int {
    min_int(settings.segments.end as int, composition.end())
}

/// `frame` brought into `[start, end - 1]`. Where that range is empty the
/// upper bound wins.
pub open spec fn bounded_frame(frame: int, start: int, end: int) -> int {
    min_int(max_int(frame, start), end - 1)
}

/// The place within one loop that a seek to `frame` asks for: the bounded
/// frame itself when playing forwards, its mirror image about `end` when
/// playing in reverse.
pub open spec fn seek_offset(frame: int, start: int, end: int, direction: PlaybackDirection) -> int {
    let bounded = bounded_frame(frame, start, end);
    match direction {
        PlaybackDirection::Normal => bounded,
        PlaybackDirection::Reverse => end - bounded,
    }
}

/// The whole cycles of `cycle` frame units behind a playhead; none where a
/// cycle has no extent.
pub open spec fn loops_behind(rendered_frames: int, cycle: int) -> int {
    if cycle == 0 {
        0
    } else {
        trunc_div(rendered_frames, cycle)
    }
}

/// Where a playhead stands after a seek to `frame`: as many whole cycles on
/// as it had behind it, then the offset asked for. A cycle is the segment
/// `[start, end)` and the intermission that follows it.
pub open spec fn seek_position(
    rendered_frames: int,
    frame: int,
    start: int,
    end: int,
    intermission: int,
    direction: PlaybackDirection,
) -> int {
    let cycle = end - start + intermission;
    loops_behind(rendered_frames, cycle) * cycle + seek_offset(frame, start, end, direction)
}

/// Whether a seek to `frame` leaves the playhead in the loop it was in.
pub open spec fn seek_keeps_loop(
    rendered_frames: int,
    frame: int,
    start: int,
    end: int,
    intermission: int,
    direction: PlaybackDirection,
) -> bool {
    let cycle = end - start + intermission;
    loops_behind(seek_position(rendered_frames, frame, start, end, intermission, direction), cycle)
        == loops_behind(rendered_frames, cycle)
}

/// What [`seek_playhead`] returns.
pub open spec fn seek_result(
    rendered_frames: int,
    frame: int,
    settings: PlaybackSettings,
    composition: Composition,
) -> int {
    saturate(
        seek_position(
            rendered_frames,
            frame,
            effective_start(settings, composition),
            effective_end(settings, composition),
            settings.intermission as int,
            settings.direction,
        ),
    )
}

/// Moves a playhead to `frame` within the loop it is in.
///
/// The frame is bounded to the part of the settings' segment that lies in the
/// composition, and mirrored when the settings play in reverse. A seek changes
/// where in the current loop the playhead sits, not which loop that is.
pub fn seek_playhead(
    rendered_frames: i64,
    frame: i32,
    settings: &PlaybackSettings,
    composition: &Composition,
) -> (sought: i64)
    ensures
        sought == seek_result(rendered_frames as int, frame as int, *settings, *composition),
{
    let start: i32 = if settings.segments.start > composition.frame_start() {
        settings.segments.start
    } else {
        composition.frame_start()
    };
    let end: i32 = if settings.segments.end < composition.frame_end() {
        settings.segments.end
    } else {
        composition.frame_end()
    };
    let lower: i128 = if frame > start {
        frame as i128
    } else {
        start as i128
    };
    let bounded: i128 = if lower < end as i128 - 1 {
        lower
    } else {
        end as i128 - 1
    };
    let offset: i128 = match settings.direction {
        PlaybackDirection::Normal => bounded,
        PlaybackDirection::Reverse => end as i128 - bounded,
    };
    let cycle: i128 = end as i128 - start as i128 + settings.intermission as i128;
    let loops: i128 = if cycle == 0 {
        0
    } else {
        rendered_frames as i128 / cycle
    };
    proof {
        if cycle != 0 {
            lemma_trunc_div_bound(rendered_frames as int, cycle as int);
        }
        lemma_product_bound(loops as int, cycle as int, 0x8000_0000_0000_0000, 0x2_0000_0000);
    }
    saturate_i64(loops * cycle + offset)
}

/// A second seek to the same frame lands where the first did exactly when the
/// first left the playhead in the loop it was in.
///
/// `first` and `second` are the positions after one and after two seeks; both
/// are taken to be playheads as they stand, so that saturation plays no part.
pub proof fn lemma_seek_twice(
    rendered_frames: int,
    frame: int,
    start: int,
    end: int,
    intermission: int,
    direction: PlaybackDirection,
)
    requires
        fits(seek_position(rendered_frames, frame, start, end, intermission, direction)),
        fits(
            seek_position(
                seek_position(rendered_frames, frame, start, end, intermission, direction),
                frame,
                start,
                end,
                intermission,
                direction,
            ),
        ),
    ensures
        ({
            let first = saturate(seek_position(rendered_frames, frame, start, end, intermission, direction));
            let second = saturate(seek_position(first, frame, start, end, intermission, direction));
            second == first <==> seek_keeps_loop(rendered_frames, frame, start, end, intermission, direction)
        }),
{
    let cycle = end - start + intermission;
    let first = seek_position(rendered_frames, frame, start, end, intermission, direction);
    let before = loops_behind(rendered_frames, cycle);
    let after = loops_behind(first, cycle);
    if cycle != 0 && before != after {
        assert(after * cycle != before * cycle) by (nonlinear_arith)
            requires
                cycle != 0,
                before != after,
        ;
    }
}

/// Seeking is idempotent: from a playhead that is not negative, a seek whose
/// offset lies within one cycle, repeated with no time between, changes
/// nothing the second time.
pub proof fn lemma_seek_idempotent(
    rendered_frames: int,
    frame: int,
    start: int,
    end: int,
    intermission: int,
    direction: PlaybackDirection,
)
    requires
        rendered_frames >= 0,
        0 <= seek_offset(frame, start, end, direction) < end - start + intermission,
        fits(seek_position(rendered_frames, frame, start, end, intermission, direction)),
    ensures
        seek_keeps_loop(rendered_frames, frame, start, end, intermission, direction),
        ({
            let first = saturate(seek_position(rendered_frames, frame, start, end, intermission, direction));
            let second = saturate(seek_position(first, frame, start, end, intermission, direction));
            second == first
        }),
{
    let cycle = end - start + intermission;
    let offset = seek_offset(frame, start, end, direction);
    let loops = rendered_frames / cycle;
    let first = loops * cycle + offset;
    lemma_div_bound(rendered_frames, cycle);
    assert(loops >= 0) by (nonlinear_arith)
        requires
            rendered_frames >= 0,
            cycle > 0,
            loops == rendered_frames / cycle,
    ;
    assert(first >= 0) by (nonlinear_arith)
        requires
            loops >= 0,
            cycle > 0,
            offset >= 0,
            first == loops * cycle + offset,
    ;
    vstd::arithmetic::div_mod::lemma_fundamental_div_mod_converse(first, cycle, loops, offset);
}

// ---------------------------------------------------------------------------
// The frame to show
// ---------------------------------------------------------------------------

/// The frame of the composition that a playhead stands for under `settings`:
/// its place within the current loop, bounded to the segment that the settings
/// and the composition share.
///
/// With `start` the effective start and `last` the last position before the
/// effective end, one pass takes `last - start` frame units and one cycle an
/// intermission more. The place within the loop is
/// - without looping, the playhead itself, held at the end of the pass;
/// - with a number of loops, what is left over whole cycles of the playhead,
///   itself held at `start` and that many cycles;
/// - with endless looping, what is left of the playhead over whole cycles.
///
/// Forwards the frame is that far past `start` and at most `last`; in reverse
/// it is that far before `last` and at least `start`. Where a cycle has no
/// extent there is nothing to divide by, and the frame is `last` forwards and
/// `start` in reverse.
pub open spec fn shown_frame(rendered_frames: int, settings: PlaybackSettings, composition: Composition) -> int {
    let start = effective_start(settings, composition);
    let last = effective_end(settings, composition) - 1;
    let length = last - start;
    let cycle = length + settings.intermission;
    if cycle == 0 && !(settings.looping is DoNotLoop) {
        match settings.direction {
            PlaybackDirection::Normal => last,
            PlaybackDirection::Reverse => start,
        }
    } else {
        let within = match settings.looping {
            PlaybackLoopBehavior::DoNotLoop => min_int(rendered_frames, length),
            PlaybackLoopBehavior::Amount(loops) => trunc_rem(min_int(rendered_frames, start + loops * cycle), cycle),
            PlaybackLoopBehavior::Loop => trunc_rem(rendered_frames, cycle),
        };
        match settings.direction {
            PlaybackDirection::Normal => min_int(start + within, last),
            PlaybackDirection::Reverse => max_int(last - within, start),
        }
    }
}

fn remainder(a: i128, b: i128) -> (r: i128)
    requires
        b != 0,
        i128::MIN < a,
        -0x2_0000_0000 <= b <= 0x2_0000_0000,
    ensures
        r == trunc_rem(a as int, b as int),
        -0x2_0000_0000 <= r <= 0x2_0000_0000,
{
    proof {
        lemma_trunc_div_bound(a as int, b as int);
        let n = if a >= 0 { a as int } else { -(a as int) };
        let d = b as int;
        if d > 0 {
            assert(0 <= n % d < d) by (nonlinear_arith)
                requires
                    d > 0,
            ;
        } else {
            assert(0 <= n % d < -d) by (nonlinear_arith)
                requires
                    d < 0,
            ;
        }
    }
    a % b
}

fn place_within_loop(rendered: i128, start: i128, length: i128, cycle: i128, looping: PlaybackLoopBehavior) -> (within: i128)
    requires
        i64::MIN <= rendered <= i64::MAX,
        i32::MIN <= start <= i32::MAX,
        -0x1_0000_0000 <= length <= 0x1_0000_0000,
        -0x1_0000_0000 <= cycle <= 0x2_0000_0000,
        cycle != 0 || looping is DoNotLoop,
    ensures
        within == match looping {
            PlaybackLoopBehavior::DoNotLoop => min_int(rendered as int, length as int),
            PlaybackLoopBehavior::Amount(loops) => trunc_rem(
                min_int(rendered as int, start + loops * cycle),
                cycle as int,
            ),
            PlaybackLoopBehavior::Loop => trunc_rem(rendered as int, cycle as int),
        },
        i64::MIN <= within <= i64::MAX,
{
    match looping {
        PlaybackLoopBehavior::DoNotLoop => {
            if rendered < length {
                rendered
            } else {
                length
            }
        },
        PlaybackLoopBehavior::Amount(loops) => {
            proof {
                lemma_product_bound(loops as int, cycle as int, 0x1_0000_0000_0000_0000, 0x2_0000_0000);
            }
            let limit: i128 = start + loops as i128 * cycle;
            if rendered < limit {
                remainder(rendered, cycle)
            } else {
                remainder(limit, cycle)
            }
        },
        PlaybackLoopBehavior::Loop => remainder(rendered, cycle),
    }
}

/// Computes the frame that a playhead stands for under `settings`.
pub fn calculate_playhead(rendered_frames: i64, settings: &PlaybackSettings, composition: &Composition) -> (frame: i64)
    ensures
        frame == saturate(shown_frame(rendered_frames as int, *settings, *composition)),
{
    let start: i128 = if settings.segments.start > composition.frame_start() {
        settings.segments.start as i128
    } else {
        composition.frame_start() as i128
    };
    let end: i128 = if settings.segments.end < composition.frame_end() {
        settings.segments.end as i128
    } else {
        composition.frame_end() as i128
    };
    let last: i128 = end - 1;
    let length: i128 = last - start;
    let cycle: i128 = length + settings.intermission as i128;
    let endless: bool = match settings.looping {
        PlaybackLoopBehavior::DoNotLoop => false,
        _ => true,
    };
    if cycle == 0 && endless {
        return match settings.direction {
            PlaybackDirection::Normal => saturate_i64(last),
            PlaybackDirection::Reverse => saturate_i64(start),
        };
    }
    let within: i128 = place_within_loop(rendered_frames as i128, start, length, cycle, settings.looping);
    match settings.direction {
        PlaybackDirection::Normal => {
            let forward: i128 = start + within;
            saturate_i64(if forward < last { forward } else { last })
        },
        PlaybackDirection::Reverse => {
            let backward: i128 = last - within;
            saturate_i64(if backward > start { backward } else { start })
        },
    }
}

// ---------------------------------------------------------------------------
// Hand-over between states
// ---------------------------------------------------------------------------

/// Where a playhead stands after a change of state that keeps its asset and
/// asks for no reset.
///
/// `playhead` is the frame that was showing under the old settings. Turning
/// from forwards to reverse mirrors it about the end of the composition;
/// turning from reverse to forwards keeps it. Where the direction stays, the
/// loops behind `rendered_frames` are dropped. The result stays below the end
/// of the composition wherever the direction is not turned forwards.
pub open spec fn handed_over(
    rendered_frames: int,
    playhead: int,
    composition: Composition,
    current: PlaybackDirection,
    target: PlaybackDirection,
) -> int {
    match (current, target) {
        (PlaybackDirection::Normal, PlaybackDirection::Reverse) => min_int(
            composition.end() - playhead,
            composition.end() - 1,
        ),
        (PlaybackDirection::Reverse, PlaybackDirection::Normal) => playhead,
        _ => min_int(trunc_rem(rendered_frames, composition.length()), composition.end() - 1),
    }
}

/// Carries a playhead over a change of state that keeps its asset and asks
/// for no reset.
pub fn hand_over_playhead(
    rendered_frames: i64,
    playhead: i64,
    composition: &Composition,
    current: PlaybackDirection,
    target: PlaybackDirection,
) -> (carried: i64)
    ensures
        carried == saturate(handed_over(rendered_frames as int, playhead as int, *composition, current, target)),
{
    let end: i128 = composition.frame_end() as i128;
    let length: i128 = end - composition.frame_start() as i128;
    let below_end: i128 = end - 1;
    match (current, target) {
        (PlaybackDirection::Normal, PlaybackDirection::Reverse) => {
            let mirrored: i128 = end - playhead as i128;
            saturate_i64(if mirrored < below_end { mirrored } else { below_end })
        },
        (PlaybackDirection::Reverse, PlaybackDirection::Normal) => playhead,
        _ => {
            proof {
                lemma_trunc_div_bound(rendered_frames as int, length as int);
            }
            let within: i128 = rendered_frames as i128 % length;
            saturate_i64(if within < below_end { within } else { below_end })
        },
    }
}

/// Whether a playhead has reached the end of a pass and of the intermission
/// that follows it.
pub open spec fn pass_complete(rendered_frames: int, composition: Composition, intermission: int) -> bool {
    rendered_frames >= composition.length() + intermission
}

/// Tells whether a playhead has reached the end of a pass and of the
/// intermission that follows it.
pub fn is_complete(rendered_frames: i64, composition: &Composition, intermission: u32) -> (complete: bool)
    ensures
        complete == pass_complete(rendered_frames as int, *composition, intermission as int),
{
    let length: i128 = composition.frame_end() as i128 - composition.frame_start() as i128;
    rendered_frames as i128 >= length + intermission as i128
}

} // verus!
