use vstd::prelude::*;

verus! {

/// The explicit first/previous/play/next/last timeline controls.
#[derive(Clone, Copy, Debug, PartialEq, Eq, Structural)]
pub enum PlaybackAction {
    First,
    Previous,
    PlayPause,
    Next,
    Last,
}

/// What a press on a timeline control does.
#[derive(Clone, Copy, Debug, PartialEq, Eq, Structural)]
pub enum PlaybackEffect {
    /// The control is disabled; nothing changes.
    Ignored,
    /// Playback was started or paused; `playing` is the new state.
    Toggled { playing: bool },
    /// Playback stops and the timeline shows `frame`, in `0..=last_frame`.
    Moved { frame: usize, last_frame: usize },
}

/// Whether a control can be used with `count` frames while `frame` is shown.
pub open spec fn spec_enabled(action: PlaybackAction, count: nat, frame: nat, playing: bool) -> bool {
    count != 0 && match action {
        PlaybackAction::PlayPause => count > 1 || playing,
        PlaybackAction::First | PlaybackAction::Previous => frame > 0 || playing,
        PlaybackAction::Last | PlaybackAction::Next => frame < count - 1 || playing,
    }
}

/// The frame a step control moves to from `frame` (in `0..count`).
pub open spec fn step_target(action: PlaybackAction, count: nat, frame: nat) -> nat {
    match action {
        PlaybackAction::First => 0,
        PlaybackAction::Previous => if frame == 0 { 0 } else { (frame - 1) as nat },
        PlaybackAction::Next => if frame + 1 < count - 1 { frame + 1 } else { (count - 1) as nat },
        PlaybackAction::Last => (count - 1) as nat,
        PlaybackAction::PlayPause => frame,
    }
}

/// The shown frame, clamped to the timeline.
pub open spec fn clamp_frame(slider_frame: nat, count: nat) -> nat {
    if count == 0 {
        0
    } else if slider_frame < count - 1 {
        slider_frame
    } else {
        (count - 1) as nat
    }
}

/// Whether the control is available (used to paint and disable buttons).
pub fn enabled(action: PlaybackAction, count: usize, frame: usize, playing: bool) -> (available: bool)
    ensures
        available == spec_enabled(action, count as nat, frame as nat, playing),
{
    if count == 0 {
        return false;
    }
    match action {
        PlaybackAction::PlayPause => count > 1 || playing,
        PlaybackAction::First | PlaybackAction::Previous => frame > 0 || playing,
        PlaybackAction::Last | PlaybackAction::Next => frame < count - 1 || playing,
    }
}

/// Handles a press on a timeline control. `slider_frame` is the rounded
/// position of the result-step slider; it is clamped to the `count` frames
/// of the active timeline. Stepping always pauses playback.
pub fn activate(action: PlaybackAction, count: usize, slider_frame: usize, playing: bool) -> (effect: PlaybackEffect)
    ensures
        ({
            let frame = clamp_frame(slider_frame as nat, count as nat);
            if !spec_enabled(action, count as nat, frame, playing) {
                effect == PlaybackEffect::Ignored
            } else if action == PlaybackAction::PlayPause {
                effect == PlaybackEffect::Toggled { playing: !playing }
            } else {
                &&& effect is Moved
                &&& effect->frame == step_target(action, count as nat, frame)
                &&& effect->last_frame == count - 1
            }
        }),
{
    let last = if count == 0 { 0 } else { count - 1 };
    let frame = if slider_frame < last { slider_frame } else { last };
    if !enabled(action, count, frame, playing) {
        return PlaybackEffect::Ignored;
    }
    let target = match action {
        PlaybackAction::PlayPause => {
            return PlaybackEffect::Toggled { playing: !playing };
        },
        PlaybackAction::First => 0,
        PlaybackAction::Previous => if frame == 0 { 0 } else { frame - 1 },
        PlaybackAction::Next => if frame + 1 < last { frame + 1 } else { last },
        PlaybackAction::Last => last,
    };
    PlaybackEffect::Moved { frame: target, last_frame: last }
}

/// The caption of the play/pause control.
pub fn play_label(playing: bool) -> (label: &'static str)
    ensures
        label@ == (if playing { "Pause"@ } else { "Play"@ }),
{
    if playing {
        "Pause"
    } else {
        "Play"
    }
}

/// A step never leaves the timeline: every target frame is a valid frame.
pub proof fn lemma_step_stays_on_timeline(action: PlaybackAction, count: nat, frame: nat)
    requires
        count > 0,
        frame < count,
    ensures
        step_target(action, count, frame) < count,
{
}

/// Next then Previous returns to the frame where the walk started, away from
/// the last frame; Previous then Next does the same away from the first frame.
pub proof fn lemma_next_previous_round_trip(count: nat, frame: nat)
    requires
        frame < count,
    ensures
        frame + 1 < count ==> step_target(
            PlaybackAction::Previous,
            count,
            step_target(PlaybackAction::Next, count, frame),
        ) == frame,
        frame > 0 ==> step_target(
            PlaybackAction::Next,
            count,
            step_target(PlaybackAction::Previous, count, frame),
        ) == frame,
{
}

} // verus!
