use fem_ui::playback::{PlaybackAction, PlaybackEffect, activate, enabled, play_label};

/// The timeline shown by the controls: the slider frame and the play state.
struct Timeline {
    count: usize,
    frame: usize,
    playing: bool,
}

impl Timeline {
    fn click(&mut self, action: PlaybackAction) {
        match activate(action, self.count, self.frame, self.playing) {
            PlaybackEffect::Ignored => {}
            PlaybackEffect::Toggled { playing } => self.playing = playing,
            PlaybackEffect::Moved { frame, .. } => {
                self.frame = frame;
                self.playing = false;
            }
        }
    }
}

#[test]
fn next_previous_walk_all_six_sparse_frames_and_end_reaches_last() {
    let mut t = Timeline { count: 6, frame: 0, playing: false };
    for expected in 1..6 {
        t.click(PlaybackAction::Next);
        assert_eq!(t.frame, expected);
    }
    t.click(PlaybackAction::Next);
    assert_eq!(t.frame, 5);
    for expected in (0..5).rev() {
        t.click(PlaybackAction::Previous);
        assert_eq!(t.frame, expected);
    }
    t.click(PlaybackAction::Last);
    assert_eq!(t.frame, 5);
    t.click(PlaybackAction::First);
    assert_eq!(t.frame, 0);
}

#[test]
fn manual_step_stops_playback_and_empty_or_single_frame_cannot_play() {
    let mut t = Timeline { count: 6, frame: 0, playing: false };
    t.click(PlaybackAction::PlayPause);
    assert!(t.playing);
    t.click(PlaybackAction::Next);
    assert!(!t.playing);
    assert_eq!(t.frame, 1);
    for count in [0, 1] {
        let mut t = Timeline { count, frame: 0, playing: false };
        t.click(PlaybackAction::PlayPause);
        t.click(PlaybackAction::Next);
        t.click(PlaybackAction::Last);
        assert!(!t.playing);
        assert_eq!(t.frame, 0);
    }
}

#[test]
fn slider_beyond_the_timeline_is_clamped_and_controls_report_availability() {
    assert_eq!(
        activate(PlaybackAction::Previous, 3, 10, false),
        PlaybackEffect::Moved { frame: 1, last_frame: 2 }
    );
    assert!(!enabled(PlaybackAction::First, 3, 0, false));
    assert!(enabled(PlaybackAction::First, 3, 0, true));
    assert!(!enabled(PlaybackAction::PlayPause, 0, 0, true));
    assert_eq!(play_label(true), "Pause");
    assert_eq!(play_label(false), "Play");
}
