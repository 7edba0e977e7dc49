use muro_core::playback::{
    handle_media_event, should_emit_position, str_eq, update_media_metadata, AudioThreadState,
    CurrentTrack, MediaKeyEvent, PlaybackCommand, PlaybackState, SeekModePreference,
    DEFAULT_VOLUME_MILLI,
};
use muro_core::seconds_to_millis;
use muro_core::source::{DecodeBuffer, PacketOutcome};

fn track(title: &str) -> CurrentTrack {
    CurrentTrack {
        id: String::from("id-1"),
        title: String::from(title),
        artist: String::from("Artist"),
        album: String::from("Album"),
        source_path: String::from("/music/file.flac"),
    }
}

#[test]
fn fresh_engine_is_idle() {
    let engine = AudioThreadState::default();
    assert!(engine.is_well_formed());
    let snap = engine.get_state(0);
    assert!(!snap.is_playing);
    assert_eq!(snap.current_position_ms, 0);
    assert_eq!(snap.duration_ms, 0);
    assert_eq!(snap.volume_milli, DEFAULT_VOLUME_MILLI);
    assert!(snap.current_track.is_none());
}

#[test]
fn load_from_idle_starts_at_zero() {
    let mut engine = AudioThreadState::default();
    engine.play_file(track("A"), 180_000, 50);
    let snap = engine.get_state(50);
    assert!(snap.is_playing);
    assert_eq!(snap.current_position_ms, 0);
    assert_eq!(snap.duration_ms, 180_000);
    assert_eq!(snap.current_track.as_ref().unwrap().title, "A");
}

#[test]
fn position_advances_and_toggle_freezes_and_resumes() {
    // Play a 180 s file, poll after one second, pause, then resume:
    // the position freezes and later advances from the frozen value.
    let mut engine = AudioThreadState::default();
    engine.play_file(track("A"), 180_000, 0);
    let snap = engine.get_state(1_000);
    assert_eq!(snap.current_position_ms, 1_000);

    let playing = engine.toggle(1_000);
    assert!(!playing);
    let frozen = engine.get_state(5_000);
    assert!(!frozen.is_playing);
    assert_eq!(frozen.current_position_ms, 1_000);

    let playing_again = engine.toggle(5_000);
    assert!(playing_again);
    let resumed = engine.get_state(6_500);
    assert!(resumed.is_playing);
    assert_eq!(resumed.current_position_ms, 2_500);
}

#[test]
fn pause_while_paused_changes_nothing() {
    let mut engine = AudioThreadState::default();
    engine.play_file(track("A"), 60_000, 0);
    engine.pause(10_000);
    let before = engine.get_state(20_000);
    engine.pause(30_000);
    let after = engine.get_state(40_000);
    assert_eq!(before.current_position_ms, after.current_position_ms);
    assert_eq!(engine.position_base_ms, 10_000);
}

#[test]
fn seek_is_reported_and_keeps_play_status() {
    let mut engine = AudioThreadState::default();
    engine.play_file(track("A"), 180_000, 0);
    engine.pause(2_000);
    let target = engine.seek_target(30_000);
    assert_eq!(target, 30_000);
    engine.apply_seek(target, 2_000);
    let snap = engine.get_state(9_000);
    assert!(!snap.is_playing);
    assert_eq!(snap.current_position_ms, 30_000);
}

#[test]
fn seek_clamps_to_duration() {
    // Seeking to 9999 s on a 200 s track pins to the end.
    let mut engine = AudioThreadState::default();
    engine.play_file(track("A"), 200_000, 0);
    let target = engine.seek_target(seconds_to_millis(9_999));
    assert_eq!(target, 200_000);
    engine.apply_seek(target, 0);
    let snap = engine.get_state(0);
    assert_eq!(snap.current_position_ms, 200_000);
    assert!(snap.is_playing);
}

#[test]
fn failed_seek_leaves_playback_paused_in_place() {
    let mut engine = AudioThreadState::default();
    engine.play_file(track("A"), 100_000, 0);
    engine.seek_failed(4_000);
    let snap = engine.get_state(9_000);
    assert!(!snap.is_playing);
    assert_eq!(snap.current_position_ms, 4_000);
}

#[test]
fn stop_resets_everything_but_volume() {
    let mut engine = AudioThreadState::default();
    engine.set_volume(437);
    engine.play_file(track("A"), 90_000, 0);
    engine.apply_seek(5_000, 0);
    engine.stop();
    let snap = engine.get_state(10_000);
    assert!(!snap.is_playing);
    assert_eq!(snap.current_position_ms, 0);
    assert_eq!(snap.duration_ms, 0);
    assert!(snap.current_track.is_none());
    assert_eq!(snap.volume_milli, 437);
}

#[test]
fn volume_is_clamped_with_and_without_a_track() {
    let mut engine = AudioThreadState::default();
    assert_eq!(engine.set_volume(1_500), 1_000);
    assert_eq!(engine.get_state(0).volume_milli, 1_000);
    assert_eq!(engine.set_volume(-10), 0);
    assert_eq!(engine.get_state(0).volume_milli, 0);
    engine.play_file(track("A"), 10_000, 0);
    assert_eq!(engine.set_volume(640), 640);
    assert_eq!(engine.get_state(0).volume_milli, 640);
}

#[test]
fn natural_completion_signals_exactly_once() {
    let mut engine = AudioThreadState::default();
    engine.play_file(track("A"), 5_000, 0);
    assert!(!engine.on_tick(false));
    assert!(engine.on_tick(true));
    let snap = engine.get_state(99_000);
    assert!(!snap.is_playing);
    assert_eq!(snap.current_position_ms, 5_000);
    assert_eq!(snap.current_position_ms, snap.duration_ms);
    assert!(!engine.on_tick(true));
    assert!(!engine.on_tick(true));
}

#[test]
fn finished_track_resumes_from_its_end_on_toggle() {
    let mut engine = AudioThreadState::default();
    engine.play_file(track("A"), 5_000, 0);
    engine.on_tick(true);
    let playing = engine.toggle(60_000);
    assert!(playing);
    assert_eq!(engine.get_state(60_000).current_position_ms, 5_000);
}

#[test]
fn simulated_source_exhaustion_completes_the_track() {
    // A source that exhausts after three samples drives the engine to
    // paused-at-end with exactly one completion signal.
    let mut engine = AudioThreadState::default();
    engine.play_file(track("A"), 3_000, 0);
    let mut buf = DecodeBuffer::new(1, 1);
    buf.absorb(PacketOutcome::Samples(vec![1, 2, 3]));
    buf.absorb(PacketOutcome::EndOfStream);
    let mut ended_signals = 0;
    let mut now = 0;
    while engine.get_state(now).is_playing {
        now += 1_000;
        let _ = buf.pop_sample();
        let sink_empty = buf.buffered() == 0 && buf.is_exhausted;
        if engine.on_tick(sink_empty) {
            ended_signals += 1;
        }
    }
    assert_eq!(ended_signals, 1);
    let snap = engine.get_state(now);
    assert!(!snap.is_playing);
    assert_eq!(snap.current_position_ms, snap.duration_ms);
    assert!(!engine.on_tick(true));
}

#[test]
fn is_finished_without_a_track() {
    let mut engine = AudioThreadState::default();
    assert!(engine.is_finished(false));
    assert!(engine.is_finished(true));
    engine.play_file(track("A"), 5_000, 0);
    assert!(!engine.is_finished(false));
    assert!(engine.is_finished(true));
}

#[test]
fn position_updates_are_throttled() {
    assert!(should_emit_position(0, 100));
    assert!(should_emit_position(0, 5_000));
    assert!(!should_emit_position(0, 99));
    assert!(!should_emit_position(1_000, 1_050));
}

#[test]
fn seek_mode_parses_and_round_trips() {
    assert_eq!(SeekModePreference::from_str("accurate"), SeekModePreference::Accurate);
    assert_eq!(SeekModePreference::from_str("fast"), SeekModePreference::Fast);
    assert_eq!(SeekModePreference::from_str("anything else"), SeekModePreference::Fast);
    for mode in [SeekModePreference::Fast, SeekModePreference::Accurate] {
        assert_eq!(SeekModePreference::from_flag(mode.to_flag()), mode);
    }
    assert_eq!(SeekModePreference::from_flag(7), SeekModePreference::Fast);
}

#[test]
fn set_seek_mode_affects_only_the_preference() {
    let mut engine = AudioThreadState::default();
    engine.play_file(track("A"), 10_000, 0);
    let before = engine.get_state(500);
    engine.set_seek_mode(SeekModePreference::Accurate);
    assert_eq!(engine.seek_mode, SeekModePreference::Accurate);
    let after = engine.get_state(500);
    assert_eq!(before.is_playing, after.is_playing);
    assert_eq!(before.current_position_ms, after.current_position_ms);
    assert_eq!(before.duration_ms, after.duration_ms);
}

#[test]
fn media_keys_map_to_commands_and_notices() {
    let d = handle_media_event(MediaKeyEvent::Play);
    assert!(matches!(d.command, Some(PlaybackCommand::Play)));
    assert_eq!(d.notice.as_deref(), Some("play"));

    let d = handle_media_event(MediaKeyEvent::Pause);
    assert!(matches!(d.command, Some(PlaybackCommand::Pause)));
    assert_eq!(d.notice.as_deref(), Some("pause"));

    let d = handle_media_event(MediaKeyEvent::Toggle);
    assert!(matches!(d.command, Some(PlaybackCommand::Toggle)));
    assert_eq!(d.notice.as_deref(), Some("toggle"));

    let d = handle_media_event(MediaKeyEvent::Stop);
    assert!(matches!(d.command, Some(PlaybackCommand::Stop)));
    assert_eq!(d.notice.as_deref(), Some("stop"));

    let d = handle_media_event(MediaKeyEvent::Next);
    assert!(d.command.is_none());
    assert_eq!(d.notice.as_deref(), Some("next"));

    let d = handle_media_event(MediaKeyEvent::Previous);
    assert!(d.command.is_none());
    assert_eq!(d.notice.as_deref(), Some("previous"));

    let d = handle_media_event(MediaKeyEvent::Other);
    assert!(d.command.is_none());
    assert!(d.notice.is_none());
}

#[test]
fn str_eq_agrees_with_equality() {
    assert!(str_eq("", ""));
    assert!(str_eq("abc", "abc"));
    assert!(!str_eq("abc", "abd"));
    assert!(!str_eq("abc", "abcd"));
    assert!(str_eq("Björk", "Björk"));
}

#[test]
fn default_snapshot_is_stopped() {
    let snap = PlaybackState::default();
    assert!(!snap.is_playing);
    assert_eq!(snap.current_position_ms, 0);
    assert_eq!(snap.duration_ms, 0);
    assert_eq!(snap.volume_milli, DEFAULT_VOLUME_MILLI);
    assert!(snap.current_track.is_none());
}

#[test]
fn metadata_update_is_accepted() {
    update_media_metadata("Title", "Artist", "Album");
}

#[test]
fn clock_running_backwards_does_not_rewind() {
    let mut engine = AudioThreadState::default();
    engine.play_file(track("A"), 60_000, 10_000);
    let snap = engine.get_state(9_000);
    assert_eq!(snap.current_position_ms, 0);
}
