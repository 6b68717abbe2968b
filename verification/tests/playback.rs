use pdcst::models::{DownloadStatus, Episode};
use pdcst::playback::{
    checkpoint_due, play_source, skip_plan, toggle_action, PlaySource, SkipPlan, ToggleAction,
};

#[test]
fn play_pause_decides_by_situation() {
    assert_eq!(toggle_action(true, true, true, true), ToggleAction::PauseAndSave);
    assert_eq!(toggle_action(false, true, true, true), ToggleAction::Reopen);
    assert_eq!(toggle_action(false, true, true, false), ToggleAction::Nothing);
    assert_eq!(toggle_action(false, false, true, false), ToggleAction::Resume);
    assert_eq!(toggle_action(false, false, false, true), ToggleAction::Load);
    assert_eq!(toggle_action(false, false, false, false), ToggleAction::Nothing);
}

#[test]
fn downloaded_episodes_play_from_disk() {
    let mut ep = Episode::new(1, "E".to_string(), "https://x/e.mp3".to_string(), "g".to_string(), 0);
    assert_eq!(play_source(&ep), Ok(PlaySource::Stream("https://x/e.mp3".to_string())));
    ep.download_status = DownloadStatus::Downloaded;
    assert_eq!(play_source(&ep), Err("Downloaded episode missing local_path".to_string()));
    ep.local_path = Some("/data/e.mp3".to_string());
    assert_eq!(play_source(&ep), Ok(PlaySource::File("/data/e.mp3".to_string())));
}

#[test]
fn skipping_marks_only_what_is_playing() {
    assert_eq!(skip_plan(Some(4)), SkipPlan::AdvancePast(4));
    assert_eq!(skip_plan(None), SkipPlan::TakeHead);
}

#[test]
fn checkpoints_are_throttled() {
    assert!(checkpoint_due(None, 5, 10));
    assert!(!checkpoint_due(Some(1_000), 10_999, 10));
    assert!(checkpoint_due(Some(1_000), 11_000, 10));
    assert!(checkpoint_due(Some(1_000), 2_000, 0), "an interval of 0 means every second");
    assert!(!checkpoint_due(Some(1_000), 1_999, 0));
}
