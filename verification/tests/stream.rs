use pdcst::stream::{
    prebuffer_status, range_header, read_step, resume_action, run_dry_event, seek_target, stream_extension,
    PrebufferStatus, ReadStep, ResumeAction, RunDryEnd, SeekBeforeStart, SeekOrigin,
    PREBUFFER_BYTES,
};

#[test]
fn stream_extension_from_url_path() {
    assert_eq!(stream_extension("https://x.com/ep/1.MP3?token=a.b"), "mp3");
    assert_eq!(stream_extension("https://x.com/ep/1.m4a#t=10"), "m4a");
    assert_eq!(stream_extension("https://x.com/ep/audio.OGG"), "ogg");
    assert_eq!(stream_extension("https://x.com/ep/noext"), "mp3");
    assert_eq!(stream_extension("https://x.com/ep.d/file"), "mp3");
    assert_eq!(stream_extension("https://x.com/a.toolong"), "mp3");
    assert_eq!(stream_extension("https://x.com/a.m-4"), "mp3");
    assert_eq!(stream_extension("https://x.com/a."), "mp3");
    assert_eq!(stream_extension(".aac"), "aac");
}

#[test]
fn prebuffer_waits_for_enough_bytes() {
    assert_eq!(prebuffer_status(true, true, 0, 0), PrebufferStatus::Failed);
    assert_eq!(prebuffer_status(false, true, 0, 0), PrebufferStatus::Ready);
    assert_eq!(prebuffer_status(false, false, 1000, 0), PrebufferStatus::Wait);
    assert_eq!(prebuffer_status(false, false, PREBUFFER_BYTES, 0), PrebufferStatus::Ready);
    // A file smaller than the prebuffer only needs itself.
    assert_eq!(prebuffer_status(false, false, 1000, 1000), PrebufferStatus::Ready);
    assert_eq!(prebuffer_status(false, false, 999, 1000), PrebufferStatus::Wait);
}

#[test]
fn reads_stop_at_the_download_frontier() {
    assert_eq!(read_step(0, 8, false, false, 16), ReadStep::Read(8));
    assert_eq!(read_step(4, 8, false, false, 2), ReadStep::Read(2));
    assert_eq!(read_step(8, 8, false, false, 16), ReadStep::Wait);
    assert_eq!(read_step(8, 8, true, false, 16), ReadStep::EndOfFile);
    assert_eq!(read_step(7, 7, false, true, 8), ReadStep::Failed);
    // Data still available is read even after a failure.
    assert_eq!(read_step(3, 7, false, true, 8), ReadStep::Read(4));
}

#[test]
fn seeks_land_where_asked_or_fail_before_the_start() {
    assert_eq!(seek_target(5, SeekOrigin::Start(100), 0, 50), Ok(100));
    assert_eq!(seek_target(5, SeekOrigin::Start(u64::MAX), 0, 50), Err(SeekBeforeStart));
    assert_eq!(seek_target(5, SeekOrigin::Current(-3), 0, 50), Ok(2));
    assert_eq!(seek_target(5, SeekOrigin::Current(-6), 0, 50), Err(SeekBeforeStart));
    // Relative to the final size when known, else to the frontier.
    assert_eq!(seek_target(0, SeekOrigin::End(-10), 1000, 50), Ok(990));
    assert_eq!(seek_target(0, SeekOrigin::End(-10), 0, 50), Ok(40));
    assert_eq!(seek_target(0, SeekOrigin::End(-60), 0, 50), Err(SeekBeforeStart));
}

#[test]
fn range_replies_choose_how_to_continue() {
    assert_eq!(resume_action(100, 206), ResumeAction::Append);
    assert_eq!(resume_action(100, 416), ResumeAction::AlreadyComplete);
    assert_eq!(resume_action(100, 200), ResumeAction::Restart);
    assert_eq!(resume_action(0, 200), ResumeAction::Restart);
    assert_eq!(resume_action(0, 206), ResumeAction::Restart);
    assert_eq!(resume_action(0, 416), ResumeAction::HttpError);
    assert_eq!(resume_action(0, 404), ResumeAction::HttpError);
}

#[test]
fn run_dry_event_distinguishes_failure_from_completion() {
    let id: u128 = 0x9f1c_22aa_0000_0000_0000_0000_0000_0042;
    match run_dry_event(id, false) {
        RunDryEnd::Completed { episode_id } => assert_eq!(episode_id, id),
        other => panic!("expected Completed, got {other:?}"),
    }
    match run_dry_event(id, true) {
        RunDryEnd::Interrupted { episode_id } => assert_eq!(episode_id, id),
        other => panic!("expected Interrupted, got {other:?}"),
    }
}

#[test]
fn resumed_downloads_ask_for_the_rest() {
    assert_eq!(range_header(0), None);
    assert_eq!(range_header(1_048_576).as_deref(), Some("bytes=1048576-"));
}
