use pdcst::advance::{AdvanceInput, AutoAdvance, BusEvent, Notice, Request};
use pdcst::models::{DownloadStatus, Episode};

fn episode(status: DownloadStatus) -> Episode {
    let mut ep = Episode::new(1, "E".to_string(), "https://x/e.mp3".to_string(), "g".to_string(), 0);
    ep.download_status = status;
    ep
}

#[test]
fn a_completion_marks_played_removes_and_plays_the_next() {
    let (s, n, r) = AutoAdvance::Listening.step(AdvanceInput::Bus(BusEvent::Completed { episode_id: 10 }), false);
    assert_eq!(s, AutoAdvance::MarkingPlayed { completed: 10 });
    assert!(n.is_none());
    assert!(matches!(r, Request::MarkPlayed(10)));
    let (s, n, r) = s.step(AdvanceInput::MarkedPlayed(true), false);
    assert_eq!(n, Some(Notice::EpisodeMarkedPlayed(10)));
    assert_eq!(s, AutoAdvance::RemovingCompleted);
    assert!(matches!(r, Request::RemoveFromQueue(10)));
    let (s, _, r) = s.step(AdvanceInput::Removed(false), false);
    assert_eq!(s, AutoAdvance::TakingNext);
    assert!(matches!(r, Request::TakeNext));
    let (s, _, r) = s.step(AdvanceInput::NextInQueue(Ok(Some(11))), false);
    assert!(matches!(r, Request::FetchEpisode(11)));
    let ep = episode(DownloadStatus::NotDownloaded);
    let (s, _, r) = s.step(AdvanceInput::Fetched(Ok(Some(ep.clone()))), false);
    assert_eq!(s, AutoAdvance::Starting { episode_id: 11 });
    match r {
        Request::Play(p) => assert_eq!(p.id, ep.id),
        _ => panic!("expected a play request"),
    }
    let (s, n, r) = s.step(AdvanceInput::PlayStarted(Ok(())), false);
    assert_eq!(s, AutoAdvance::Listening);
    assert_eq!(n, Some(Notice::QueueAdvanced(11)));
    assert!(matches!(r, Request::Receive));
}

#[test]
fn delete_on_finish_reclaims_only_downloads() {
    let s = AutoAdvance::MarkingPlayed { completed: 3 };
    let (s, n, r) = s.step(AdvanceInput::MarkedPlayed(false), true);
    assert!(n.is_none());
    assert_eq!(s, AutoAdvance::CheckingDownload { completed: 3 });
    assert!(matches!(r, Request::FetchEpisode(3)));
    let (s2, _, r2) = s.step(AdvanceInput::Fetched(Ok(Some(episode(DownloadStatus::Downloaded)))), true);
    assert_eq!(s2, AutoAdvance::DeletingDownload { completed: 3 });
    assert!(matches!(r2, Request::DeleteDownload(_)));
    let (s3, _, r3) = s2.step(AdvanceInput::DownloadDeleted, true);
    assert_eq!(s3, AutoAdvance::RemovingCompleted);
    assert!(matches!(r3, Request::RemoveFromQueue(3)));
    let (s4, _, r4) = s.step(AdvanceInput::Fetched(Ok(Some(episode(DownloadStatus::Downloading)))), true);
    assert_eq!(s4, AutoAdvance::RemovingCompleted);
    assert!(matches!(r4, Request::RemoveFromQueue(3)));
}

#[test]
fn failures_are_published_and_skipped() {
    let s = AutoAdvance::Starting { episode_id: 8 };
    let (s, n, r) = s.step(AdvanceInput::PlayStarted(Err("decoder".to_string())), false);
    assert_eq!(s, AutoAdvance::RemovingFailed { episode_id: 8 });
    assert_eq!(n, Some(Notice::PlaybackError("Auto-play failed: Failed to play: decoder".to_string())));
    assert!(matches!(r, Request::RemoveFromQueue(8)));
    let (s2, _, r2) = s.step(AdvanceInput::Removed(true), false);
    assert_eq!(s2, AutoAdvance::TakingNext);
    assert!(matches!(r2, Request::TakeNext));
    let (s3, _, r3) = s.step(AdvanceInput::Removed(false), false);
    assert_eq!(s3, AutoAdvance::Listening);
    assert!(matches!(r3, Request::Receive));

    let id: u128 = 0x67e55044_10b1_426f_9247_bb680e5fe0c8;
    let (_, n, _) = AutoAdvance::LoadingNext { episode_id: id }.step(AdvanceInput::Fetched(Ok(None)), false);
    assert_eq!(
        n,
        Some(Notice::PlaybackError(
            "Auto-play failed: Episode 67e55044-10b1-426f-9247-bb680e5fe0c8 not found in database".to_string()
        ))
    );
    let (_, n, _) = AutoAdvance::LoadingNext { episode_id: 1 }.step(AdvanceInput::Fetched(Err("locked".to_string())), false);
    assert_eq!(n, Some(Notice::PlaybackError("Auto-play failed: Database error: locked".to_string())));
    let (s, n, r) = AutoAdvance::TakingNext.step(AdvanceInput::NextInQueue(Err("gone".to_string())), false);
    assert_eq!(s, AutoAdvance::Listening);
    assert_eq!(n, Some(Notice::PlaybackError("Queue error: gone".to_string())));
    assert!(matches!(r, Request::Receive));
    let (s, n, _) = AutoAdvance::TakingNext.step(AdvanceInput::NextInQueue(Ok(None)), false);
    assert_eq!(s, AutoAdvance::Listening);
    assert!(n.is_none());
}

#[test]
fn the_bus_closing_ends_the_task() {
    let (s, _, r) = AutoAdvance::Listening.step(AdvanceInput::Bus(BusEvent::Lagged), false);
    assert_eq!(s, AutoAdvance::Listening);
    assert!(matches!(r, Request::Receive));
    let (s, _, r) = AutoAdvance::Listening.step(AdvanceInput::Bus(BusEvent::Closed), false);
    assert_eq!(s, AutoAdvance::Stopped);
    assert!(matches!(r, Request::Stop));
    let (s, _, r) = s.step(AdvanceInput::Bus(BusEvent::Completed { episode_id: 1 }), false);
    assert_eq!(s, AutoAdvance::Stopped);
    assert!(matches!(r, Request::Stop));
    // An answer that fits no pending request sends the task back to listening.
    let (s, _, r) = AutoAdvance::TakingNext.step(AdvanceInput::DownloadDeleted, false);
    assert_eq!(s, AutoAdvance::Listening);
    assert!(matches!(r, Request::Receive));
}
