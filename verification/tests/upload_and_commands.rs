use umbrella::command::{ping_reply, ReplayAction, ReplayCommand, ReplayEvent, ReplayStage};
use umbrella::upload::{check_upload, UploadRefusal, MAX_REPLAY_BYTES};

fn upload(name: &str, size: u64) -> ReplayEvent {
    ReplayEvent::Upload { file_name: name.to_string(), size }
}

/// Feeds `events` to a fresh command and collects the actions it asks for.
fn run(events: Vec<ReplayEvent>) -> (Vec<ReplayAction>, ReplayStage) {
    let mut command = ReplayCommand::new();
    let mut actions = Vec::new();
    for event in events {
        assert!(command.accepts(&event));
        actions.push(command.step(event));
    }
    (actions, command.stage())
}

#[test]
fn upload_limit_is_fifty_mebibytes() {
    assert_eq!(MAX_REPLAY_BYTES, 52_428_800);
}

#[test]
fn accepts_replay_within_limit() {
    assert_eq!(check_upload("battle.wowsreplay", 1024), Ok(()));
    assert_eq!(check_upload("battle.wowsreplay", MAX_REPLAY_BYTES), Ok(()));
    assert_eq!(check_upload(".wowsreplay", 0), Ok(()));
    assert_eq!(check_upload("größe.wowsreplay", 10), Ok(()));
}

#[test]
fn refuses_other_files() {
    assert_eq!(check_upload("battle.mp4", 10), Err(UploadRefusal::NotAReplay));
    assert_eq!(check_upload("battle.WOWSREPLAY", 10), Err(UploadRefusal::NotAReplay));
    assert_eq!(check_upload("battle.wowsreplay.zip", 10), Err(UploadRefusal::NotAReplay));
    assert_eq!(check_upload("wowsreplay", 10), Err(UploadRefusal::NotAReplay));
    assert_eq!(check_upload("", 10), Err(UploadRefusal::NotAReplay));
}

#[test]
fn refuses_large_files_after_checking_the_name() {
    assert_eq!(check_upload("battle.wowsreplay", MAX_REPLAY_BYTES + 1), Err(UploadRefusal::TooLarge));
    // The name is checked first.
    assert_eq!(check_upload("battle.mp4", MAX_REPLAY_BYTES + 1), Err(UploadRefusal::NotAReplay));
}

#[test]
fn refusal_messages() {
    assert_eq!(UploadRefusal::NotAReplay.message(), "Please upload a `.wowsreplay` file.");
    assert_eq!(UploadRefusal::TooLarge.message(), "Replay file too large (max 50 MB).");
}

#[test]
fn ping_answers() {
    assert_eq!(ping_reply(), "Pong! Bot is running.");
}

#[test]
fn wrong_file_is_only_answered() {
    let (actions, stage) = run(vec![upload("notes.txt", 5), ReplayEvent::Completed]);
    assert_eq!(actions.len(), 2);
    assert!(matches!(&actions[0], ReplayAction::Say(t) if t == "Please upload a `.wowsreplay` file."));
    assert!(matches!(&actions[1], ReplayAction::Finish(Ok(()))));
    assert_eq!(stage, ReplayStage::Finished);
}

#[test]
fn large_file_is_only_answered() {
    let (actions, _) = run(vec![upload("a.wowsreplay", 60 * 1024 * 1024), ReplayEvent::Completed]);
    assert!(matches!(&actions[0], ReplayAction::Say(t) if t == "Replay file too large (max 50 MB)."));
    assert!(matches!(&actions[1], ReplayAction::Finish(Ok(()))));
}

#[test]
fn failed_refusal_reply_is_an_error() {
    let (actions, _) = run(vec![upload("notes.txt", 5), ReplayEvent::Failed("http 500".to_string())]);
    assert!(matches!(&actions[1], ReplayAction::Finish(Err(e)) if e == "http 500"));
}

#[test]
fn accepted_replay_runs_every_step_in_order() {
    let (actions, stage) = run(vec![
        upload("a.wowsreplay", 1000),
        ReplayEvent::Completed,
        ReplayEvent::Downloaded,
        ReplayEvent::Summary(Some("**me** on **Ocean** (24 players, 20.0 min)".to_string())),
        ReplayEvent::Rendered,
        ReplayEvent::VideoRead,
        ReplayEvent::Completed,
        ReplayEvent::Completed,
    ]);
    assert_eq!(actions.len(), 8);
    assert!(matches!(actions[0], ReplayAction::Defer));
    assert!(matches!(actions[1], ReplayAction::Download));
    assert!(matches!(actions[2], ReplayAction::Summarize));
    assert!(matches!(actions[3], ReplayAction::Render));
    assert!(matches!(actions[4], ReplayAction::ReadVideo));
    assert!(matches!(
        &actions[5],
        ReplayAction::SendVideo { content, file_name }
            if content == "**me** on **Ocean** (24 players, 20.0 min)" && file_name == "minimap.mp4"
    ));
    assert!(matches!(actions[6], ReplayAction::RemoveOutputDir));
    assert!(matches!(actions[7], ReplayAction::Finish(Ok(()))));
    assert_eq!(stage, ReplayStage::Finished);
}

#[test]
fn missing_summary_falls_back_to_replay() {
    let (actions, _) = run(vec![
        upload("a.wowsreplay", 1000),
        ReplayEvent::Completed,
        ReplayEvent::Downloaded,
        ReplayEvent::Summary(None),
        ReplayEvent::Rendered,
        ReplayEvent::VideoRead,
    ]);
    assert!(matches!(&actions[5], ReplayAction::SendVideo { content, .. } if content == "Replay"));
}

#[test]
fn failures_end_the_command_with_their_message() {
    let (a, _) = run(vec![upload("a.wowsreplay", 1), ReplayEvent::Failed("no defer".to_string())]);
    assert!(matches!(&a[1], ReplayAction::Finish(Err(e)) if e == "no defer"));

    let (a, _) = run(vec![
        upload("a.wowsreplay", 1),
        ReplayEvent::Completed,
        ReplayEvent::Failed("timeout".to_string()),
    ]);
    assert!(matches!(&a[2], ReplayAction::Finish(Err(e)) if e == "Failed to download attachment: timeout"));

    let prefix = vec![
        upload("a.wowsreplay", 1),
        ReplayEvent::Completed,
        ReplayEvent::Downloaded,
        ReplayEvent::Summary(None),
    ];
    let mut events = prefix;
    events.push(ReplayEvent::RenderFailed("Invalid output path".to_string()));
    let (a, _) = run(events);
    assert!(matches!(&a[4], ReplayAction::Finish(Err(e)) if e == "Render failed: Invalid output path"));

    let (a, _) = run(vec![
        upload("a.wowsreplay", 1),
        ReplayEvent::Completed,
        ReplayEvent::Downloaded,
        ReplayEvent::Summary(None),
        ReplayEvent::RenderPanicked("task 7 panicked".to_string()),
    ]);
    assert!(matches!(&a[4], ReplayAction::Finish(Err(e)) if e == "Render task panicked: task 7 panicked"));

    let (a, _) = run(vec![
        upload("a.wowsreplay", 1),
        ReplayEvent::Completed,
        ReplayEvent::Downloaded,
        ReplayEvent::Summary(None),
        ReplayEvent::Rendered,
        ReplayEvent::Failed("No such file or directory".to_string()),
    ]);
    assert!(matches!(&a[5], ReplayAction::Finish(Err(e)) if e == "Failed to read rendered video"));

    let (a, _) = run(vec![
        upload("a.wowsreplay", 1),
        ReplayEvent::Completed,
        ReplayEvent::Downloaded,
        ReplayEvent::Summary(None),
        ReplayEvent::Rendered,
        ReplayEvent::VideoRead,
        ReplayEvent::Failed("payload too large".to_string()),
    ]);
    // The output directory is not removed when the reply could not be sent.
    assert_eq!(a.len(), 7);
    assert!(matches!(&a[6], ReplayAction::Finish(Err(e)) if e == "payload too large"));
}

#[test]
fn failed_cleanup_still_succeeds() {
    let (a, _) = run(vec![
        upload("a.wowsreplay", 1),
        ReplayEvent::Completed,
        ReplayEvent::Downloaded,
        ReplayEvent::Summary(None),
        ReplayEvent::Rendered,
        ReplayEvent::VideoRead,
        ReplayEvent::Completed,
        ReplayEvent::Failed("busy".to_string()),
    ]);
    assert!(matches!(&a[7], ReplayAction::Finish(Ok(()))));
}

#[test]
fn events_out_of_turn_are_not_accepted() {
    let mut command = ReplayCommand::new();
    assert!(!command.accepts(&ReplayEvent::Completed));
    assert!(command.accepts(&upload("a.wowsreplay", 1)));
    let _ = command.step(upload("a.wowsreplay", 1));
    assert_eq!(command.stage(), ReplayStage::Deferring);
    assert!(!command.accepts(&ReplayEvent::Downloaded));
    assert!(!command.accepts(&upload("b.wowsreplay", 1)));
    assert!(command.accepts(&ReplayEvent::Failed(String::new())));
}

#[test]
fn finished_command_accepts_nothing() {
    let mut command = ReplayCommand::new();
    let _ = command.step(upload("x.txt", 1));
    let _ = command.step(ReplayEvent::Completed);
    assert_eq!(command.stage(), ReplayStage::Finished);
    assert!(!command.accepts(&ReplayEvent::Completed));
    assert!(!command.accepts(&ReplayEvent::Failed(String::new())));
}
