use qbot_download::commands::{MessageWrapper, ParseMode, QHelp, QStart, QbCommandAction, UnknownCommand};
use qbot_download::download::{
    DownloadError, Phase, QDownloadAction, Reply, Request, TorrentEntry, SETTLE_DELAY_MS,
};
use qbot_download::poller::{check_is_complete, next_action, PollAction, TorrentProperties};

fn entry(hash: &str, name: &str) -> TorrentEntry {
    TorrentEntry { hash: Some(hash.to_string()), name: Some(name.to_string()) }
}

fn listing(hashes: &[&str]) -> Reply {
    Reply::Listing(Some(hashes.iter().map(|h| entry(h, "n")).collect()))
}

fn action(validate: bool, notify: bool) -> QDownloadAction {
    let (tx, _rx) = tokio::sync::mpsc::channel::<MessageWrapper>(8);
    QDownloadAction::new(validate, notify, tx)
}

#[test]
fn scenario_identified_and_notified() {
    let mut a = action(true, true);
    assert_eq!(a.step(Reply::Proceed), Request::ListTorrents);
    assert_eq!(a.step(listing(&["h1"])), Request::AddTorrent);
    assert_eq!(a.step(Reply::Added(true)), Request::Wait(SETTLE_DELAY_MS));
    assert_eq!(a.step(Reply::Proceed), Request::ListTorrents);
    assert_eq!(a.step(listing(&["h1", "h2"])), Request::ListTorrents);
    assert_eq!(a.torrent_hash(), "h2");
    let names = vec![entry("h1", "Other.iso"), entry("h2", "Ubuntu.iso")];
    assert_eq!(a.step(Reply::Listing(Some(names))), Request::StartTracking);
    assert_eq!(a.torrent_name(), "Ubuntu.iso");
    assert_eq!(a.step(Reply::Proceed), Request::Finish);
    assert_eq!(a.action_result_to_string(), "OK");

    let first = next_action(
        check_is_complete(Some(TorrentProperties { completion_date: Some(-1) })),
        a.torrent_name(),
    );
    assert!(matches!(first, PollAction::Sleep(_)));
    let second = next_action(
        check_is_complete(Some(TorrentProperties { completion_date: Some(1700000000) })),
        a.torrent_name(),
    );
    match second {
        PollAction::Notify(m) => assert_eq!(m.text, "Ubuntu.iso is done"),
        _ => panic!("expected a notification"),
    }
}

#[test]
fn scenario_racing_submissions_both_fail() {
    for _ in 0..2 {
        let mut a = action(true, false);
        a.step(Reply::Proceed);
        a.step(listing(&["h1"]));
        assert_eq!(a.step(Reply::Added(true)), Request::Wait(SETTLE_DELAY_MS));
        a.step(Reply::Proceed);
        assert_eq!(a.step(listing(&["h1", "h2", "h3"])), Request::Finish);
        assert!(!a.status());
        assert_eq!(a.action_result_to_string(), "FAIL");
    }
}

#[test]
fn transport_failure_aborts_either_way() {
    for validate in [false, true] {
        let mut a = action(validate, false);
        a.step(Reply::Proceed);
        if validate {
            a.step(listing(&[]));
        }
        assert_eq!(a.step(Reply::TransportFailed), Request::Abort(DownloadError::Transport));
        assert_eq!(a.phase(), Phase::Failed);
        assert_eq!(a.action_result_to_string(), "FAIL");
    }
}

#[test]
fn rejected_submission_fails_either_way() {
    for validate in [false, true] {
        let mut a = action(validate, true);
        a.step(Reply::Proceed);
        if validate {
            a.step(listing(&["h1"]));
        }
        assert_eq!(a.step(Reply::Added(false)), Request::Finish);
        assert!(!a.status());
    }
}

#[test]
fn unverified_submission_succeeds_on_transport_alone() {
    let mut a = action(false, true);
    assert_eq!(a.step(Reply::Proceed), Request::AddTorrent);
    assert_eq!(a.step(Reply::Added(true)), Request::Finish);
    assert!(a.status());
    assert_eq!(a.action_result_to_string(), "OK");
}

#[test]
fn failed_first_listing_fails_verification() {
    let mut a = action(true, false);
    a.step(Reply::Proceed);
    assert_eq!(a.step(Reply::Listing(None)), Request::AddTorrent);
    assert_eq!(a.step(Reply::Added(true)), Request::Finish);
    assert!(!a.status());
}

#[test]
fn failed_second_listing_fails_verification() {
    let mut a = action(true, false);
    a.step(Reply::Proceed);
    a.step(listing(&["h1"]));
    a.step(Reply::Added(true));
    a.step(Reply::Proceed);
    assert_eq!(a.step(Reply::Listing(None)), Request::Finish);
    assert!(!a.status());
}

#[test]
fn identified_without_tracking_finishes() {
    let mut a = action(true, false);
    a.step(Reply::Proceed);
    a.step(listing(&["h1"]));
    a.step(Reply::Added(true));
    a.step(Reply::Proceed);
    assert_eq!(a.step(listing(&["h1", "h2"])), Request::Finish);
    assert!(a.status());
    assert_eq!(a.torrent_hash(), "h2");
}

#[test]
fn missing_name_aborts_tracking_but_keeps_success() {
    let mut a = action(true, true);
    a.step(Reply::Proceed);
    a.step(listing(&["h1"]));
    a.step(Reply::Added(true));
    a.step(Reply::Proceed);
    a.step(listing(&["h1", "h2"]));
    let r = a.step(Reply::Listing(Some(vec![entry("h1", "x")])));
    assert_eq!(r, Request::Abort(DownloadError::NameResolution));
    assert!(a.status());
}

#[test]
fn accepts_only_the_awaited_reply() {
    let mut a = action(true, false);
    assert!(a.accepts(&Reply::Proceed));
    assert!(!a.accepts(&Reply::Added(true)));
    a.step(Reply::Proceed);
    assert!(a.accepts(&Reply::Listing(None)));
    assert!(!a.accepts(&Reply::Proceed));
    a.step(Reply::Listing(None));
    assert!(a.accepts(&Reply::TransportFailed));
    a.step(Reply::Added(true));
    assert!(!a.accepts(&Reply::Proceed));
}

#[test]
fn hashes_skip_entries_without_hash() {
    let list = vec![
        entry("a", "A"),
        TorrentEntry { hash: None, name: Some("B".to_string()) },
        entry("c", "C"),
    ];
    assert_eq!(QDownloadAction::get_hashes(&list), vec!["a".to_string(), "c".to_string()]);
    assert!(QDownloadAction::get_hashes(&vec![]).is_empty());
}

#[test]
fn name_is_that_of_the_first_match() {
    let list = vec![
        TorrentEntry { hash: None, name: Some("none".to_string()) },
        entry("h", "first"),
        entry("h", "second"),
    ];
    assert_eq!(QDownloadAction::get_name(&list, &"h".to_string()), Some("first".to_string()));
    assert_eq!(QDownloadAction::get_name(&list, &"z".to_string()), None);
    let nameless = vec![TorrentEntry { hash: Some("h".to_string()), name: None }, entry("h", "x")];
    assert_eq!(QDownloadAction::get_name(&nameless, &"h".to_string()), None);
}

#[test]
fn command_names_and_replies() {
    assert_eq!(QHelp {}.name(), "/help");
    assert_eq!(QHelp {}.action_result_to_string(), "Help is here");
    assert_eq!(QHelp {}.parse_mode(), None);
    assert_eq!(UnknownCommand {}.action_result_to_string(), "Unknown command");
    assert_eq!(QStart {}.name(), "/start");
    assert_eq!(
        QStart {}.action_result_to_string(),
        "\nHello! It's Qbittorrent Telegram bot. \nSee the commands list using [/help](/help)."
    );
    assert_eq!(QStart {}.parse_mode(), Some(ParseMode::Markdown));
    assert_eq!(action(false, false).name(), "/download");
    assert_eq!(action(false, false).action_result_to_string(), "FAIL");
}
