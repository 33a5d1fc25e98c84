use qbot_download::poller::{
    check_is_complete, done_message, next_action, CheckStatus, PollAction, TorrentProperties,
    NOT_COMPLETED, POLL_INTERVAL_MS,
};

fn props(d: i64) -> Option<TorrentProperties> {
    Some(TorrentProperties { completion_date: Some(d) })
}

#[test]
fn marker_classifies_the_torrent() {
    assert_eq!(check_is_complete(props(NOT_COMPLETED)), CheckStatus::InProgress);
    assert_eq!(check_is_complete(props(-1)), CheckStatus::InProgress);
    assert_eq!(check_is_complete(props(1700000000)), CheckStatus::Done);
    assert_eq!(check_is_complete(props(0)), CheckStatus::Done);
    assert_eq!(check_is_complete(props(-2)), CheckStatus::Done);
}

#[test]
fn missing_marker_or_failed_fetch_is_unreadable() {
    assert_eq!(
        check_is_complete(Some(TorrentProperties { completion_date: None })),
        CheckStatus::Fail
    );
    assert_eq!(check_is_complete(None), CheckStatus::Fail);
}

#[test]
fn in_progress_sleeps_then_polls_again() {
    match next_action(CheckStatus::InProgress, &"x".to_string()) {
        PollAction::Sleep(ms) => assert_eq!(ms, POLL_INTERVAL_MS),
        _ => panic!("expected a sleep"),
    }
    assert_eq!(POLL_INTERVAL_MS, 1000);
}

#[test]
fn fetch_error_first_stops_without_sleeping() {
    let s = check_is_complete(None);
    assert_eq!(s, CheckStatus::Fail);
    assert!(matches!(next_action(s, &"x".to_string()), PollAction::Stop));
}

#[test]
fn done_notifies_with_the_name() {
    match next_action(CheckStatus::Done, &"Ubuntu.iso".to_string()) {
        PollAction::Notify(m) => {
            assert_eq!(m.text, "Ubuntu.iso is done");
            assert!(m.parse_mode.is_none());
        }
        _ => panic!("expected a notification"),
    }
    assert_eq!(done_message(&String::new()).text, " is done");
}

#[test]
fn n_waiting_polls_then_done() {
    let n = 3;
    let mut readings: Vec<Option<TorrentProperties>> = (0..n).map(|_| props(-1)).collect();
    readings.push(props(1234));
    readings.push(None);
    let mut in_progress = 0;
    let mut ended = None;
    for r in readings {
        match next_action(check_is_complete(r), &"t".to_string()) {
            PollAction::Sleep(_) => in_progress += 1,
            a => {
                ended = Some(a);
                break;
            }
        }
    }
    assert_eq!(in_progress, n);
    assert!(matches!(ended, Some(PollAction::Notify(_))));
}
