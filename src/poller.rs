//! The completion poller: what one reading of a torrent's properties says of
//! it, and what the tracking task does next.

use vstd::prelude::*;
use crate::commands::MessageWrapper;

verus! {

/// The completion marker's value while a torrent is not yet complete.
pub const NOT_COMPLETED: i64 = -1;

/// The property that holds the completion marker.
pub const COMPLETION_FIELD: &'static str = "completion_date";

/// Milliseconds between two polls of an unfinished torrent.
pub const POLL_INTERVAL_MS: u64 = 1000;

/// What the tracking task reads of a torrent's properties.
#[derive(Clone, Copy, Debug, PartialEq, Eq, Structural)]
pub struct TorrentProperties {
    /// The completion marker as an integer; `None` where it is missing or
    /// not an integer.
    pub completion_date: Option<i64>,
}

/// The state of a tracked torrent after one poll.
#[derive(Clone, Copy, Debug, PartialEq, Eq, Structural)]
pub enum CheckStatus {
    Done,
    InProgress,
    /// The properties could not be fetched or read.
    Fail,
}

/// What the tracking task does after a poll.
#[derive(Clone, Debug)]
pub enum PollAction {
    /// Wait this many milliseconds, then poll again.
    Sleep(u64),
    /// Queue this message for the chat and end.
    Notify(MessageWrapper),
    /// End without notifying.
    Stop,
}

/// The state that one poll yields; `fetched` is `None` where the fetch failed.
pub open spec fn status_of(fetched: Option<TorrentProperties>) -> CheckStatus {
    match fetched {
        None => CheckStatus::Fail,
        Some(p) => match p.completion_date {
            None => CheckStatus::Fail,
            Some(d) => if d == NOT_COMPLETED {
                CheckStatus::InProgress
            } else {
                CheckStatus::Done
            },
        },
    }
}

/// The states that a run of polls yields over successive readings: one per
/// poll, up to and including the first that is not `InProgress`.
pub open spec fn poll_trace(readings: Seq<Option<TorrentProperties>>) -> Seq<CheckStatus>
    decreases readings.len(),
{
    if readings.len() == 0 {
        Seq::empty()
    } else if status_of(readings[0]) == CheckStatus::InProgress {
        seq![CheckStatus::InProgress] + poll_trace(readings.drop_first())
    } else {
        seq![status_of(readings[0])]
    }
}

/// The text announcing that the torrent `name` is finished.
pub open spec fn done_text(name: Seq<char>) -> Seq<char> {
    name + " is done"@
}

/// Whether `a` is what follows a poll that yielded `s` for the torrent `name`.
pub open spec fn follows(s: CheckStatus, name: Seq<char>, a: PollAction) -> bool {
    match s {
        CheckStatus::InProgress => a == PollAction::Sleep(POLL_INTERVAL_MS),
        CheckStatus::Fail => a == PollAction::Stop,
        CheckStatus::Done => a matches PollAction::Notify(m) && m.text@ == done_text(name)
            && m.parse_mode is None,
    }
}

/// Reads the completion marker out of one poll's result.
pub fn check_is_complete(fetched: Option<TorrentProperties>) -> (r: CheckStatus)
    ensures
        r == status_of(fetched),
{
    match fetched {
        Some(props) => match props.completion_date {
            Some(completion_date) => {
                if completion_date != NOT_COMPLETED {
                    CheckStatus::Done
                } else {
                    CheckStatus::InProgress
                }
            },
            None => CheckStatus::Fail,
        },
        None => CheckStatus::Fail,
    }
}

/// The message announcing that the torrent `name` is finished.
pub fn done_message(name: &String) -> (m: MessageWrapper)
    ensures
        m.text@ == done_text(name@),
        m.parse_mode is None,
{
    MessageWrapper { text: name.clone().concat(" is done"), parse_mode: None }
}

/// What the tracking task of the torrent `name` does after a poll that
/// yielded `status`.
pub fn next_action(status: CheckStatus, name: &String) -> (a: PollAction)
    ensures
        follows(status, name@, a),
{
    match status {
        CheckStatus::Done => PollAction::Notify(done_message(name)),
        CheckStatus::InProgress => PollAction::Sleep(POLL_INTERVAL_MS),
        CheckStatus::Fail => PollAction::Stop,
    }
}

/// Readings that stay at the not-completed marker for `n` polls and then
/// carry any other marker yield exactly `n` `InProgress` states and then
/// `Done`, whatever readings come after.
pub proof fn lemma_trace_done_after_waiting(
    readings: Seq<Option<TorrentProperties>>,
    n: nat,
    date: i64,
)
    requires
        n < readings.len(),
        forall|i: int|
            0 <= i < n ==> #[trigger] readings[i] == Some(
                TorrentProperties { completion_date: Some(NOT_COMPLETED) },
            ),
        readings[n as int] == Some(TorrentProperties { completion_date: Some(date) }),
        date != NOT_COMPLETED,
    ensures
        poll_trace(readings) == Seq::new(n, |i: int| CheckStatus::InProgress).push(
            CheckStatus::Done,
        ),
    decreases n,
{
    if n == 0 {
        assert(poll_trace(readings) =~= seq![CheckStatus::Done]);
    } else {
        let rest = readings.drop_first();
        assert forall|i: int| 0 <= i < (n - 1) as nat implies #[trigger] rest[i] == Some(
            TorrentProperties { completion_date: Some(NOT_COMPLETED) },
        ) by {
            assert(rest[i] == readings[i + 1]);
        }
        assert(rest[(n - 1) as int] == readings[n as int]);
        lemma_trace_done_after_waiting(rest, (n - 1) as nat, date);
        assert(readings[0] == Some(TorrentProperties { completion_date: Some(NOT_COMPLETED) }));
        assert(poll_trace(readings) =~= Seq::new(n, |i: int| CheckStatus::InProgress).push(
            CheckStatus::Done,
        ));
    }
}

/// A first fetch that fails ends the run at once as `Fail`, and the task stops
/// without waiting.
pub proof fn lemma_trace_fetch_error_first(
    readings: Seq<Option<TorrentProperties>>,
    name: Seq<char>,
    a: PollAction,
)
    requires
        readings.len() > 0,
        readings[0] is None,
        follows(status_of(readings[0]), name, a),
    ensures
        poll_trace(readings) == seq![CheckStatus::Fail],
        a == PollAction::Stop,
{
}

} // verus!
