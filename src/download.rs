//! The `/download` command: submitting a link, confirming which torrent it
//! created, and deciding whether to track that torrent to completion.
//!
//! The command's network calls and waits are made by its caller. The command
//! is a state machine: [`QDownloadAction::step`] takes the outcome of the last
//! request and returns the next request.

use vstd::prelude::*;
use crate::commands::{MessageWrapper, QbCommandAction, RbotParseMode};
use crate::identify::{id_set, identify, identify_spec};

verus! {

/// The sending half of tokio's bounded channel (`tokio::sync::mpsc::Sender`),
/// on which notifications go to the chat. Nothing is assumed of it: the
/// command only carries it to the tracking task.
#[verifier::external_type_specification]
#[verifier::external_body]
#[verifier::reject_recursive_types(T)]
pub struct ExSender<T>(tokio::sync::mpsc::Sender<T>);

/// Milliseconds to wait after a submission before the second snapshot.
pub const SETTLE_DELAY_MS: u64 = 1000;

/// The label that every submission carries.
pub const TAG_NAME: &'static str = "qbot";

/// The field of a torrent list entry that holds its identifier.
pub const HASH_FIELD: &'static str = "hash";

/// The field of a torrent list entry that holds its display name.
pub const NAME_FIELD: &'static str = "name";

/// What the command reads of one entry of the torrent list.
#[derive(Clone, Debug)]
pub struct TorrentEntry {
    /// The identifier field, where it is a string.
    pub hash: Option<String>,
    /// The name field, where it is a string.
    pub name: Option<String>,
}

/// Why a submission could not be completed.
#[derive(Clone, Copy, Debug, PartialEq, Eq, Structural)]
pub enum DownloadError {
    /// The torrent client could not be reached.
    Transport,
    /// The submitted torrent's name could not be found.
    NameResolution,
}

/// Where a submission stands.
#[derive(Clone, Copy, Debug, PartialEq, Eq, Structural)]
pub enum Phase {
    Ready,
    /// Waiting for the torrent list taken before the submission.
    ListingBefore,
    /// Waiting for the outcome of the submission.
    Adding,
    /// Waiting for the settle delay to pass.
    Settling,
    /// Waiting for the torrent list taken after the submission.
    ListingAfter,
    /// Waiting for the torrent list to look up the new torrent's name.
    ListingNames,
    /// Waiting for the tracking task to be started.
    Spawning,
    Finished,
    Failed,
}

/// What the caller does next.
#[derive(Clone, Copy, Debug, PartialEq, Eq, Structural)]
pub enum Request {
    /// Fetch the torrent list and reply with `Reply::Listing`.
    ListTorrents,
    /// Submit the link, labelled with `TAG_NAME`, and reply with `Reply::Added` or `Reply::TransportFailed`.
    AddTorrent,
    /// Wait this many milliseconds and reply with `Reply::Proceed`.
    Wait(u64),
    /// Start tracking the identified torrent and reply with `Reply::Proceed`.
    StartTracking,
    /// The command is done; its result is `action_result_to_string`.
    Finish,
    /// The command failed with this error.
    Abort(DownloadError),
}

/// What the caller hands back after a request.
#[derive(Clone, Debug)]
pub enum Reply {
    /// Start the command, or the wait or the start of tracking is over.
    Proceed,
    /// The torrent list, or `None` where fetching or reading it failed.
    Listing(Option<Vec<TorrentEntry>>),
    /// The submission was answered; `true` where its status was a success.
    Added(bool),
    /// The submission could not be sent.
    TransportFailed,
}

/// What a submission's state means.
pub struct DownloadView {
    pub status: bool,
    pub validate: bool,
    pub notify: bool,
    pub hash: Seq<char>,
    pub name: Seq<char>,
    pub phase: Phase,
    pub before: Option<Set<Seq<char>>>,
}

/// The identifiers that a torrent list holds.
pub open spec fn hashes_of(entries: Seq<TorrentEntry>) -> Set<Seq<char>> {
    Set::new(
        |x: Seq<char>|
            exists|i: int|
                0 <= i < entries.len() && has_hash(#[trigger] entries[i], x),
    )
}

/// The snapshot that a listing gives; `None` where the listing failed.
pub open spec fn snapshot_of(listing: Option<Vec<TorrentEntry>>) -> Option<Set<Seq<char>>> {
    match listing {
        Some(e) => Some(hashes_of(e@)),
        None => None,
    }
}

/// The snapshot taken after a submission; a failed listing counts as empty.
pub open spec fn after_snapshot(listing: Option<Vec<TorrentEntry>>) -> Set<Seq<char>> {
    match snapshot_of(listing) {
        Some(s) => s,
        None => Set::empty(),
    }
}

/// Whether an entry carries the identifier `hash`.
pub open spec fn has_hash(e: TorrentEntry, hash: Seq<char>) -> bool {
    e.hash matches Some(h) && h@ == hash
}

/// Whether one of the first `n` entries carries `x`.
pub open spec fn listed_in(entries: Seq<TorrentEntry>, n: int, x: Seq<char>) -> bool {
    exists|j: int| 0 <= j < n && has_hash(#[trigger] entries[j], x)
}

/// The name of the first entry that carries `hash`; `None` where no entry
/// does, or the first one that does has no name.
pub open spec fn lookup_name(entries: Seq<TorrentEntry>, hash: Seq<char>) -> Option<Seq<char>>
    decreases entries.len(),
{
    if entries.len() == 0 {
        None
    } else if has_hash(entries[0], hash) {
        match entries[0].name {
            Some(n) => Some(n@),
            None => None,
        }
    } else {
        lookup_name(entries.drop_first(), hash)
    }
}

/// Whether a submission in state `v` can take the reply `ev`.
pub open spec fn accepts(v: DownloadView, ev: Reply) -> bool {
    match v.phase {
        Phase::Ready | Phase::Settling | Phase::Spawning => ev is Proceed,
        Phase::ListingBefore | Phase::ListingAfter | Phase::ListingNames => ev is Listing,
        Phase::Adding => ev is Added || ev is TransportFailed,
        Phase::Finished | Phase::Failed => false,
    }
}

/// Whether `post` and `req` follow from the state `pre` and the reply `ev`.
pub open spec fn transition(pre: DownloadView, ev: Reply, post: DownloadView, req: Request) -> bool {
    match pre.phase {
        Phase::Ready => if pre.validate {
            post == DownloadView { phase: Phase::ListingBefore, ..pre } && req == Request::ListTorrents
        } else {
            post == DownloadView { phase: Phase::Adding, before: None, ..pre } && req
                == Request::AddTorrent
        },
        Phase::ListingBefore => match ev {
            Reply::Listing(l) => post == DownloadView {
                phase: Phase::Adding,
                before: snapshot_of(l),
                ..pre
            } && req == Request::AddTorrent,
            _ => false,
        },
        Phase::Adding => match ev {
            Reply::TransportFailed => post == DownloadView {
                phase: Phase::Failed,
                status: false,
                ..pre
            } && req == Request::Abort(DownloadError::Transport),
            Reply::Added(ok) => if ok && pre.validate && pre.before is Some {
                post == DownloadView { phase: Phase::Settling, ..pre } && req == Request::Wait(
                    SETTLE_DELAY_MS,
                )
            } else {
                post == DownloadView {
                    phase: Phase::Finished,
                    status: ok && !pre.validate,
                    ..pre
                } && req == Request::Finish
            },
            _ => false,
        },
        Phase::Settling => post == DownloadView { phase: Phase::ListingAfter, ..pre } && req
            == Request::ListTorrents,
        Phase::ListingAfter => match ev {
            Reply::Listing(l) => {
                match identify_spec(pre.before->Some_0, after_snapshot(l)) {
                    Some(h) => if pre.notify {
                        post == DownloadView {
                            phase: Phase::ListingNames,
                            status: true,
                            hash: h,
                            ..pre
                        } && req == Request::ListTorrents
                    } else {
                        post == DownloadView {
                            phase: Phase::Finished,
                            status: true,
                            hash: h,
                            ..pre
                        } && req == Request::Finish
                    },
                    None => post == DownloadView {
                        phase: Phase::Finished,
                        status: false,
                        ..pre
                    } && req == Request::Finish,
                }
            },
            _ => false,
        },
        Phase::ListingNames => match ev {
            Reply::Listing(l) => {
                let found = match l {
                    Some(e) => lookup_name(e@, pre.hash),
                    None => None,
                };
                match found {
                    Some(n) => post == DownloadView { phase: Phase::Spawning, name: n, ..pre }
                        && req == Request::StartTracking,
                    None => post == DownloadView { phase: Phase::Failed, ..pre } && req
                        == Request::Abort(DownloadError::NameResolution),
                }
            },
            _ => false,
        },
        Phase::Spawning => post == DownloadView { phase: Phase::Finished, ..pre } && req
            == Request::Finish,
        Phase::Finished | Phase::Failed => false,
    }
}

/// The `/download` command for one link.
pub struct QDownloadAction {
    status: bool,
    validate: bool,
    notify: bool,
    torrent_hash: String,
    torrent_name: String,
    tg_tx: tokio::sync::mpsc::Sender<MessageWrapper>,
    phase: Phase,
    before: Option<Vec<String>>,
}

impl View for QDownloadAction {
    type V = DownloadView;

    closed spec fn view(&self) -> DownloadView {
        DownloadView {
            status: self.status,
            validate: self.validate,
            notify: self.notify,
            hash: self.torrent_hash@,
            name: self.torrent_name@,
            phase: self.phase,
            before: match self.before {
                Some(b) => Some(id_set(b@)),
                None => None,
            },
        }
    }
}

impl QDownloadAction {
    /// The channel on which the completion notification goes to the chat.
    pub closed spec fn channel(&self) -> tokio::sync::mpsc::Sender<MessageWrapper> {
        self.tg_tx
    }

    /// The states that a submission passes through.
    pub open spec fn wf(&self) -> bool {
        (self@.phase == Phase::Settling || self@.phase == Phase::ListingAfter) ==> self@.before is Some
    }

    /// A submission of one link, not yet started. With `validate` it confirms
    /// that exactly one new torrent appeared; with `notify` as well it then
    /// tracks that torrent and reports its completion on `tg_tx`.
    pub fn new(validate: bool, notify: bool, tg_tx: tokio::sync::mpsc::Sender<MessageWrapper>) -> (r: Self)
        ensures
            r.wf(),
            r@.phase == Phase::Ready,
            !r@.status,
            r@.validate == validate,
            r@.notify == notify,
            r@.hash.len() == 0,
            r@.name.len() == 0,
            r@.before is None,
            r.channel() == tg_tx,
    {
        QDownloadAction {
            status: false,
            validate,
            notify,
            torrent_hash: String::new(),
            torrent_name: String::new(),
            tg_tx,
            phase: Phase::Ready,
            before: None,
        }
    }

    /// The identifiers that a torrent list holds; entries without a string
    /// `hash` are skipped.
    pub fn get_hashes(list: &Vec<TorrentEntry>) -> (r: Vec<String>)
        ensures
            id_set(r@) == hashes_of(list@),
    {
        let mut r: Vec<String> = Vec::new();
        let mut i: usize = 0;
        while i < list.len()
            invariant
                i <= list.len(),
                forall|k: int| 0 <= k < r@.len() ==> listed_in(list@, i as int, #[trigger] r@[k]@),
                forall|j: int|
                    0 <= j < i && (#[trigger] list@[j]).hash is Some ==> id_set(r@).contains(
                        list@[j].hash->Some_0@,
                    ),
            decreases list.len() - i,
        {
            let ghost old_r = r@;
            match &list[i].hash {
                Some(h) => {
                    r.push(h.clone());
                    assert(r@[old_r.len() as int]@ == h@);
                },
                None => {},
            }
            proof {
                assert forall|k: int| 0 <= k < r@.len() implies listed_in(list@, i + 1, #[trigger] r@[k]@) by {
                    if k < old_r.len() {
                        assert(r@[k] == old_r[k]);
                        let j = choose|j: int| 0 <= j < i && has_hash(#[trigger] list@[j], old_r[k]@);
                        assert(has_hash(list@[j], r@[k]@));
                    } else {
                        assert(has_hash(list@[i as int], r@[k]@));
                    }
                }
                assert forall|j: int|
                    0 <= j < i + 1 && (#[trigger] list@[j]).hash is Some implies id_set(
                        r@,
                    ).contains(list@[j].hash->Some_0@) by {
                    if j < i {
                        let x = list@[j].hash->Some_0@;
                        let k = choose|k: int| 0 <= k < old_r.len() && #[trigger] old_r[k]@ == x;
                        assert(r@[k]@ == x);
                    } else {
                        assert(r@[old_r.len() as int]@ == list@[j].hash->Some_0@);
                    }
                }
            }
            i = i + 1;
        }
        proof {
            assert forall|x: Seq<char>| id_set(r@).contains(x) <==> hashes_of(list@).contains(x) by {
                if id_set(r@).contains(x) {
                    let k = choose|k: int| 0 <= k < r@.len() && #[trigger] r@[k]@ == x;
                    assert(listed_in(list@, i as int, r@[k]@));
                }
                if hashes_of(list@).contains(x) {
                    let j = choose|j: int| 0 <= j < list@.len() && has_hash(#[trigger] list@[j], x);
                    assert(list@[j].hash is Some);
                }
            }
            assert(id_set(r@) =~= hashes_of(list@));
        }
        r
    }

    /// The name of the torrent `hash` in a torrent list: that of the first
    /// entry that carries it.
    pub fn get_name(list: &Vec<TorrentEntry>, hash: &String) -> (r: Option<String>)
        ensures
            crate::identify::opt_view(r) == lookup_name(list@, hash@),
    {
        let mut i: usize = 0;
        assert(list@.skip(0) =~= list@);
        while i < list.len()
            invariant
                i <= list.len(),
                lookup_name(list@, hash@) == lookup_name(list@.skip(i as int), hash@),
            decreases list.len() - i,
        {
            let ghost rest = list@.skip(i as int);
            assert(rest[0] == list@[i as int]);
            assert(rest.drop_first() =~= list@.skip(i + 1));
            let matched = match &list[i].hash {
                Some(h) => *h == *hash,
                None => false,
            };
            if matched {
                return match &list[i].name {
                    Some(n) => Some(n.clone()),
                    None => None,
                };
            }
            i = i + 1;
        }
        None
    }

    /// Compares the snapshot taken before the submission with the listing
    /// taken after it, and records the new torrent's identifier where exactly
    /// one torrent appeared. A failed listing counts as empty.
    fn check_added(&mut self, listing: Option<Vec<TorrentEntry>>) -> (added: bool)
        requires
            old(self)@.before is Some,
        ensures
            added == identify_spec(old(self)@.before->Some_0, after_snapshot(listing)) is Some,
            final(self)@ == (if added {
                DownloadView {
                    hash: identify_spec(old(self)@.before->Some_0, after_snapshot(listing))->Some_0,
                    ..old(self)@
                }
            } else {
                old(self)@
            }),
            final(self).channel() == old(self).channel(),
    {
        let after = match &listing {
            Some(e) => Self::get_hashes(e),
            None => Vec::new(),
        };
        proof {
            if listing is None {
                assert(id_set(after@) =~= Set::empty());
            }
        }
        let found = match &self.before {
            Some(b) => identify(b, &after),
            None => None,
        };
        match found {
            Some(h) => {
                self.torrent_hash = h;
                true
            },
            None => false,
        }
    }

    /// Whether the reply `ev` is what the last request asked for.
    pub fn accepts(&self, ev: &Reply) -> (r: bool)
        ensures
            r == accepts(self@, *ev),
    {
        match self.phase {
            Phase::Ready | Phase::Settling | Phase::Spawning => matches!(ev, Reply::Proceed),
            Phase::ListingBefore | Phase::ListingAfter | Phase::ListingNames => matches!(
                ev,
                Reply::Listing(_)
            ),
            Phase::Adding => matches!(ev, Reply::Added(_) | Reply::TransportFailed),
            Phase::Finished | Phase::Failed => false,
        }
    }

    /// Takes the reply to the last request and returns the next request.
    pub fn step(&mut self, ev: Reply) -> (req: Request)
        requires
            old(self).wf(),
            accepts(old(self)@, ev),
        ensures
            final(self).wf(),
            final(self).channel() == old(self).channel(),
            transition(old(self)@, ev, final(self)@, req),
    {
        match self.phase {
            Phase::Ready => {
                if self.validate {
                    self.phase = Phase::ListingBefore;
                    Request::ListTorrents
                } else {
                    self.phase = Phase::Adding;
                    self.before = None;
                    Request::AddTorrent
                }
            },
            Phase::ListingBefore => {
                match &ev {
                    Reply::Listing(l) => {
                        self.before = match l {
                            Some(e) => Some(Self::get_hashes(e)),
                            None => None,
                        };
                    },
                    _ => {},
                }
                self.phase = Phase::Adding;
                Request::AddTorrent
            },
            Phase::Adding => {
                match ev {
                    Reply::Added(ok) => {
                        if ok && self.validate && self.before.is_some() {
                            self.phase = Phase::Settling;
                            Request::Wait(SETTLE_DELAY_MS)
                        } else {
                            self.status = ok && !self.validate;
                            self.phase = Phase::Finished;
                            Request::Finish
                        }
                    },
                    _ => {
                        self.status = false;
                        self.phase = Phase::Failed;
                        Request::Abort(DownloadError::Transport)
                    },
                }
            },
            Phase::Settling => {
                self.phase = Phase::ListingAfter;
                Request::ListTorrents
            },
            Phase::ListingAfter => {
                let listing = match ev {
                    Reply::Listing(l) => l,
                    _ => None,
                };
                if self.check_added(listing) {
                    self.status = true;
                    if self.notify {
                        self.phase = Phase::ListingNames;
                        Request::ListTorrents
                    } else {
                        self.phase = Phase::Finished;
                        Request::Finish
                    }
                } else {
                    self.status = false;
                    self.phase = Phase::Finished;
                    Request::Finish
                }
            },
            Phase::ListingNames => {
                let found = match &ev {
                    Reply::Listing(Some(e)) => Self::get_name(e, &self.torrent_hash),
                    _ => None,
                };
                match found {
                    Some(n) => {
                        self.torrent_name = n;
                        self.phase = Phase::Spawning;
                        Request::StartTracking
                    },
                    None => {
                        self.phase = Phase::Failed;
                        Request::Abort(DownloadError::NameResolution)
                    },
                }
            },
            Phase::Spawning => {
                self.phase = Phase::Finished;
                Request::Finish
            },
            Phase::Finished => Request::Finish,
            Phase::Failed => Request::Abort(DownloadError::Transport),
        }
    }
}

impl QDownloadAction {
    /// Whether the submission succeeded so far.
    pub fn status(&self) -> (r: bool)
        ensures
            r == self@.status,
    {
        self.status
    }

    /// Where the submission stands.
    pub fn phase(&self) -> (r: Phase)
        ensures
            r == self@.phase,
    {
        self.phase
    }

    /// The identifier of the submitted torrent, once identified.
    pub fn torrent_hash(&self) -> (r: &String)
        ensures
            r@ == self@.hash,
    {
        &self.torrent_hash
    }

    /// The name of the submitted torrent, once looked up.
    pub fn torrent_name(&self) -> (r: &String)
        ensures
            r@ == self@.name,
    {
        &self.torrent_name
    }

    /// The channel on which the completion notification goes to the chat.
    pub fn tg_tx(&self) -> (r: &tokio::sync::mpsc::Sender<MessageWrapper>)
        ensures
            *r == self.channel(),
    {
        &self.tg_tx
    }
}

impl QbCommandAction for QDownloadAction {
    open spec fn spec_name(&self) -> Option<Seq<char>> {
        Some("/download"@)
    }

    open spec fn spec_result(&self) -> Seq<char> {
        if self@.status {
            "OK"@
        } else {
            "FAIL"@
        }
    }

    open spec fn spec_parse_mode(&self) -> RbotParseMode {
        None
    }

    fn name(&self) -> (r: String) {
        String::from_str("/download")
    }

    fn action_result_to_string(&self) -> (r: String) {
        if self.status {
            String::from_str("OK")
        } else {
            String::from_str("FAIL")
        }
    }

    fn parse_mode(&self) -> (r: RbotParseMode) {
        None
    }
}

/// A submission whose transport call fails, or whose answer is not a
/// success, ends unsuccessful, with or without verification.
pub proof fn lemma_transport_failure_fails(
    pre: DownloadView,
    ev: Reply,
    post: DownloadView,
    req: Request,
)
    requires
        pre.phase == Phase::Adding,
        ev is TransportFailed || (ev is Added && !ev->Added_0),
        transition(pre, ev, post, req),
    ensures
        !post.status,
        post.phase == Phase::Finished || post.phase == Phase::Failed,
{
}

/// With verification requested, a submission that identifies no torrent ends
/// unsuccessful although the transport call succeeded: when the earlier
/// snapshot is missing, or the snapshots differ by other than one identifier.
pub proof fn lemma_unidentified_fails(pre: DownloadView, ev: Reply, post: DownloadView, req: Request)
    requires
        pre.validate,
        (pre.phase == Phase::Adding && ev == Reply::Added(true) && pre.before is None) || (pre.phase
            == Phase::ListingAfter && ev is Listing && identify_spec(
            pre.before->Some_0,
            after_snapshot(ev->Listing_0),
        ) is None),
        transition(pre, ev, post, req),
    ensures
        !post.status,
        post.phase == Phase::Finished,
        req == Request::Finish,
{
}

/// Once finished or failed, a submission takes no further reply, so its
/// result stays as it is.
pub proof fn lemma_terminal_is_final(v: DownloadView, ev: Reply)
    requires
        v.phase == Phase::Finished || v.phase == Phase::Failed,
    ensures
        !accepts(v, ev),
{
}

} // verus!
