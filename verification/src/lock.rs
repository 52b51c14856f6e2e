//! The lock record through which invocations on one machine coordinate: who
//! owns the audio-ducking session, what it is doing, and which request is
//! waiting to be picked up.

use crate::queue::RequestQueue;
use crate::text::{parse_i32, read_i32, slice_of, to_chars, trim, trim_span};
use vstd::prelude::*;

verus! {

/// What the owner of the session is doing. The record carries it for
/// observers; no decision depends on it.
#[derive(Clone, Copy, Debug, PartialEq, Eq, Structural)]
pub enum NotificationState {
    FadingOut,
    Playing,
    FadingIn,
    Idle,
}

/// Time between two looks of the server at the lock record, in nanoseconds.
pub const POLL_INTERVAL: u64 = 10_000_000;

/// The lock record.
#[derive(Clone, Debug, PartialEq, Eq)]
pub struct LockInfo {
    /// Process that owns the session.
    pub pid: u32,
    /// What the owner is doing.
    pub state: NotificationState,
    /// The sound that another invocation asks the owner to play. There is
    /// one slot only: a later request overwrites an earlier one.
    pub new_request: Option<String>,
}

/// The mathematical content of a [`LockInfo`].
pub struct LockInfoView {
    pub pid: u32,
    pub state: NotificationState,
    pub new_request: Option<Seq<char>>,
}

impl View for LockInfo {
    type V = LockInfoView;

    open spec fn view(&self) -> LockInfoView {
        LockInfoView {
            pid: self.pid,
            state: self.state,
            new_request: match self.new_request {
                Some(sound) => Some(sound@),
                None => None,
            },
        }
    }
}

/// The record that a new owner writes: idle, with no request waiting.
pub open spec fn fresh_record(pid: u32) -> LockInfoView {
    LockInfoView { pid, state: NotificationState::Idle, new_request: None }
}

impl LockInfo {
    /// The record that a new owner writes.
    pub fn new(pid: u32) -> (record: Self)
        ensures
            record@ == fresh_record(pid),
    {
        LockInfo { pid, state: NotificationState::Idle, new_request: None }
    }

    /// The same record with another state.
    pub fn with_state(self, state: NotificationState) -> (record: Self)
        ensures
            record@ == (LockInfoView { state, ..self@ }),
    {
        LockInfo { pid: self.pid, state, new_request: self.new_request }
    }

    /// The same record with a request in its slot, in place of any that
    /// waited there.
    pub fn with_request(self, sound: String) -> (record: Self)
        ensures
            record@ == (LockInfoView { new_request: Some(sound@), ..self@ }),
    {
        LockInfo { pid: self.pid, state: self.state, new_request: Some(sound) }
    }

    /// The same record with its slot cleared.
    pub fn without_request(self) -> (record: Self)
        ensures
            record@ == (LockInfoView { new_request: None, ..self@ }),
    {
        LockInfo { pid: self.pid, state: self.state, new_request: None }
    }
}

/// What an invocation finds at the place of the lock record.
#[derive(Clone, Debug, PartialEq, Eq)]
pub enum LockFile {
    /// Nothing.
    Absent,
    /// A record.
    Record(LockInfo),
    /// Text that is no record.
    Other(String),
}

/// The mathematical content of a [`LockFile`].
pub enum LockFileView {
    Absent,
    Record(LockInfoView),
    Other(Seq<char>),
}

impl View for LockFile {
    type V = LockFileView;

    open spec fn view(&self) -> LockFileView {
        match self {
            LockFile::Absent => LockFileView::Absent,
            LockFile::Record(record) => LockFileView::Record(record@),
            LockFile::Other(text) => LockFileView::Other(text@),
        }
    }
}

/// What an invocation is to do about the lock.
#[derive(Clone, Debug, PartialEq, Eq)]
pub enum LockOutcome {
    /// Become the server: remove what was found, if `discard` says so, and
    /// write `record`.
    Leader { discard: bool, record: LockInfo },
    /// A server is running: write `record`, which carries the request, and
    /// leave.
    Enqueued { record: LockInfo },
    /// A process that keeps its lock in the old format is running: give up.
    Busy { pid: i32 },
}

/// The mathematical content of a [`LockOutcome`].
pub enum LockOutcomeView {
    Leader { discard: bool, record: LockInfoView },
    Enqueued { record: LockInfoView },
    Busy { pid: i32 },
}

impl View for LockOutcome {
    type V = LockOutcomeView;

    open spec fn view(&self) -> LockOutcomeView {
        match self {
            LockOutcome::Leader { discard, record } => LockOutcomeView::Leader {
                discard: *discard,
                record: record@,
            },
            LockOutcome::Enqueued { record } => LockOutcomeView::Enqueued { record: record@ },
            LockOutcome::Busy { pid } => LockOutcomeView::Busy { pid: *pid },
        }
    }
}

/// The owner that a lock in the old format names: the text, without the
/// white space around it, read as a process number.
pub open spec fn legacy_pid(text: Seq<char>) -> Option<i32> {
    parse_i32(trim(text))
}

/// The process whose existence decides what becomes of the lock, if what
/// was found names one.
pub open spec fn owner_of(found: LockFileView) -> Option<int> {
    match found {
        LockFileView::Absent => None,
        LockFileView::Record(record) => Some(record.pid as int),
        LockFileView::Other(text) => match legacy_pid(text) {
            Some(pid) => Some(pid as int),
            None => None,
        },
    }
}

/// The decision on the lock. `owner_alive` says whether the process that
/// `owner_of` names exists; it counts for nothing where none is named.
///
/// - Nothing found: become the server.
/// - A record whose owner is alive: put the request in its slot.
/// - The old format, with an owner that is alive: give up.
/// - Anything else is stale: discard it and become the server.
pub open spec fn acquire(found: LockFileView, owner_alive: bool, own_pid: u32, sound: Seq<char>)
    -> LockOutcomeView {
    let lead = |discard: bool| LockOutcomeView::Leader { discard, record: fresh_record(own_pid) };
    match found {
        LockFileView::Absent => lead(false),
        LockFileView::Record(record) => if owner_alive {
            LockOutcomeView::Enqueued {
                record: LockInfoView { new_request: Some(sound), ..record },
            }
        } else {
            lead(true)
        },
        LockFileView::Other(text) => match legacy_pid(text) {
            Some(pid) => if owner_alive {
                LockOutcomeView::Busy { pid }
            } else {
                lead(true)
            },
            None => lead(true),
        },
    }
}

/// Reads the owner that a lock in the old format names.
pub fn parse_legacy_pid(text: &str) -> (pid: Option<i32>)
    ensures
        pid == legacy_pid(text@),
{
    let chars = to_chars(text);
    let all = chars.as_slice();
    read_i32(slice_of(all, trim_span(all)))
}

/// Names the process whose existence decides what becomes of the lock.
pub fn lock_owner(found: &LockFile) -> (owner: Option<i64>)
    ensures
        match owner {
            Some(pid) => owner_of(found@) == Some(pid as int),
            None => owner_of(found@) is None,
        },
{
    match found {
        LockFile::Absent => None,
        LockFile::Record(record) => Some(record.pid as i64),
        LockFile::Other(text) => match parse_legacy_pid(text.as_str()) {
            Some(pid) => Some(pid as i64),
            None => None,
        },
    }
}

/// Decides whether this invocation becomes the server, hands its request
/// to the server that is running, or gives up.
pub fn acquire_lock(found: LockFile, owner_alive: bool, own_pid: u32, sound: String) -> (outcome:
    LockOutcome)
    ensures
        outcome@ == acquire(found@, owner_alive, own_pid, sound@),
        !owner_alive ==> outcome@ is Leader,
{
    match found {
        LockFile::Absent => LockOutcome::Leader { discard: false, record: LockInfo::new(own_pid) },
        LockFile::Record(record) => {
            if owner_alive {
                LockOutcome::Enqueued { record: record.with_request(sound) }
            } else {
                LockOutcome::Leader { discard: true, record: LockInfo::new(own_pid) }
            }
        },
        LockFile::Other(text) => {
            match parse_legacy_pid(text.as_str()) {
                Some(pid) => {
                    if owner_alive {
                        LockOutcome::Busy { pid }
                    } else {
                        LockOutcome::Leader { discard: true, record: LockInfo::new(own_pid) }
                    }
                },
                None => LockOutcome::Leader { discard: true, record: LockInfo::new(own_pid) },
            }
        },
    }
}

/// Stale-lock recovery: whatever is found at the place of the lock, if the
/// process that it names does not exist, the invocation becomes the server
/// and writes a fresh record of its own. The same holds where nothing is
/// found and where what is found names no process at all.
pub proof fn lemma_stale_lock_is_taken_over(
    found: LockFileView,
    owner_alive: bool,
    own_pid: u32,
    sound: Seq<char>,
)
    requires
        !owner_alive || owner_of(found) is None,
    ensures
        acquire(found, owner_alive, own_pid, sound) == (LockOutcomeView::Leader {
            discard: !(found is Absent),
            record: fresh_record(own_pid),
        }),
{
}

/// With a server alive, an invocation never starts a second one: it leaves
/// its request in the record, whose owner and state stay as they were.
pub proof fn lemma_live_server_gets_request(
    record: LockInfoView,
    own_pid: u32,
    sound: Seq<char>,
)
    ensures
        acquire(LockFileView::Record(record), true, own_pid, sound) == (LockOutcomeView::Enqueued {
            record: LockInfoView { pid: record.pid, state: record.state, new_request: Some(sound) },
        }),
{
}

/// Moves the request that waits in the record, if any, to the end of the
/// queue, and tells whether there was one: the caller then clears the slot
/// of the record.
pub fn collect_request(record: &LockInfo, queue: &mut RequestQueue) -> (moved: bool)
    ensures
        match record@.new_request {
            Some(sound) => moved && final(queue)@ == old(queue)@.push(sound),
            None => !moved && final(queue)@ == old(queue)@,
        },
{
    match &record.new_request {
        Some(sound) => {
            queue.enqueue(sound.clone());
            true
        },
        None => false,
    }
}

} // verus!
