use vstd::prelude::*;
use crate::text::prefixed;
use crate::envelope::DbError;

verus! {

/// Where the single connection of the process stands.
#[derive(Debug, Clone, Copy, PartialEq, Eq, Structural)]
pub enum ConnPhase {
    /// No connection is open: none was asked for yet, or the last attempt failed.
    Closed,
    ResolvingDir,
    CreatingDir,
    Opening,
    SettingWal,
    EnablingForeignKeys,
    RaisingCache,
    /// The connection is open and configured.
    Ready,
}

/// What the manager asks its caller to do next.
#[derive(Debug)]
pub enum ConnAction {
    /// Find the application's private data directory.
    ResolveDataDir,
    /// Create that directory and its parents where absent.
    CreateDir,
    /// Open, or create, the database file in it.
    OpenFile,
    /// Switch the journal to write-ahead logging and report the mode the engine gives back.
    SetJournalWal,
    /// Turn on foreign-key enforcement.
    EnableForeignKeys,
    /// Raise the page cache size; a failure here does not matter.
    RaiseCacheSize,
    /// The connection is ready: use it.
    Use,
    /// Opening failed: drop what was opened and answer with this failure.
    Abort(DbError),
}

/// What the caller reports back.
#[derive(Debug)]
pub enum ConnEvent {
    Done,
    /// The journal mode that the engine reports after the switch.
    JournalMode(String),
    Failed(String),
}

/// The engine reports the write-ahead journal, in any letter case.
pub open spec fn is_wal(m: Seq<char>) -> bool {
    &&& m.len() == 3
    &&& (m[0] == 'w' || m[0] == 'W')
    &&& (m[1] == 'a' || m[1] == 'A')
    &&& (m[2] == 'l' || m[2] == 'L')
}

/// The failure of an opening step, with the step's message before the detail.
pub open spec fn aborts_with(a: ConnAction, prefix: Seq<char>, detail: Seq<char>) -> bool {
    a is Abort && a->Abort_0 is Connection && a->Abort_0->Connection_0@ == prefix + detail
}

/// One move of the manager from phase `pre` on `ev`.
pub open spec fn conn_transition(pre: ConnPhase, ev: ConnEvent, post: ConnPhase, a: ConnAction) -> bool {
    match ev {
        ConnEvent::Failed(d) => match pre {
            ConnPhase::ResolvingDir => post == ConnPhase::Closed
                && aborts_with(a, "Could not get app data directory: "@, d@),
            ConnPhase::CreatingDir => post == ConnPhase::Closed
                && aborts_with(a, "Could not create app data directory: "@, d@),
            ConnPhase::Opening => post == ConnPhase::Closed
                && aborts_with(a, "Could not open database: "@, d@),
            ConnPhase::SettingWal => post == ConnPhase::Closed
                && aborts_with(a, "Could not set WAL mode: "@, d@),
            ConnPhase::EnablingForeignKeys => post == ConnPhase::Closed
                && aborts_with(a, "Could not enable foreign keys: "@, d@),
            ConnPhase::RaisingCache => post == ConnPhase::Ready && a is Use,
            _ => false,
        },
        ConnEvent::Done => match pre {
            ConnPhase::ResolvingDir => post == ConnPhase::CreatingDir && a is CreateDir,
            ConnPhase::CreatingDir => post == ConnPhase::Opening && a is OpenFile,
            ConnPhase::Opening => post == ConnPhase::SettingWal && a is SetJournalWal,
            ConnPhase::EnablingForeignKeys => post == ConnPhase::RaisingCache && a is RaiseCacheSize,
            ConnPhase::RaisingCache => post == ConnPhase::Ready && a is Use,
            _ => false,
        },
        ConnEvent::JournalMode(m) => match pre {
            ConnPhase::SettingWal => if is_wal(m@) {
                post == ConnPhase::EnablingForeignKeys && a is EnableForeignKeys
            } else {
                post == ConnPhase::Closed && aborts_with(a, "Failed to set WAL mode, got: "@, m@)
            },
            _ => false,
        },
    }
}

/// The phase is one of the opening steps, which wait for an outcome.
pub open spec fn is_opening(p: ConnPhase) -> bool {
    !(p is Closed) && !(p is Ready)
}

/// The events that a phase can take: the journal mode only after the switch
/// to write-ahead logging, completion after any other step, and a failure
/// after any step.
pub open spec fn conn_accepts(p: ConnPhase, ev: ConnEvent) -> bool {
    &&& is_opening(p)
    &&& ev is Failed || (p is SettingWal <==> ev is JournalMode)
}

/// Hands out the process's single connection, opening and configuring it on
/// first use and again after a failed attempt, never twice once it is ready.
#[derive(Debug)]
pub struct ConnectionManager {
    pub phase: ConnPhase,
}

fn abort(prefix: &str, detail: &String) -> (a: ConnAction)
    ensures
        aborts_with(a, prefix@, detail@),
{
    ConnAction::Abort(DbError::Connection(prefixed(prefix, detail)))
}

fn ascii_fold_eq(c: char, lower: char, upper: char) -> (r: bool)
    ensures
        r == (c == lower || c == upper),
{
    c == lower || c == upper
}

/// Whether the reported journal mode is the write-ahead log.
pub fn is_wal_mode(m: &str) -> (r: bool)
    ensures
        r == is_wal(m@),
{
    if m.unicode_len() != 3 {
        return false;
    }
    ascii_fold_eq(m.get_char(0), 'w', 'W') && ascii_fold_eq(m.get_char(1), 'a', 'A')
        && ascii_fold_eq(m.get_char(2), 'l', 'L')
}

impl ConnectionManager {
    /// A manager with no connection open.
    pub fn new() -> (r: Self)
        ensures
            r.phase == ConnPhase::Closed,
    {
        ConnectionManager { phase: ConnPhase::Closed }
    }

    /// Whether the manager can take `ev` now.
    pub fn can_accept(&self, ev: &ConnEvent) -> (r: bool)
        ensures
            r == conn_accepts(self.phase, *ev),
    {
        match self.phase {
            ConnPhase::Closed | ConnPhase::Ready => false,
            ConnPhase::SettingWal => !matches!(ev, ConnEvent::Done),
            _ => !matches!(ev, ConnEvent::JournalMode(_)),
        }
    }

    /// A caller wants the connection: use the open one, or start opening it.
    pub fn acquire(&mut self) -> (a: ConnAction)
        requires
            !is_opening(old(self).phase),
        ensures
            old(self).phase is Ready ==> final(self).phase == ConnPhase::Ready && a is Use,
            old(self).phase is Closed ==> final(self).phase == ConnPhase::ResolvingDir && a is ResolveDataDir,
    {
        match self.phase {
            ConnPhase::Ready => ConnAction::Use,
            _ => {
                self.phase = ConnPhase::ResolvingDir;
                ConnAction::ResolveDataDir
            },
        }
    }

    /// Takes the outcome of the last step and says what to do next.
    pub fn step(&mut self, ev: ConnEvent) -> (a: ConnAction)
        requires
            conn_accepts(old(self).phase, ev),
        ensures
            conn_transition(old(self).phase, ev, final(self).phase, a),
    {
        match ev {
            ConnEvent::Failed(d) => match self.phase {
                ConnPhase::ResolvingDir => {
                    self.phase = ConnPhase::Closed;
                    abort("Could not get app data directory: ", &d)
                },
                ConnPhase::CreatingDir => {
                    self.phase = ConnPhase::Closed;
                    abort("Could not create app data directory: ", &d)
                },
                ConnPhase::Opening => {
                    self.phase = ConnPhase::Closed;
                    abort("Could not open database: ", &d)
                },
                ConnPhase::SettingWal => {
                    self.phase = ConnPhase::Closed;
                    abort("Could not set WAL mode: ", &d)
                },
                ConnPhase::EnablingForeignKeys => {
                    self.phase = ConnPhase::Closed;
                    abort("Could not enable foreign keys: ", &d)
                },
                _ => {
                    self.phase = ConnPhase::Ready;
                    ConnAction::Use
                },
            },
            ConnEvent::Done => match self.phase {
                ConnPhase::ResolvingDir => {
                    self.phase = ConnPhase::CreatingDir;
                    ConnAction::CreateDir
                },
                ConnPhase::CreatingDir => {
                    self.phase = ConnPhase::Opening;
                    ConnAction::OpenFile
                },
                ConnPhase::Opening => {
                    self.phase = ConnPhase::SettingWal;
                    ConnAction::SetJournalWal
                },
                ConnPhase::EnablingForeignKeys => {
                    self.phase = ConnPhase::RaisingCache;
                    ConnAction::RaiseCacheSize
                },
                _ => {
                    self.phase = ConnPhase::Ready;
                    ConnAction::Use
                },
            },
            ConnEvent::JournalMode(m) => {
                if is_wal_mode(m.as_str()) {
                    self.phase = ConnPhase::EnablingForeignKeys;
                    ConnAction::EnableForeignKeys
                } else {
                    self.phase = ConnPhase::Closed;
                    abort("Failed to set WAL mode, got: ", &m)
                }
            },
        }
    }
}

/// On first use, with every step succeeding, the manager resolves the data
/// directory, creates it, opens the database file in it, switches to the
/// write-ahead journal, enables foreign keys, raises the cache, and then
/// hands the connection out; every later request uses it as it is.
pub proof fn lemma_first_use_opens(
    p1: ConnPhase, a1: ConnAction,
    p2: ConnPhase, a2: ConnAction,
    p3: ConnPhase, a3: ConnAction,
    mode: String, p4: ConnPhase, a4: ConnAction,
    p5: ConnPhase, a5: ConnAction,
    p6: ConnPhase, a6: ConnAction,
)
    requires
        is_wal(mode@),
        conn_transition(ConnPhase::ResolvingDir, ConnEvent::Done, p1, a1),
        conn_transition(p1, ConnEvent::Done, p2, a2),
        conn_transition(p2, ConnEvent::Done, p3, a3),
        conn_transition(p3, ConnEvent::JournalMode(mode), p4, a4),
        conn_transition(p4, ConnEvent::Done, p5, a5),
        conn_transition(p5, ConnEvent::Done, p6, a6),
    ensures
        a1 is CreateDir,
        a2 is OpenFile,
        a3 is SetJournalWal,
        a4 is EnableForeignKeys,
        a5 is RaiseCacheSize,
        a6 is Use,
        p6 == ConnPhase::Ready,
{
}

/// A failed step leaves no connection behind, so the next request opens the
/// database afresh; only the cache hint may fail without consequence.
pub proof fn lemma_failure_is_not_kept(pre: ConnPhase, d: String, post: ConnPhase, a: ConnAction)
    requires
        is_opening(pre),
        !(pre is RaisingCache),
        conn_transition(pre, ConnEvent::Failed(d), post, a),
    ensures
        post == ConnPhase::Closed,
        a is Abort,
        a->Abort_0 is Connection,
{
}

} // verus!
