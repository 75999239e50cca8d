//! One poll cycle of a source, as a state machine.
//!
//! A cycle loads the checkpoint, fetches the entries after it, publishes
//! them, and only then advances the checkpoint to the last published
//! cursor. Where the source reports the checkpoint invalid, the checkpoint
//! is removed and the fetch is made once more from the current boot.
//!
//! The machine performs no I/O: each method takes what the caller observed
//! and returns what the caller is to do next.

use vstd::prelude::*;
use crate::cursor::CursorError;
use crate::journal::{JournalEntry, JournalError};
use crate::otlp::OtlpError;

verus! {

/// Why a cycle failed.
#[derive(Debug)]
pub enum CollectorError {
    Journal(JournalError),
    Otlp(OtlpError),
    Cursor(CursorError),
}

/// What the caller is to do next.
#[derive(Debug)]
pub enum PollAction {
    /// Fetch up to a batch of entries after `cursor`, or from the start of
    /// the current boot when there is none.
    Fetch { cursor: Option<String> },
    /// Remove the checkpoint.
    ResetCheckpoint,
    /// Publish this batch, whole, in one call.
    Publish { entries: Vec<JournalEntry> },
    /// Store `cursor` as the new checkpoint.
    SaveCheckpoint { cursor: String },
    /// The cycle is over: the number of entries forwarded, or why it failed.
    Finish { outcome: Result<usize, CollectorError> },
}

/// Where a cycle stands.
pub enum CyclePhase {
    /// A fetch is under way; `retried` once the checkpoint was reset.
    Fetching { retried: bool },
    /// The checkpoint is being removed.
    Resetting,
    /// A batch of `count` entries ending at `last_cursor` is being published.
    Publishing { count: usize, last_cursor: String },
    /// The checkpoint is being advanced to `cursor` after `count` entries.
    Saving { count: usize, cursor: String },
    /// The cycle is over.
    Done,
}

/// The metrics label of a failed fetch.
pub open spec fn fetch_error_label(e: JournalError) -> Seq<char> {
    match e {
        JournalError::Http(_) => "http"@,
        JournalError::InvalidCursor => "invalid_cursor"@,
        JournalError::ServerError { .. } => "server"@,
    }
}

/// The metrics label of a failed fetch.
pub fn fetch_error_kind(e: &JournalError) -> (r: &'static str)
    ensures
        r@ == fetch_error_label(*e),
{
    match e {
        JournalError::Http(_) => "http",
        JournalError::InvalidCursor => "invalid_cursor",
        JournalError::ServerError { .. } => "server",
    }
}

/// The state of one poll cycle.
///
/// Besides the phase, it keeps the error labels counted so far and, as
/// ghost state, the checkpoint before the cycle and the value that the
/// checkpoint store holds after the actions already confirmed.
pub struct PollCycle {
    phase: CyclePhase,
    errors: Vec<&'static str>,
    initial: Ghost<Option<Seq<char>>>,
    stored: Ghost<Option<Seq<char>>>,
    reset_done: Ghost<bool>,
    publish_failed: Ghost<bool>,
}

pub open spec fn labels_view(v: Seq<&'static str>) -> Seq<Seq<char>> {
    v.map_values(|s: &'static str| s@)
}

impl PollCycle {
    /// The checkpoint before the cycle.
    pub closed spec fn initial(&self) -> Option<Seq<char>> {
        self.initial@
    }

    /// The checkpoint as the confirmed actions have left it.
    pub closed spec fn stored(&self) -> Option<Seq<char>> {
        self.stored@
    }

    /// Whether the checkpoint was removed in this cycle.
    pub closed spec fn reset_done(&self) -> bool {
        self.reset_done@
    }

    /// Whether a publish of this cycle was rejected.
    pub closed spec fn publish_failed(&self) -> bool {
        self.publish_failed@
    }

    pub closed spec fn phase(&self) -> CyclePhase {
        self.phase
    }

    /// The error labels counted so far.
    pub closed spec fn error_labels(&self) -> Seq<Seq<char>> {
        labels_view(self.errors@)
    }

    /// The checkpoint before any save of this cycle: the initial one, or
    /// none once it was removed.
    pub closed spec fn base(&self) -> Option<Seq<char>> {
        if self.reset_done@ {
            None
        } else {
            self.initial@
        }
    }

    /// How the ghost state and the phase hang together.
    pub closed spec fn wf(&self) -> bool {
        match self.phase {
            CyclePhase::Fetching { retried } => retried == self.reset_done@ && self.stored@
                == self.base() && !self.publish_failed@,
            CyclePhase::Resetting => !self.reset_done@ && self.stored@ == self.initial@
                && !self.publish_failed@,
            CyclePhase::Publishing { .. } => self.stored@ == self.base() && !self.publish_failed@,
            CyclePhase::Saving { .. } => self.stored@ == self.base() && !self.publish_failed@,
            CyclePhase::Done => self.publish_failed@ ==> self.stored@ == self.base(),
        }
    }

    /// Starts a cycle from the checkpoint loaded from the store: the first
    /// fetch asks for the entries after it.
    pub fn start(checkpoint: Option<String>) -> (r: (PollCycle, PollAction))
        ensures
            r.0.wf(),
            r.0.initial() == crate::journal::opt_view(checkpoint),
            r.0.stored() == r.0.initial(),
            r.0.phase() matches CyclePhase::Fetching { retried } && !retried,
            r.0.error_labels().len() == 0,
            r.1 matches PollAction::Fetch { cursor } && cursor == checkpoint,
    {
        let ghost c = crate::journal::opt_view(checkpoint);
        let cycle = PollCycle {
            phase: CyclePhase::Fetching { retried: false },
            errors: Vec::new(),
            initial: Ghost(c),
            stored: Ghost(c),
            reset_done: Ghost(false),
            publish_failed: Ghost(false),
        };
        assert(labels_view(cycle.errors@) =~= Seq::empty());
        (cycle, PollAction::Fetch { cursor: checkpoint })
    }

    /// Whether the cycle is over.
    pub fn is_done(&self) -> (r: bool)
        ensures
            r == self.phase() is Done,
    {
        matches!(self.phase, CyclePhase::Done)
    }

    /// The error labels counted in this cycle, in order.
    pub fn errors(&self) -> (r: &Vec<&'static str>)
        ensures
            labels_view(r@) == self.error_labels(),
    {
        &self.errors
    }

    /// Takes the result of a fetch.
    ///
    /// An empty batch ends the cycle with nothing forwarded; a non-empty one
    /// is to be published whole. A first report of an invalid checkpoint
    /// has the checkpoint removed; any other failure ends the cycle, with
    /// the checkpoint as it was.
    pub fn on_fetched(&mut self, fetched: Result<Vec<JournalEntry>, JournalError>) -> (r: PollAction)
        requires
            old(self).wf(),
            old(self).phase() is Fetching,
        ensures
            final(self).wf(),
            final(self).initial() == old(self).initial(),
            final(self).stored() == old(self).stored(),
            final(self).reset_done() == old(self).reset_done(),
            final(self).publish_failed() == old(self).publish_failed(),
            match fetched {
                Ok(es) => if es@.len() == 0 {
                    &&& final(self).phase() is Done
                    &&& r matches PollAction::Finish { outcome: Ok(n) } && n == 0
                    &&& final(self).error_labels() == old(self).error_labels()
                } else {
                    &&& final(self).phase() matches CyclePhase::Publishing { count, last_cursor }
                        && count == es@.len() && last_cursor@ == es@.last().cursor@
                    &&& r matches PollAction::Publish { entries } && entries == es
                    &&& final(self).error_labels() == old(self).error_labels()
                },
                Err(e) => if e is InvalidCursor && !old(self).reset_done() {
                    &&& final(self).phase() is Resetting
                    &&& r is ResetCheckpoint
                    &&& final(self).error_labels() == old(self).error_labels()
                } else {
                    &&& final(self).phase() is Done
                    &&& r matches PollAction::Finish { outcome: Err(CollectorError::Journal(x)) }
                        && x == e
                    &&& final(self).error_labels() == if old(self).reset_done() {
                        old(self).error_labels()
                    } else {
                        old(self).error_labels().push(fetch_error_label(e))
                    }
                },
            },
    {
        let retried = match &self.phase {
            CyclePhase::Fetching { retried } => *retried,
            _ => false,
        };
        match fetched {
            Ok(entries) => {
                if entries.len() == 0 {
                    self.phase = CyclePhase::Done;
                    PollAction::Finish { outcome: Ok(0) }
                } else {
                    let count = entries.len();
                    let last_cursor = entries[count - 1].cursor.clone();
                    self.phase = CyclePhase::Publishing { count, last_cursor };
                    PollAction::Publish { entries }
                }
            },
            Err(e) => {
                if !retried && matches!(e, JournalError::InvalidCursor) {
                    self.phase = CyclePhase::Resetting;
                    PollAction::ResetCheckpoint
                } else {
                    if !retried {
                        let ghost before = self.errors@;
                        self.errors.push(fetch_error_kind(&e));
                        assert(labels_view(self.errors@) =~= labels_view(before).push(
                            fetch_error_label(e),
                        ));
                    }
                    self.phase = CyclePhase::Done;
                    PollAction::Finish { outcome: Err(CollectorError::Journal(e)) }
                }
            },
        }
    }

    /// Takes the result of removing the checkpoint: on success the fetch is
    /// made once more, from the current boot; on failure the cycle ends.
    pub fn on_reset(&mut self, result: Result<(), CursorError>) -> (r: PollAction)
        requires
            old(self).wf(),
            old(self).phase() is Resetting,
        ensures
            final(self).wf(),
            final(self).initial() == old(self).initial(),
            final(self).publish_failed() == old(self).publish_failed(),
            match result {
                Ok(()) => {
                    &&& final(self).reset_done()
                    &&& final(self).stored() is None
                    &&& final(self).phase() matches CyclePhase::Fetching { retried } && retried
                    &&& r matches PollAction::Fetch { cursor } && cursor is None
                    &&& final(self).error_labels() == old(self).error_labels().push(
                        "invalid_cursor"@,
                    )
                },
                Err(e) => {
                    &&& final(self).reset_done() == old(self).reset_done()
                    &&& final(self).stored() == old(self).stored()
                    &&& final(self).phase() is Done
                    &&& r matches PollAction::Finish { outcome: Err(CollectorError::Cursor(x)) }
                        && x == e
                    &&& final(self).error_labels() == old(self).error_labels()
                },
            },
    {
        match result {
            Ok(()) => {
                let ghost before = self.errors@;
                self.errors.push("invalid_cursor");
                assert(labels_view(self.errors@) =~= labels_view(before).push("invalid_cursor"@));
                self.reset_done = Ghost(true);
                self.stored = Ghost(None);
                self.phase = CyclePhase::Fetching { retried: true };
                PollAction::Fetch { cursor: None }
            },
            Err(e) => {
                self.phase = CyclePhase::Done;
                PollAction::Finish { outcome: Err(CollectorError::Cursor(e)) }
            },
        }
    }

    /// Takes the result of a publish: only an acknowledged batch advances
    /// the checkpoint, to the cursor of its last entry; a rejected one ends
    /// the cycle with the checkpoint untouched.
    pub fn on_published(&mut self, result: Result<(), OtlpError>) -> (r: PollAction)
        requires
            old(self).wf(),
            old(self).phase() is Publishing,
        ensures
            final(self).wf(),
            final(self).initial() == old(self).initial(),
            final(self).stored() == old(self).stored(),
            final(self).reset_done() == old(self).reset_done(),
            match (result, old(self).phase()) {
                (Ok(()), CyclePhase::Publishing { count, last_cursor }) => {
                    &&& !final(self).publish_failed()
                    &&& final(self).phase() matches CyclePhase::Saving { count: n, cursor }
                        && n == count && cursor@ == last_cursor@
                    &&& r matches PollAction::SaveCheckpoint { cursor } && cursor@ == last_cursor@
                    &&& final(self).error_labels() == old(self).error_labels()
                },
                (Err(e), _) => {
                    &&& final(self).publish_failed()
                    &&& final(self).phase() is Done
                    &&& r matches PollAction::Finish { outcome: Err(CollectorError::Otlp(x)) }
                        && x == e
                    &&& final(self).error_labels() == old(self).error_labels().push("otlp"@)
                },
                _ => false,
            },
    {
        let (count, last_cursor) = match &self.phase {
            CyclePhase::Publishing { count, last_cursor } => (*count, last_cursor.clone()),
            _ => (0, String::new()),
        };
        match result {
            Ok(()) => {
                let cursor = last_cursor.clone();
                self.phase = CyclePhase::Saving { count, cursor: last_cursor };
                PollAction::SaveCheckpoint { cursor }
            },
            Err(e) => {
                let ghost before = self.errors@;
                self.errors.push("otlp");
                assert(labels_view(self.errors@) =~= labels_view(before).push("otlp"@));
                self.publish_failed = Ghost(true);
                self.phase = CyclePhase::Done;
                PollAction::Finish { outcome: Err(CollectorError::Otlp(e)) }
            },
        }
    }

    /// Takes the result of storing the new checkpoint: the cycle ends with
    /// the number of entries forwarded, or with the store's failure (the
    /// previous checkpoint then stays, as the store replaces it atomically).
    pub fn on_saved(&mut self, result: Result<(), CursorError>) -> (r: PollAction)
        requires
            old(self).wf(),
            old(self).phase() is Saving,
        ensures
            final(self).wf(),
            final(self).initial() == old(self).initial(),
            final(self).reset_done() == old(self).reset_done(),
            final(self).publish_failed() == old(self).publish_failed(),
            final(self).phase() is Done,
            final(self).error_labels() == old(self).error_labels(),
            match (result, old(self).phase()) {
                (Ok(()), CyclePhase::Saving { count, cursor }) => {
                    &&& final(self).stored() == Some(cursor@)
                    &&& r matches PollAction::Finish { outcome: Ok(n) } && n == count
                },
                (Err(e), _) => {
                    &&& final(self).stored() == old(self).stored()
                    &&& r matches PollAction::Finish { outcome: Err(CollectorError::Cursor(x)) }
                        && x == e
                },
                _ => false,
            },
    {
        let (count, cursor) = match &self.phase {
            CyclePhase::Saving { count, cursor } => (*count, cursor.clone()),
            _ => (0, String::new()),
        };
        match result {
            Ok(()) => {
                self.stored = Ghost(Some(cursor@));
                self.phase = CyclePhase::Done;
                PollAction::Finish { outcome: Ok(count) }
            },
            Err(e) => {
                self.phase = CyclePhase::Done;
                PollAction::Finish { outcome: Err(CollectorError::Cursor(e)) }
            },
        }
    }
}

/// A cycle whose publish was rejected leaves the checkpoint as it was
/// before the cycle, unless the source declared that checkpoint invalid, in
/// which case it stays removed.
pub proof fn lemma_failed_publish_keeps_checkpoint(c: PollCycle)
    requires
        c.wf(),
        c.publish_failed(),
    ensures
        !c.reset_done() ==> c.stored() == c.initial(),
        c.reset_done() ==> c.stored() is None,
{
}

/// The checkpoint only ever moves to the last cursor of an acknowledged
/// batch: while a cycle is under way, and after one that failed before
/// its save, it is the initial one or none.
pub proof fn lemma_checkpoint_unchanged_until_saved(c: PollCycle)
    requires
        c.wf(),
        !(c.phase() is Done),
    ensures
        c.stored() == c.initial() || (c.reset_done() && c.stored() is None),
{
}

} // verus!
