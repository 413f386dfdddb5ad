//! The course of a patch inside one transaction of the store: the row is
//! read, the given fields are laid over it, the row is written back, and
//! the transaction is committed. The caller talks to the store and
//! reports what it said; what to do next is decided here.

use crate::error::{Error, StoreError};
use crate::patch::{patched, request_view, PatchView, PermissionPatch};
use crate::permission::{Permission, PermissionView};
use vstd::prelude::*;

verus! {

/// How far a patch has come.
#[derive(Debug)]
pub enum Transaction {
    /// The row of the name is being read; the request waits for it.
    Reading(Result<PermissionPatch, Error>),
    /// The new row is being written.
    Writing,
    /// The transaction is being committed.
    Committing,
    /// The patch has ended.
    Over,
}

/// What the store said.
#[derive(Debug)]
pub enum Reply {
    /// The row that was read, if there is one of that name.
    Row(Option<Permission>),
    /// The number of rows that were written.
    Rows(Result<u64, StoreError>),
    /// Whether the transaction was committed.
    Committed(bool),
}

/// What the caller does next.
#[derive(Debug)]
pub enum Step {
    /// Write this row over the one of its name, and report the number of
    /// rows written.
    Write(Permission),
    /// Commit the transaction, and report whether that went well.
    Commit,
    /// Abandon the transaction: the patch has failed.
    Abandon(Error),
    /// Nothing: the patch has been applied.
    Done,
}

/// How far a patch has come, as a plain value.
pub enum TransactionView {
    Reading(Result<PatchView, Error>),
    Writing,
    Committing,
    Over,
}

/// What the store said, as a plain value.
pub enum ReplyView {
    Row(Option<PermissionView>),
    Rows(Result<u64, StoreError>),
    Committed(bool),
}

/// What the caller does next, as a plain value.
pub enum StepView {
    Write(PermissionView),
    Commit,
    Abandon(Error),
    Done,
}

impl View for Transaction {
    type V = TransactionView;

    open spec fn view(&self) -> TransactionView {
        match *self {
            Transaction::Reading(d) => TransactionView::Reading(request_view(d)),
            Transaction::Writing => TransactionView::Writing,
            Transaction::Committing => TransactionView::Committing,
            Transaction::Over => TransactionView::Over,
        }
    }
}

impl View for Reply {
    type V = ReplyView;

    open spec fn view(&self) -> ReplyView {
        match *self {
            Reply::Row(Some(p)) => ReplyView::Row(Some(p@)),
            Reply::Row(None) => ReplyView::Row(None),
            Reply::Rows(r) => ReplyView::Rows(r),
            Reply::Committed(c) => ReplyView::Committed(c),
        }
    }
}

impl View for Step {
    type V = StepView;

    open spec fn view(&self) -> StepView {
        match *self {
            Step::Write(p) => StepView::Write(p@),
            Step::Commit => StepView::Commit,
            Step::Abandon(e) => StepView::Abandon(e),
            Step::Done => StepView::Done,
        }
    }
}

/// The next state and step of a patch after a reply of the store.
///
/// A name that is not found ends the patch with `NotFound`. For a name
/// that is found, a request that is a refusal ends the patch with that
/// refusal, before anything is written. A write that
/// the store turns down ends it with `InvalidValue`; one that fails, or
/// changes another number of rows than one, with `Conflict`, and so does
/// a commit that fails. A reply that does not answer the last step ends
/// the patch with `Conflict`.
pub open spec fn next(t: TransactionView, reply: ReplyView) -> (TransactionView, StepView) {
    match (t, reply) {
        (TransactionView::Reading(Ok(d)), ReplyView::Row(Some(p))) => (
            TransactionView::Writing,
            StepView::Write(patched(p, d)),
        ),
        (TransactionView::Reading(Err(e)), ReplyView::Row(Some(_))) => (
            TransactionView::Over,
            StepView::Abandon(e),
        ),
        (TransactionView::Reading(_), ReplyView::Row(None)) => (
            TransactionView::Over,
            StepView::Abandon(Error::NotFound),
        ),
        (TransactionView::Writing, ReplyView::Rows(Ok(rows))) => if rows == 1 {
            (TransactionView::Committing, StepView::Commit)
        } else {
            (TransactionView::Over, StepView::Abandon(Error::Conflict))
        },
        (TransactionView::Writing, ReplyView::Rows(Err(StoreError::Rejected))) => (
            TransactionView::Over,
            StepView::Abandon(Error::InvalidValue),
        ),
        (TransactionView::Committing, ReplyView::Committed(true)) => (
            TransactionView::Over,
            StepView::Done,
        ),
        _ => (TransactionView::Over, StepView::Abandon(Error::Conflict)),
    }
}

impl Transaction {
    /// Begins a patch on a request: a partial update, or the refusal of
    /// a document. The caller opens a transaction, reads the row of the
    /// name in it, and reports the row.
    pub fn begin(request: Result<PermissionPatch, Error>) -> (r: Transaction)
        ensures
            r@ == TransactionView::Reading(request_view(request)),
    {
        Transaction::Reading(request)
    }

    /// Takes a reply of the store and says what to do next.
    pub fn step(self, reply: Reply) -> (r: (Transaction, Step))
        ensures
            (r.0@, r.1@) == next(self@, reply@),
    {
        match (self, reply) {
            (Transaction::Reading(Ok(patch)), Reply::Row(Some(row))) => (
                Transaction::Writing,
                Step::Write(row.patched(patch)),
            ),
            (Transaction::Reading(Err(e)), Reply::Row(Some(_))) => (
                Transaction::Over,
                Step::Abandon(e),
            ),
            (Transaction::Reading(_), Reply::Row(None)) => (
                Transaction::Over,
                Step::Abandon(Error::NotFound),
            ),
            (Transaction::Writing, Reply::Rows(Ok(rows))) => if rows == 1 {
                (Transaction::Committing, Step::Commit)
            } else {
                (Transaction::Over, Step::Abandon(Error::Conflict))
            },
            (Transaction::Writing, Reply::Rows(Err(StoreError::Rejected))) => (
                Transaction::Over,
                Step::Abandon(Error::InvalidValue),
            ),
            (Transaction::Committing, Reply::Committed(true)) => (Transaction::Over, Step::Done),
            _ => (Transaction::Over, Step::Abandon(Error::Conflict)),
        }
    }
}

} // verus!
