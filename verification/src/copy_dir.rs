//! Copying a directory tree, one decision at a time.
//!
//! A copy mirrors one directory into another: it makes sure that the
//! destination is there, lists the source, and copies each entry in turn, a
//! directory by a copy of its own. As with a load, the crate decides and the
//! caller acts: each `CopyRequest` is performed by the caller and answered
//! with a `CopyReply`. The first fault ends the copy, and nothing that was
//! copied before it is taken back.

use vstd::prelude::*;

verus! {

/// What the caller has to do next for a copy.
#[derive(Debug, Copy, Clone, PartialEq, Eq, Structural)]
pub enum CopyRequest {
    /// Report whether the destination is a directory.
    ProbeDestination,
    /// Create the destination directory.
    CreateDestination,
    /// Open the source directory to list its entries.
    List,
    /// Take the next entry of the listing, if there is one, and tell its
    /// kind.
    NextEntry,
    /// Copy the entry that was taken last, a file, into the destination
    /// under its own name.
    CopyFile,
    /// Copy the entry that was taken last, a directory, into the
    /// destination under its own name, by a copy of its own.
    CopyDirectory,
}

/// What an entry of the source is: a directory, which is copied entry by
/// entry, or anything else, which is copied as a file.
#[derive(Debug, Copy, Clone, PartialEq, Eq, Structural)]
pub enum EntryKind {
    /// A directory.
    Directory,
    /// Anything that is not a directory.
    File,
}

/// What the caller reports for a copy. `E` is the fault of the file
/// system, which the copy hands on as it is.
#[derive(Debug, PartialEq, Eq)]
pub enum CopyReply<E> {
    /// Answers `ProbeDestination`.
    Probed(bool),
    /// Answers `CreateDestination`, `List`, `CopyFile` and `CopyDirectory`.
    Done(Result<(), E>),
    /// Answers `NextEntry`: `None` at the end of the listing.
    Entry(Option<Result<EntryKind, E>>),
}

/// Why a copy ended early.
#[derive(Debug, PartialEq, Eq)]
pub enum CopyError<E> {
    /// The source is not a directory.
    NotADirectory,
    /// The file system failed; nothing is taken back.
    Io(E),
}

/// A copy after a reply: still asking, or done.
#[derive(Debug, PartialEq, Eq)]
pub enum CopyStep<E> {
    /// The copy has a request pending.
    Pending(CopyRequest),
    /// The copy has ended.
    Finished(Result<(), CopyError<E>>),
}

/// How a copy starts: a source that is not a directory ends it at once,
/// before anything is created; otherwise the destination is probed.
pub open spec fn copy_start<E>(source_is_directory: bool) -> CopyStep<E> {
    if source_is_directory {
        CopyStep::Pending(CopyRequest::ProbeDestination)
    } else {
        CopyStep::Finished(Err(CopyError::NotADirectory))
    }
}

/// What follows an operation that can only succeed or fail.
pub open spec fn copy_after<E>(done: Result<(), E>, next: CopyRequest) -> CopyStep<E> {
    match done {
        Ok(_) => CopyStep::Pending(next),
        Err(fault) => CopyStep::Finished(Err(CopyError::Io(fault))),
    }
}

impl CopyRequest {
    /// Whether a reply answers this request.
    pub open spec fn expects<E>(self, reply: CopyReply<E>) -> bool {
        match self {
            CopyRequest::ProbeDestination => reply is Probed,
            CopyRequest::NextEntry => reply is Entry,
            _ => reply is Done,
        }
    }

    /// The step that a reply to this request leads to. The destination is
    /// created where it is not a directory yet; then the source is listed,
    /// and each entry is copied before the next is taken. A reply that does
    /// not answer the request changes nothing.
    pub open spec fn step<E>(self, reply: CopyReply<E>) -> CopyStep<E> {
        match (self, reply) {
            (CopyRequest::ProbeDestination, CopyReply::Probed(true)) => CopyStep::Pending(
                CopyRequest::List,
            ),
            (CopyRequest::ProbeDestination, CopyReply::Probed(false)) => CopyStep::Pending(
                CopyRequest::CreateDestination,
            ),
            (CopyRequest::CreateDestination, CopyReply::Done(done)) => copy_after(
                done,
                CopyRequest::List,
            ),
            (CopyRequest::List, CopyReply::Done(done)) => copy_after(done, CopyRequest::NextEntry),
            (CopyRequest::NextEntry, CopyReply::Entry(None)) => CopyStep::Finished(Ok(())),
            (CopyRequest::NextEntry, CopyReply::Entry(Some(Ok(EntryKind::Directory)))) =>
                CopyStep::Pending(CopyRequest::CopyDirectory),
            (CopyRequest::NextEntry, CopyReply::Entry(Some(Ok(EntryKind::File)))) =>
                CopyStep::Pending(CopyRequest::CopyFile),
            (CopyRequest::NextEntry, CopyReply::Entry(Some(Err(fault)))) => CopyStep::Finished(
                Err(CopyError::Io(fault)),
            ),
            (CopyRequest::CopyFile, CopyReply::Done(done)) => copy_after(
                done,
                CopyRequest::NextEntry,
            ),
            (CopyRequest::CopyDirectory, CopyReply::Done(done)) => copy_after(
                done,
                CopyRequest::NextEntry,
            ),
            _ => CopyStep::Pending(self),
        }
    }

    /// The step that a reply to this request leads to.
    pub fn advance<E>(self, reply: CopyReply<E>) -> (step: CopyStep<E>)
        ensures
            step == self.step(reply),
    {
        match (self, reply) {
            (CopyRequest::ProbeDestination, CopyReply::Probed(true)) => CopyStep::Pending(
                CopyRequest::List,
            ),
            (CopyRequest::ProbeDestination, CopyReply::Probed(false)) => CopyStep::Pending(
                CopyRequest::CreateDestination,
            ),
            (CopyRequest::CreateDestination, CopyReply::Done(done)) => after(
                done,
                CopyRequest::List,
            ),
            (CopyRequest::List, CopyReply::Done(done)) => after(done, CopyRequest::NextEntry),
            (CopyRequest::NextEntry, CopyReply::Entry(None)) => CopyStep::Finished(Ok(())),
            (CopyRequest::NextEntry, CopyReply::Entry(Some(Ok(EntryKind::Directory)))) =>
                CopyStep::Pending(CopyRequest::CopyDirectory),
            (CopyRequest::NextEntry, CopyReply::Entry(Some(Ok(EntryKind::File)))) =>
                CopyStep::Pending(CopyRequest::CopyFile),
            (CopyRequest::NextEntry, CopyReply::Entry(Some(Err(fault)))) => CopyStep::Finished(
                Err(CopyError::Io(fault)),
            ),
            (CopyRequest::CopyFile, CopyReply::Done(done)) => after(done, CopyRequest::NextEntry),
            (CopyRequest::CopyDirectory, CopyReply::Done(done)) => after(
                done,
                CopyRequest::NextEntry,
            ),
            (pending, _) => CopyStep::Pending(pending),
        }
    }
}

/// What follows an operation that can only succeed or fail.
fn after<E>(done: Result<(), E>, next: CopyRequest) -> (step: CopyStep<E>)
    ensures
        step == copy_after(done, next),
{
    match done {
        Ok(_) => CopyStep::Pending(next),
        Err(fault) => CopyStep::Finished(Err(CopyError::Io(fault))),
    }
}

/// Starts the copy of a directory, given whether the source is one.
pub fn copy_dir<E>(source_is_directory: bool) -> (step: CopyStep<E>)
    ensures
        step == copy_start::<E>(source_is_directory),
{
    if source_is_directory {
        CopyStep::Pending(CopyRequest::ProbeDestination)
    } else {
        CopyStep::Finished(Err(CopyError::NotADirectory))
    }
}

/// The first fault ends the copy, and the copy hands that fault on.
pub proof fn lemma_copy_stops_at_the_first_fault<E>(pending: CopyRequest, fault: E)
    ensures
        pending.expects(CopyReply::Done(Err(fault))) ==> pending.step(CopyReply::Done(Err(fault)))
            == CopyStep::Finished(Err(CopyError::Io(fault))),
        pending.expects(CopyReply::Entry(Some(Err(fault)))) ==> pending.step(
            CopyReply::Entry(Some(Err(fault))),
        ) == CopyStep::Finished(Err(CopyError::Io(fault))),
{
}

/// A copy ends well only at the end of the listing: after every entry
/// that was taken has been copied.
pub proof fn lemma_copy_ends_at_the_end_of_the_listing<E>(pending: CopyRequest, reply: CopyReply<E>)
    ensures
        pending.step(reply) == CopyStep::<E>::Finished(Ok(())) <==> pending
            == CopyRequest::NextEntry && reply == CopyReply::<E>::Entry(None),
        pending.step(reply) == CopyStep::<E>::Pending(CopyRequest::NextEntry) && pending
            != CopyRequest::NextEntry ==> reply matches CopyReply::Done(Ok(_)),
{
}

/// The destination is created only where it was probed and found missing.
pub proof fn lemma_copy_creates_only_what_is_missing<E>(pending: CopyRequest, reply: CopyReply<E>)
    ensures
        pending.step(reply) == CopyStep::<E>::Pending(CopyRequest::CreateDestination) && pending
            != CopyRequest::CreateDestination ==> pending == CopyRequest::ProbeDestination && reply
            == CopyReply::<E>::Probed(false),
{
}

} // verus!
