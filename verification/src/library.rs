//! What a process knows of the debugger's shared library.
//!
//! The library is loaded at most once in a process. The first outcome, a handle
//! or the loader's reason for failing, is kept for the rest of the process and
//! answers every later access.

use vstd::prelude::*;

verus! {

/// What is known of the shared library.
pub enum LibraryState {
    /// No load has been attempted yet.
    Untried,
    /// The load succeeded; this is the loader's handle.
    Loaded(usize),
    /// The load failed; this is the loader's reason.
    Failed(Seq<char>),
}

/// The record of the one attempt to load the shared library.
#[derive(Debug)]
pub struct LibraryHandle {
    outcome: Option<Result<usize, String>>,
}

impl View for LibraryHandle {
    type V = LibraryState;

    closed spec fn view(&self) -> LibraryState {
        match self.outcome {
            None => LibraryState::Untried,
            Some(Ok(library)) => LibraryState::Loaded(library),
            Some(Err(reason)) => LibraryState::Failed(reason@),
        }
    }
}

/// The state that the outcome of a load leaves behind.
pub open spec fn state_after(outcome: Result<usize, String>) -> LibraryState {
    match outcome {
        Ok(library) => LibraryState::Loaded(library),
        Err(reason) => LibraryState::Failed(reason@),
    }
}

/// The state of a record after an outcome is recorded in it: the outcome
/// counts only where none was recorded before.
pub open spec fn recorded(state: LibraryState, outcome: Result<usize, String>) -> LibraryState {
    if state is Untried {
        state_after(outcome)
    } else {
        state
    }
}

impl LibraryHandle {
    /// A record that holds no attempt yet.
    pub fn new() -> (handle: LibraryHandle)
        ensures
            handle@ == LibraryState::Untried,
    {
        LibraryHandle { outcome: None }
    }

    /// Whether a load has been attempted.
    pub fn is_tried(&self) -> (tried: bool)
        ensures
            tried == !(self@ is Untried),
    {
        self.outcome.is_some()
    }

    /// Records the outcome of a load. Only the first outcome is kept: a record
    /// that already holds one does not change.
    pub fn record(&mut self, outcome: Result<usize, String>)
        ensures
            final(self)@ == recorded(old(self)@, outcome),
            !(final(self)@ is Untried),
    {
        if self.outcome.is_none() {
            self.outcome = Some(outcome);
        }
    }

    /// The loader's handle, where the load succeeded.
    pub fn library(&self) -> (library: Option<usize>)
        ensures
            library == (match self@ {
                LibraryState::Loaded(handle) => Some(handle),
                _ => None,
            }),
    {
        match &self.outcome {
            Some(Ok(library)) => Some(*library),
            _ => None,
        }
    }

    /// The loader's reason, where the load failed.
    pub fn failure(&self) -> (reason: Option<String>)
        ensures
            match self@ {
                LibraryState::Failed(text) => reason matches Some(r) && r@ == text,
                _ => reason is None,
            },
    {
        match &self.outcome {
            Some(Err(reason)) => Some(reason.clone()),
            _ => None,
        }
    }
}

/// A load is attempted at most once: after the first outcome the record is
/// never untried again, and whatever is recorded later, it answers as it did
/// after the first.
pub proof fn lemma_first_outcome_stays(
    first: Result<usize, String>,
    second: Result<usize, String>,
)
    ensures
        recorded(LibraryState::Untried, first) == state_after(first),
        !(recorded(LibraryState::Untried, first) is Untried),
        recorded(recorded(LibraryState::Untried, first), second) == state_after(first),
{
}

} // verus!
