//! The typed failures a tab-level operation can surface.
//!
//! Precondition violations — popping an empty sequence, closing when it
//! is disallowed, addressing the active pane when the index is out of
//! range — surface a [`TabError`] to the caller instead of panicking.
//! The failed operation performs no partial mutation.

use vstd::prelude::*;

verus! {

/// A failure surfaced by a tab-level operation.
#[derive(Clone, Copy, Debug, PartialEq, Eq)]
pub enum TabError {
    /// No pane stands where the operation looked: the sequence was
    /// empty, or the active index was out of range.
    NoTab,
    /// Closing was refused because only one tab remains.
    LastTab,
    /// The host handed out a tab-name list that does not line up
    /// one-to-one with the pane sequence.
    BadNames,
    /// A host-defined operation (a pane, a hook, a tab-level command of
    /// the application) reported a failure of its own.
    App,
}

/// What [`TabError::message`] returns for each variant.
pub open spec fn message_of(e: TabError) -> Seq<char> {
    match e {
        TabError::NoTab => "no tab at the active index"@,
        TabError::LastTab => "refusing to close the last tab"@,
        TabError::BadNames => "tab names do not match the panes"@,
        TabError::App => "a tab operation failed in the application"@,
    }
}

impl TabError {
    /// A short description of the failure, fit for the error log.
    pub fn message(&self) -> (r: String)
        ensures
            r@ == message_of(*self),
    {
        match self {
            TabError::NoTab => "no tab at the active index".to_owned(),
            TabError::LastTab => "refusing to close the last tab".to_owned(),
            TabError::BadNames => "tab names do not match the panes".to_owned(),
            TabError::App => "a tab operation failed in the application".to_owned(),
        }
    }
}

} // verus!
