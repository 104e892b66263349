//! What a Rime session shows: the composition being typed and the menu of
//! candidates, as plain values.

use vstd::prelude::*;

use crate::text::{owned, concat};

verus! {

/// The text being composed.
#[derive(Debug, Clone)]
pub struct Composition {
    pub length: usize,
    pub cursor_pos: usize,
    pub sel_start: usize,
    pub sel_end: usize,
    pub preedit: Option<&'static str>,
}

/// One candidate of the menu.
#[derive(Debug, Clone)]
pub struct Candidate {
    pub text: &'static str,
    pub comment: Option<&'static str>,
}

/// The candidate menu of the current page.
#[derive(Debug, Clone)]
pub struct Menu {
    pub page_size: usize,
    pub page_no: usize,
    pub is_last_page: bool,
    pub highlighted_candidate_index: usize,
    pub num_candidates: usize,
    pub candidates: Vec<Candidate>,
    pub select_keys: Option<&'static str>,
}

} // verus!

verus! {

/// Why a call into Rime failed.
#[derive(Debug)]
pub enum Error {
    ApiNotInitialized,
    FunctionNotAvailable(&'static str),
    CreateSession,
    StartMaintenance,
    SyncUserData,
    GetContext,
    GetStatus,
    GetCommit,
    SelectSchema,
    CloseSession,
    SimulateKeySequence,
    InvalidUtf8,
    /// A string handed to Rime holds a NUL byte, at this position.
    NulByte(usize),
}

/// The text an error reads as.
pub open spec fn error_message(e: Error) -> Seq<char> {
    match e {
        Error::ApiNotInitialized => "Rime API not initialized"@,
        Error::FunctionNotAvailable(f) => "Rime function '"@ + f@ + "' not available"@,
        Error::CreateSession => "Failed to create session"@,
        Error::StartMaintenance => "Failed to start maintenance"@,
        Error::SyncUserData => "Failed to sync user data"@,
        Error::GetContext => "Failed to get context"@,
        Error::GetStatus => "Failed to get status"@,
        Error::GetCommit => "Failed to get commit"@,
        Error::SelectSchema => "Failed to select schema"@,
        Error::CloseSession => "Failed to close session"@,
        Error::SimulateKeySequence => "Failed to simulate key sequence"@,
        Error::InvalidUtf8 => "Invalid UTF-8 string"@,
        Error::NulByte(_) => "String contains null byte"@,
    }
}

impl Error {
    /// The text the error reads as.
    pub fn message(&self) -> (r: String)
        ensures
            r@ == error_message(*self),
    {
        match self {
            Error::ApiNotInitialized => owned("Rime API not initialized"),
            Error::FunctionNotAvailable(f) => {
                let a = concat("Rime function '", f);
                concat(a.as_str(), "' not available")
            },
            Error::CreateSession => owned("Failed to create session"),
            Error::StartMaintenance => owned("Failed to start maintenance"),
            Error::SyncUserData => owned("Failed to sync user data"),
            Error::GetContext => owned("Failed to get context"),
            Error::GetStatus => owned("Failed to get status"),
            Error::GetCommit => owned("Failed to get commit"),
            Error::SelectSchema => owned("Failed to select schema"),
            Error::CloseSession => owned("Failed to close session"),
            Error::SimulateKeySequence => owned("Failed to simulate key sequence"),
            Error::InvalidUtf8 => owned("Invalid UTF-8 string"),
            Error::NulByte(_) => owned("String contains null byte"),
        }
    }
}

} // verus!
