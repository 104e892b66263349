//! Why drawing the candidate bar or the root window failed.

use vstd::prelude::*;

use crate::text::concat;

verus! {

/// A drawing failure, with its detail.
#[derive(Debug)]
pub enum Error {
    PixmapCreationFailed(String),
    RenderFailed(String),
}

/// The text an error reads as.
pub open spec fn ui_error_message(e: Error) -> Seq<char> {
    match e {
        Error::PixmapCreationFailed(d) => "Failed to create pixmap: "@ + d@,
        Error::RenderFailed(d) => "Failed to render: "@ + d@,
    }
}

impl Error {
    /// The text the error reads as.
    pub fn message(&self) -> (r: String)
        ensures
            r@ == ui_error_message(*self),
    {
        match self {
            Error::PixmapCreationFailed(d) => concat("Failed to create pixmap: ", d.as_str()),
            Error::RenderFailed(d) => concat("Failed to render: ", d.as_str()),
        }
    }
}

} // verus!
