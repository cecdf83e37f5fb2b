//! What can go wrong with the change-log.

use crate::document::AccessFailure;
use vstd::prelude::*;
use vstd::std_specs::convert::FromSpecImpl;

verus! {

/// `mongodb::error::Error`: a failure that the database driver reports.
/// The library carries such a value and never looks into it.
#[verifier::external_type_specification]
#[verifier::external_body]
pub struct ExDatabaseError(mongodb::error::Error);

/// A failure of the library. Each one is final for the record or the
/// stream that it is about.
#[derive(Debug)]
pub enum OplogError {
    /// A field that decoding needs is absent or of the wrong type.
    MissingField(AccessFailure),
    /// The database reported a failure.
    Database(mongodb::error::Error),
    /// The record's operation code is none that decoding knows; the code
    /// comes with it.
    UnknownOperation(String),
}

/// An [`OplogError`] with its text as a sequence of characters.
pub enum ErrorView {
    MissingField(AccessFailure),
    Database(mongodb::error::Error),
    UnknownOperation(Seq<char>),
}

impl View for OplogError {
    type V = ErrorView;

    open spec fn view(&self) -> ErrorView {
        match *self {
            OplogError::MissingField(why) => ErrorView::MissingField(why),
            OplogError::Database(failure) => ErrorView::Database(failure),
            OplogError::UnknownOperation(code) => ErrorView::UnknownOperation(code@),
        }
    }
}

impl From<AccessFailure> for OplogError {
    fn from(why: AccessFailure) -> (error: OplogError) {
        OplogError::MissingField(why)
    }
}

impl FromSpecImpl<AccessFailure> for OplogError {
    open spec fn obeys_from_spec() -> bool {
        true
    }

    open spec fn from_spec(why: AccessFailure) -> OplogError {
        OplogError::MissingField(why)
    }
}

impl From<mongodb::error::Error> for OplogError {
    fn from(failure: mongodb::error::Error) -> (error: OplogError) {
        OplogError::Database(failure)
    }
}

impl FromSpecImpl<mongodb::error::Error> for OplogError {
    open spec fn obeys_from_spec() -> bool {
        true
    }

    open spec fn from_spec(failure: mongodb::error::Error) -> OplogError {
        OplogError::Database(failure)
    }
}

} // verus!
