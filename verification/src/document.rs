//! Raw change records.
//!
//! A record is a `bson::Document`, which Verus cannot look into. Contracts
//! speak of a record through [`fields`], the map from each key of the
//! document to what is stored under it, and the accessors below are the
//! only way in which the library reads one.

use bson::document::ValueAccessError;
use bson::Document;
use vstd::prelude::*;

verus! {

/// `bson::Document`: an ordered map from keys to values of many types.
/// Nothing of what is inside a value is known here but through [`fields`].
#[verifier::external_type_specification]
#[verifier::external_body]
pub struct ExDocument(bson::Document);

/// What a document stores under one key, as far as decoding tells values
/// apart.
pub enum Field {
    /// A string.
    Text(Seq<char>),
    /// A 64-bit signed integer.
    Int64(i64),
    /// A replication timestamp: a count of seconds and an ordinal.
    Timestamp { time: u32, increment: u32 },
    /// A nested document.
    Document(Document),
    /// A value of any other type.
    Other,
}

/// Why a field could not be read.
#[derive(Clone, Copy, Debug, PartialEq, Eq, Structural)]
pub enum AccessFailure {
    /// The document has no such key.
    NotPresent,
    /// The key is there, with a value of another type than the one asked
    /// for.
    UnexpectedType,
}

/// The contents of a document: its keys, each with the value stored
/// under it. It has no definition here: all that is known of it is what
/// the accessors below are trusted to read from the document.
pub uninterp spec fn fields(document: Document) -> Map<Seq<char>, Field>;

/// Reading `key` as a string.
pub open spec fn text_at(record: Map<Seq<char>, Field>, key: Seq<char>) -> Result<
    Seq<char>,
    AccessFailure,
> {
    if !record.contains_key(key) {
        Err(AccessFailure::NotPresent)
    } else {
        match record[key] {
            Field::Text(text) => Ok(text),
            _ => Err(AccessFailure::UnexpectedType),
        }
    }
}

/// Reading `key` as a 64-bit integer.
pub open spec fn int64_at(record: Map<Seq<char>, Field>, key: Seq<char>) -> Result<
    i64,
    AccessFailure,
> {
    if !record.contains_key(key) {
        Err(AccessFailure::NotPresent)
    } else {
        match record[key] {
            Field::Int64(number) => Ok(number),
            _ => Err(AccessFailure::UnexpectedType),
        }
    }
}

/// Reading `key` as a replication timestamp: its seconds, then its
/// ordinal.
pub open spec fn timestamp_at(record: Map<Seq<char>, Field>, key: Seq<char>) -> Result<
    (u32, u32),
    AccessFailure,
> {
    if !record.contains_key(key) {
        Err(AccessFailure::NotPresent)
    } else {
        match record[key] {
            Field::Timestamp { time, increment } => Ok((time, increment)),
            _ => Err(AccessFailure::UnexpectedType),
        }
    }
}

/// Reading `key` as a nested document.
pub open spec fn document_at(record: Map<Seq<char>, Field>, key: Seq<char>) -> Result<
    Document,
    AccessFailure,
> {
    if !record.contains_key(key) {
        Err(AccessFailure::NotPresent)
    } else {
        match record[key] {
            Field::Document(nested) => Ok(nested),
            _ => Err(AccessFailure::UnexpectedType),
        }
    }
}

/// `bson::Document::get_str`. Trusted: it hands out the string stored
/// under `key`; it fails with `NotPresent` where the document has no such
/// key and with `UnexpectedType` where the value is no string.
#[verifier::external_body]
pub(crate) fn get_str<'a>(document: &'a Document, key: &str) -> (found: Result<
    &'a str,
    AccessFailure,
>)
    ensures
        match found {
            Ok(text) => text_at(fields(*document), key@) == Ok::<Seq<char>, AccessFailure>(text@),
            Err(why) => text_at(fields(*document), key@) == Err::<Seq<char>, AccessFailure>(why),
        },
{
    match document.get_str(key) {
        Ok(text) => Ok(text),
        Err(ValueAccessError::NotPresent) => Err(AccessFailure::NotPresent),
        Err(_) => Err(AccessFailure::UnexpectedType),
    }
}

/// `bson::Document::get_i64`. Trusted: it returns the 64-bit integer
/// stored under `key`; it fails with `NotPresent` where the document has
/// no such key and with `UnexpectedType` where the value is of another
/// type, a 32-bit integer included.
#[verifier::external_body]
pub(crate) fn get_i64(document: &Document, key: &str) -> (found: Result<i64, AccessFailure>)
    ensures
        found == int64_at(fields(*document), key@),
{
    match document.get_i64(key) {
        Ok(number) => Ok(number),
        Err(ValueAccessError::NotPresent) => Err(AccessFailure::NotPresent),
        Err(_) => Err(AccessFailure::UnexpectedType),
    }
}

/// `bson::Document::get_timestamp`. Trusted: it returns the two halves of
/// the timestamp stored under `key`, seconds first; it fails with
/// `NotPresent` where the document has no such key and with
/// `UnexpectedType` where the value is no timestamp.
#[verifier::external_body]
pub(crate) fn get_timestamp(document: &Document, key: &str) -> (found: Result<
    (u32, u32),
    AccessFailure,
>)
    ensures
        found == timestamp_at(fields(*document), key@),
{
    match document.get_timestamp(key) {
        Ok(stamp) => Ok((stamp.time, stamp.increment)),
        Err(ValueAccessError::NotPresent) => Err(AccessFailure::NotPresent),
        Err(_) => Err(AccessFailure::UnexpectedType),
    }
}

/// `bson::Document::get_document`. Trusted: it hands out the document
/// stored under `key`, itself and no copy; it fails with `NotPresent`
/// where the document has no such key and with `UnexpectedType` where the
/// value is no document.
#[verifier::external_body]
pub(crate) fn get_document<'a>(document: &'a Document, key: &str) -> (found: Result<
    &'a Document,
    AccessFailure,
>)
    ensures
        match found {
            Ok(nested) => document_at(fields(*document), key@) == Ok::<Document, AccessFailure>(
                *nested,
            ),
            Err(why) => document_at(fields(*document), key@) == Err::<Document, AccessFailure>(why),
        },
{
    match document.get_document(key) {
        Ok(nested) => Ok(nested),
        Err(ValueAccessError::NotPresent) => Err(AccessFailure::NotPresent),
        Err(_) => Err(AccessFailure::UnexpectedType),
    }
}

} // verus!
