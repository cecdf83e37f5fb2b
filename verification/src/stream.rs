//! The decisions of a stream that follows the change-log.
//!
//! The stream itself holds a live cursor and waits on the network, which
//! is no business of this library. Whoever holds the cursor pulls from
//! it, hands each outcome to [`step`] and does what the answer says: that
//! way a caller of the stream sees documents only, in the order in which
//! the log produced them.
//!
//! Nothing but a document ends the wait. There is no limit to the retries
//! and no pause between them, and a cursor that the server has closed is
//! not told apart from one that has nothing new: both give `None`, and
//! the stream goes on pulling. Whoever runs the loop and wants to give up
//! after a time has to count the retries there.

use bson::Document;
use mongodb::error::Error;
use vstd::prelude::*;

verus! {

/// How a cursor that follows a collection behaves at the end of what the
/// server has.
#[derive(Clone, Copy, Debug, PartialEq, Eq, Structural)]
pub enum CursorKind {
    /// It closes after the last document.
    NonTailable,
    /// It stays open, and returns what arrives later.
    Tailable,
    /// It stays open, and waits for more where there is nothing yet.
    TailableAwait,
}

/// Where to look for the change-log, and with what kind of cursor.
#[derive(Clone, Copy, Debug, PartialEq)]
pub struct Query {
    /// The database that holds the log.
    pub database: &'static str,
    /// The collection that holds the log.
    pub collection: &'static str,
    /// The kind of cursor to open on it.
    pub cursor: CursorKind,
    /// Whether the server is to keep an idle cursor.
    pub no_cursor_timeout: bool,
}

/// The query that follows the change-log: over `oplog.rs` in `local`,
/// with a cursor that waits for more and that the server keeps while it
/// is idle.
pub fn tailing_query() -> (query: Query)
    ensures
        query.database@ == "local"@,
        query.collection@ == "oplog.rs"@,
        query.cursor == CursorKind::TailableAwait,
        query.no_cursor_timeout,
{
    Query {
        database: "local",
        collection: "oplog.rs",
        cursor: CursorKind::TailableAwait,
        no_cursor_timeout: true,
    }
}

/// What the stream does after one pull of its cursor.
#[derive(Debug)]
pub enum Step {
    /// Hand the document to the caller.
    Yield(Document),
    /// Pull again: the caller is told nothing.
    Retry,
}

/// The decision for each outcome of a pull. A document is handed on.
/// `None`, which a following cursor gives while there is nothing new, and
/// a failed fetch are both absorbed.
pub open spec fn decision(pulled: Option<Result<Document, Error>>) -> Step {
    match pulled {
        Some(Ok(document)) => Step::Yield(document),
        _ => Step::Retry,
    }
}

/// The documents that a caller of the stream has seen after the given
/// pulls, oldest first.
pub open spec fn delivered(pulls: Seq<Option<Result<Document, Error>>>) -> Seq<Document>
    decreases pulls.len(),
{
    if pulls.len() == 0 {
        Seq::empty()
    } else {
        match decision(pulls.last()) {
            Step::Yield(document) => delivered(pulls.drop_last()).push(document),
            Step::Retry => delivered(pulls.drop_last()),
        }
    }
}

/// Decides what follows one pull of the cursor.
pub fn step(pulled: Option<Result<Document, Error>>) -> (next: Step)
    ensures
        next == decision(pulled),
{
    if let Some(Ok(op)) = pulled {
        Step::Yield(op)
    } else {
        Step::Retry
    }
}

/// Runs the stream over a finished series of pulls and returns what its
/// caller sees.
pub fn deliver(pulls: Vec<Option<Result<Document, Error>>>) -> (documents: Vec<Document>)
    ensures
        documents@ == delivered(pulls@),
{
    let ghost all = pulls@;
    let mut documents: Vec<Document> = Vec::new();
    for pulled in source: pulls
        invariant
            source.seq() == all,
            documents@ == delivered(all.take(source.index() as int)),
    {
        proof {
            let upto = all.take(source.index() + 1);
            assert(upto.drop_last() == all.take(source.index() as int));
            assert(upto.last() == pulled);
        }
        match step(pulled) {
            Step::Yield(document) => {
                documents.push(document);
            },
            Step::Retry => {},
        }
    }
    assert(all.take(all.len() as int) == all);
    documents
}

/// A pull without a document changes nothing of what the caller sees; a
/// pull with one adds that document at the end.
pub proof fn lemma_delivery_step(
    pulls: Seq<Option<Result<Document, Error>>>,
    pulled: Option<Result<Document, Error>>,
)
    ensures
        delivered(pulls.push(pulled)) == match pulled {
            Some(Ok(document)) => delivered(pulls).push(document),
            _ => delivered(pulls),
        },
{
    assert(pulls.push(pulled).drop_last() == pulls);
}

/// What a caller sees of two series of pulls, one after the other, is
/// what it sees of the first followed by what it sees of the second.
pub proof fn lemma_delivery_concatenates(
    first: Seq<Option<Result<Document, Error>>>,
    second: Seq<Option<Result<Document, Error>>>,
)
    ensures
        delivered(first + second) == delivered(first) + delivered(second),
    decreases second.len(),
{
    if second.len() == 0 {
        assert(first + second == first);
    } else {
        lemma_delivery_concatenates(first, second.drop_last());
        assert((first + second).drop_last() == first + second.drop_last());
        assert((first + second).last() == second.last());
    }
}

} // verus!
