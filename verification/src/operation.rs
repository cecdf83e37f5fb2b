//! Decoding of raw change records into typed operations.

use crate::document::{
    document_at, fields, get_document, get_i64, get_str, get_timestamp, int64_at, text_at,
    timestamp_at, AccessFailure, Field,
};
use crate::error::{ErrorView, OplogError};
use crate::timestamp::{composite, decoded_time, pack, timestamp_to_datetime, Timestamp};
use bson::Document;
use vstd::prelude::*;
use vstd::string::StrSliceExecFns;

verus! {

/// The category of a change, with what belongs to that category alone.
///
/// Decoding produces `Insert` and `Noop` only; it rejects the codes of
/// the other four.
#[derive(PartialEq, Debug)]
pub enum Kind<'a> {
    Insert { namespace: &'a str },
    Update,
    Delete,
    Command,
    Database,
    Noop,
}

/// A [`Kind`] with its text as a sequence of characters.
pub enum KindView {
    Insert { namespace: Seq<char> },
    Update,
    Delete,
    Command,
    Database,
    Noop,
}

impl<'a> View for Kind<'a> {
    type V = KindView;

    open spec fn view(&self) -> KindView {
        match *self {
            Kind::Insert { namespace } => KindView::Insert { namespace: namespace@ },
            Kind::Update => KindView::Update,
            Kind::Delete => KindView::Delete,
            Kind::Command => KindView::Command,
            Kind::Database => KindView::Database,
            Kind::Noop => KindView::Noop,
        }
    }
}

/// One change of the log. It borrows its payload, and the namespace of an
/// insert, from the record that it was decoded from.
#[derive(PartialEq, Debug)]
pub struct Operation<'a> {
    /// The identifier that the log gave the record.
    pub id: i64,
    /// When the change was made.
    pub timestamp: Timestamp,
    /// The payload: for an insert, the document that was inserted.
    pub document: &'a Document,
    /// What kind of change it is.
    pub kind: Kind<'a>,
}

/// An [`Operation`] as a plain value.
pub struct OperationView {
    pub id: i64,
    pub timestamp: Timestamp,
    pub document: Document,
    pub kind: KindView,
}

impl<'a> View for Operation<'a> {
    type V = OperationView;

    open spec fn view(&self) -> OperationView {
        OperationView {
            id: self.id,
            timestamp: self.timestamp,
            document: *self.document,
            kind: self.kind@,
        }
    }
}

/// What the fields that every kind of record has decode to, for a record
/// of the given kind: `h` becomes the identifier, `ts` the time and `o`
/// the payload. They are read in this order, and the first that is absent
/// or of the wrong type decides the failure.
pub open spec fn finished(record: Map<Seq<char>, Field>, kind: KindView) -> Result<
    OperationView,
    ErrorView,
> {
    match int64_at(record, "h"@) {
        Err(why) => Err(ErrorView::MissingField(why)),
        Ok(id) => match timestamp_at(record, "ts"@) {
            Err(why) => Err(ErrorView::MissingField(why)),
            Ok((time, increment)) => match document_at(record, "o"@) {
                Err(why) => Err(ErrorView::MissingField(why)),
                Ok(document) => Ok(
                    OperationView {
                        id,
                        timestamp: decoded_time(composite(time, increment) as i64),
                        document,
                        kind,
                    },
                ),
            },
        },
    }
}

/// What a record decodes to. The code under `op` decides: `n` is a
/// no-op, `i` an insert into the namespace under `ns`, and any other code
/// is rejected, before another field is looked at.
pub open spec fn decoded(record: Map<Seq<char>, Field>) -> Result<OperationView, ErrorView> {
    match text_at(record, "op"@) {
        Err(why) => Err(ErrorView::MissingField(why)),
        Ok(code) => if code == "n"@ {
            finished(record, KindView::Noop)
        } else if code == "i"@ {
            match text_at(record, "ns"@) {
                Err(why) => Err(ErrorView::MissingField(why)),
                Ok(namespace) => finished(record, KindView::Insert { namespace }),
            }
        } else {
            Err(ErrorView::UnknownOperation(code))
        },
    }
}

/// Whether `outcome` is what `expected` says, view for view.
pub open spec fn agrees(
    outcome: Result<Operation<'_>, OplogError>,
    expected: Result<OperationView, ErrorView>,
) -> bool {
    match outcome {
        Ok(operation) => expected == Ok::<OperationView, ErrorView>(operation@),
        Err(error) => expected == Err::<OperationView, ErrorView>(error@),
    }
}

/// Whether two strings hold the same text.
fn same_text(left: &str, right: &str) -> (same: bool)
    ensures
        same == (left@ == right@),
{
    let length = left.unicode_len();
    if length != right.unicode_len() {
        return false;
    }
    let mut at: usize = 0;
    while at < length
        invariant
            at <= length,
            length == left@.len(),
            length == right@.len(),
            forall|i: int| 0 <= i < at ==> left@[i] == right@[i],
        decreases length - at,
    {
        if left.get_char(at) != right.get_char(at) {
            return false;
        }
        at += 1;
    }
    assert(left@ =~= right@);
    true
}

impl<'a> Operation<'a> {
    /// Decodes a raw change record. The outcome is [`decoded`] of the
    /// fields of the record: the operation, which borrows its payload and
    /// its namespace from the record, or the first failure on the way.
    pub fn new(document: &'a Document) -> (outcome: Result<Operation<'a>, OplogError>)
        ensures
            agrees(outcome, decoded(fields(*document))),
    {
        let op = match get_str(document, "op") {
            Ok(op) => op,
            Err(why) => {
                return Err(OplogError::from(why));
            },
        };
        if same_text(op, "n") {
            document_to_noop(document)
        } else if same_text(op, "i") {
            document_to_insert(document)
        } else {
            Err(OplogError::UnknownOperation(op.to_owned()))
        }
    }

    /// Reads the fields that every kind of record has, and puts the
    /// operation together.
    fn new_with_kind<'f>(document: &'f Document, kind: Kind<'f>) -> (outcome: Result<
        Operation<'f>,
        OplogError,
    >)
        ensures
            agrees(outcome, finished(fields(*document), kind@)),
    {
        let h = match get_i64(document, "h") {
            Ok(h) => h,
            Err(why) => {
                return Err(OplogError::from(why));
            },
        };
        let ts = match get_timestamp(document, "ts") {
            Ok(ts) => ts,
            Err(why) => {
                return Err(OplogError::from(why));
            },
        };
        let o = match get_document(document, "o") {
            Ok(o) => o,
            Err(why) => {
                return Err(OplogError::from(why));
            },
        };
        Ok(Operation { id: h, timestamp: timestamp_to_datetime(pack(ts.0, ts.1)), document: o, kind })
    }
}

/// Decodes a record whose code is `n`.
fn document_to_noop(document: &Document) -> (outcome: Result<Operation<'_>, OplogError>)
    ensures
        agrees(outcome, finished(fields(*document), KindView::Noop)),
{
    Operation::new_with_kind(document, Kind::Noop)
}

/// Decodes a record whose code is `i`: the namespace is read before the
/// fields that every kind of record has.
fn document_to_insert(document: &Document) -> (outcome: Result<Operation<'_>, OplogError>)
    ensures
        agrees(
            outcome,
            match text_at(fields(*document), "ns"@) {
                Err(why) => Err(ErrorView::MissingField(why)),
                Ok(namespace) => finished(fields(*document), KindView::Insert { namespace }),
            },
        ),
{
    let kind = Kind::Insert {
        namespace: match get_str(document, "ns") {
            Ok(namespace) => namespace,
            Err(why) => {
                return Err(OplogError::from(why));
            },
        },
    };
    Operation::new_with_kind(document, kind)
}

/// A record with the code `n` decodes to a no-op: its identifier is the
/// number under `h`, negative or not, and its payload is the document
/// under `o`. The record has to hold `h`, `ts` and `o`, each of its type.
pub proof fn lemma_noop_decodes(
    record: Map<Seq<char>, Field>,
    id: i64,
    time: u32,
    increment: u32,
    payload: Document,
)
    requires
        text_at(record, "op"@) == Ok::<Seq<char>, AccessFailure>("n"@),
        int64_at(record, "h"@) == Ok::<i64, AccessFailure>(id),
        timestamp_at(record, "ts"@) == Ok::<(u32, u32), AccessFailure>((time, increment)),
        document_at(record, "o"@) == Ok::<Document, AccessFailure>(payload),
    ensures
        decoded(record) == Ok::<OperationView, ErrorView>(
            OperationView {
                id,
                timestamp: decoded_time(composite(time, increment) as i64),
                document: payload,
                kind: KindView::Noop,
            },
        ),
{
}

/// A record with the code `i` and a string under `ns` decodes to an
/// insert into that namespace. The record has to hold `h`, `ts` and `o`,
/// each of its type.
pub proof fn lemma_insert_decodes(
    record: Map<Seq<char>, Field>,
    namespace: Seq<char>,
    id: i64,
    time: u32,
    increment: u32,
    payload: Document,
)
    requires
        text_at(record, "op"@) == Ok::<Seq<char>, AccessFailure>("i"@),
        text_at(record, "ns"@) == Ok::<Seq<char>, AccessFailure>(namespace),
        int64_at(record, "h"@) == Ok::<i64, AccessFailure>(id),
        timestamp_at(record, "ts"@) == Ok::<(u32, u32), AccessFailure>((time, increment)),
        document_at(record, "o"@) == Ok::<Document, AccessFailure>(payload),
    ensures
        decoded(record) == Ok::<OperationView, ErrorView>(
            OperationView {
                id,
                timestamp: decoded_time(composite(time, increment) as i64),
                document: payload,
                kind: KindView::Insert { namespace },
            },
        ),
{
    reveal_strlit("n");
    reveal_strlit("i");
    assert("n"@[0] != "i"@[0]);
}

/// A record that lacks `h`, `ts` or `o`, or holds one of them with the
/// wrong type, fails to decode with `MissingField`, unless its code is
/// one that decoding rejects.
pub proof fn lemma_missing_field_fails(record: Map<Seq<char>, Field>)
    requires
        int64_at(record, "h"@) is Err || timestamp_at(record, "ts"@) is Err || document_at(
            record,
            "o"@,
        ) is Err,
        text_at(record, "op"@) matches Ok(code) ==> code == "n"@ || code == "i"@,
    ensures
        decoded(record) matches Err(ErrorView::MissingField(_)),
{
}

/// A record whose code is a string other than `n` and `i` fails to decode
/// with `UnknownOperation` and that code, whatever else it holds.
pub proof fn lemma_unknown_code_fails(record: Map<Seq<char>, Field>, code: Seq<char>)
    requires
        text_at(record, "op"@) == Ok::<Seq<char>, AccessFailure>(code),
        code != "n"@,
        code != "i"@,
    ensures
        decoded(record) == Err::<OperationView, ErrorView>(ErrorView::UnknownOperation(code)),
{
}

/// The codes of the four kinds that decoding knows of and does not
/// decode are rejected like any other.
pub proof fn lemma_undecoded_kinds_fail(record: Map<Seq<char>, Field>, code: Seq<char>)
    requires
        text_at(record, "op"@) == Ok::<Seq<char>, AccessFailure>(code),
        code == "u"@ || code == "d"@ || code == "c"@ || code == "db"@,
    ensures
        decoded(record) == Err::<OperationView, ErrorView>(ErrorView::UnknownOperation(code)),
{
    reveal_strlit("n");
    reveal_strlit("i");
    reveal_strlit("u");
    reveal_strlit("d");
    reveal_strlit("c");
    reveal_strlit("db");
    assert("n"@[0] == 'n' && "i"@[0] == 'i');
    assert("u"@[0] == 'u' && "d"@[0] == 'd' && "c"@[0] == 'c' && "db"@[0] == 'd');
}

/// Decoding one record twice gives the same outcome both times: two
/// operations with equal views, or two errors with equal views.
pub proof fn lemma_decoding_repeats(
    record: Document,
    first: Result<Operation<'_>, OplogError>,
    second: Result<Operation<'_>, OplogError>,
)
    requires
        agrees(first, decoded(fields(record))),
        agrees(second, decoded(fields(record))),
    ensures
        match (first, second) {
            (Ok(one), Ok(other)) => one@ == other@,
            (Err(one), Err(other)) => one@ == other@,
            _ => false,
        },
{
}

} // verus!
