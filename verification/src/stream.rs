//! The tool's output as a stream of JSON documents.
//!
//! Asked for the details of everything listed, the tool writes one JSON
//! document after the other. The stream is cut into its documents here, so
//! that each can be read on its own and one that does not hold the expected
//! record costs only itself.

use vstd::prelude::*;
use vstd::slice::{slice_subrange, slice_to_vec};

use crate::model::views;
use crate::op::Error;

verus! {

/// Where the first JSON value of the given bytes ends, as the stream reader of
/// `serde_json` finds it: the number of bytes up to the end of that value,
/// with the white space before it. `None` where the bytes do not begin with
/// a JSON value after white space.
pub uninterp spec fn json_value_end(bytes: Seq<u8>) -> Option<usize>;

/// Asks `serde_json` for the end of the first JSON value: makes a stream
/// reader over the bytes with `Deserializer::from_slice` and `into_iter`, takes
/// one value of any shape from it and hands out the reader's `byte_offset`.
/// The contract gives the outcome a name and claims that it depends on the
/// bytes alone; it claims nothing of how large the number is.
#[verifier::external_body]
fn first_value_end(bytes: &[u8]) -> (end: Option<usize>)
    ensures
        end == json_value_end(bytes@),
{
    let mut stream =
        serde_json::Deserializer::from_slice(bytes).into_iter::<serde::de::IgnoredAny>();
    match stream.next() {
        Some(Ok(_)) => Some(stream.byte_offset()),
        _ => None,
    }
}

/// Whether the end found for a first value cuts something off the bytes: it
/// is not 0 and does not lie behind the last byte.
pub open spec fn cuts(bytes: Seq<u8>, end: Option<usize>) -> bool {
    end matches Some(end) && 0 < end <= bytes.len()
}

/// The documents of a stream: the first JSON value with the white space before
/// it, then the documents of what follows it. The documents end where the
/// rest does not begin with a JSON value; what is left there belongs to none.
pub open spec fn documents_of(bytes: Seq<u8>) -> Seq<Seq<u8>>
    decreases bytes.len(),
{
    if cuts(bytes, json_value_end(bytes)) {
        let end = json_value_end(bytes)->Some_0 as int;
        seq![bytes.take(end)] + documents_of(bytes.skip(end))
    } else {
        Seq::empty()
    }
}

/// Cuts the bytes at the end found for their first value: the first part is
/// the document, the second what follows it. Nothing is cut where no end was
/// found, where the end is 0, or where it lies behind the last byte.
pub fn cut<'a>(bytes: &'a [u8], end: Option<usize>) -> (parts: Option<(&'a [u8], &'a [u8])>)
    ensures
        parts is Some <==> cuts(bytes@, end),
        parts matches Some((document, rest)) ==> document@ == bytes@.take(end->Some_0 as int)
            && rest@ == bytes@.skip(end->Some_0 as int),
{
    match end {
        Some(end) => {
            if 0 < end && end <= bytes.len() {
                let document = slice_subrange(bytes, 0, end);
                let rest = slice_subrange(bytes, end, bytes.len());
                assert(document@ =~= bytes@.take(end as int));
                assert(rest@ =~= bytes@.skip(end as int));
                Some((document, rest))
            } else {
                None
            }
        },
        None => None,
    }
}

/// The documents of a stream, in their order.
pub fn documents(bytes: &Vec<u8>) -> (found: Vec<Vec<u8>>)
    ensures
        views(found@) == documents_of(bytes@),
{
    let mut found: Vec<Vec<u8>> = Vec::new();
    let mut rest: &[u8] = bytes.as_slice();
    assert(views(found@) =~= Seq::<Seq<u8>>::empty());
    loop
        invariant
            documents_of(bytes@) == views(found@) + documents_of(rest@),
        ensures
            views(found@) == documents_of(bytes@),
        decreases rest@.len(),
    {
        match cut(rest, first_value_end(rest)) {
            Some((document, tail)) => {
                let ghost before = views(found@);
                let document = slice_to_vec(document);
                found.push(document);
                assert(views(found@) =~= before.push(document@));
                assert(before + (seq![document@] + documents_of(tail@)) =~= before.push(document@)
                    + documents_of(tail@));
                rest = tail;
            },
            None => {
                assert(views(found@) + Seq::<Seq<u8>>::empty() =~= views(found@));
                break ;
            },
        }
    }
    found
}

/// The records that the readings gave, in the order of the readings. A
/// reading that failed gives nothing and takes nothing from the others.
pub open spec fn records_read<T>(read: Seq<Result<T, Error>>) -> Seq<T>
    decreases read.len(),
{
    if read.len() == 0 {
        Seq::empty()
    } else {
        let front = records_read(read.drop_last());
        match read.last() {
            Ok(record) => front.push(record),
            Err(_) => front,
        }
    }
}

/// The failures of the readings that failed, in the order of the readings.
pub open spec fn failures_read<T>(read: Seq<Result<T, Error>>) -> Seq<Error>
    decreases read.len(),
{
    if read.len() == 0 {
        Seq::empty()
    } else {
        let front = failures_read(read.drop_last());
        match read.last() {
            Ok(_) => front,
            Err(error) => front.push(error),
        }
    }
}

/// Parts what the reading of each document of a stream gave: the records of
/// the documents that held one, in the order of the documents, and the
/// failures of the others, in their order, to be reported. A document that
/// does not hold the record costs only itself.
pub fn collect_records<T>(read: Vec<Result<T, Error>>) -> (found: (Vec<T>, Vec<Error>))
    ensures
        found.0@ == records_read(read@),
        found.1@ == failures_read(read@),
{
    let ghost all = read@;
    let mut records: Vec<T> = Vec::new();
    let mut failures: Vec<Error> = Vec::new();
    assert(all.take(0) =~= Seq::<Result<T, Error>>::empty());
    for reading in it: read
        invariant
            all == it.seq(),
            records@ == records_read(all.take(it.index())),
            failures@ == failures_read(all.take(it.index())),
    {
        assert(all.take(it.index() + 1).drop_last() =~= all.take(it.index()));
        assert(all.take(it.index() + 1).last() == reading);
        match reading {
            Ok(record) => {
                records.push(record);
            },
            Err(error) => {
                failures.push(error);
            },
        }
    }
    assert(all.take(all.len() as int) =~= all);
    (records, failures)
}

} // verus!
