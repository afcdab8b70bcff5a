//! The shape-dispatch decoder: given the ordered pull results of a query's
//! row sequence, produce the value shape the operation declared, or a
//! well-defined error.
//!
//! A pull from the executor either fails outright, or yields a raw row;
//! decoding a yielded row into the record type either succeeds or fails.
//! Both are captured by [`SourceItem`]. The eager decoders here consume a
//! fully pulled row sequence; the incremental state machine over the same
//! policies lives in [`crate::machine`].
//!
//! The per-shape policies:
//! - single: exactly one row must arrive; zero rows is `RowNotFound`, a
//!   second pull that yields anything at all is `MultipleRowsFound`.
//! - optional: at most one row may arrive; zero rows is an absent value.
//! - list: every row is decoded in arrival order; the first failure, if
//!   any, replaces the whole result.
//! - stream: each pull is decoded on its own, with no lookahead; the
//!   decoded sequence ends exactly when the source ends.

use vstd::prelude::*;

use crate::error::MultipleRowsFound;
use crate::error::QueryError;

verus! {

/// One pull from the executor's row sequence.
pub enum SourceItem<T, E> {
    /// The pull yielded a raw row; the payload is what decoding that row
    /// into the record type gives.
    Row(Result<T, E>),
    /// The pull itself failed with an executor error.
    Fail(E),
}

/// Whether a pull yielded a row that decodes successfully.
pub open spec fn is_good<T, E>(item: SourceItem<T, E>) -> bool {
    match item {
        SourceItem::Row(d) => d is Ok,
        SourceItem::Fail(_) => false,
    }
}

/// The decoded record of a successful pull.
pub open spec fn item_value<T, E>(item: SourceItem<T, E>) -> T
    recommends
        is_good(item),
{
    match item {
        SourceItem::Row(d) => match d {
            Ok(t) => t,
            Err(_) => arbitrary(),
        },
        SourceItem::Fail(_) => arbitrary(),
    }
}

/// The error a failed pull or an undecodable row surfaces as: executor
/// errors and decode errors are propagated unchanged.
pub open spec fn item_error<T, E>(item: SourceItem<T, E>) -> QueryError<E>
    recommends
        !is_good(item),
{
    match item {
        SourceItem::Row(d) => match d {
            Ok(_) => arbitrary(),
            Err(e) => QueryError::Decode(e),
        },
        SourceItem::Fail(e) => QueryError::Execute(e),
    }
}

/// Whether every pull of the sequence yielded a decodable row.
pub open spec fn all_good<T, E>(rows: Seq<SourceItem<T, E>>) -> bool {
    forall|i: int| 0 <= i < rows.len() ==> is_good(#[trigger] rows[i])
}

/// The index of the first pull that did not yield a decodable row
/// (the sequence's length when every pull did).
pub open spec fn first_bad<T, E>(rows: Seq<SourceItem<T, E>>) -> int
    decreases rows.len(),
{
    if rows.len() == 0 {
        0
    } else if !is_good(rows[0]) {
        0
    } else {
        1 + first_bad(rows.drop_first())
    }
}

/// The decoded records of a sequence of pulls, in arrival order.
pub open spec fn good_values<T, E>(rows: Seq<SourceItem<T, E>>) -> Seq<T> {
    rows.map_values(|item: SourceItem<T, E>| item_value(item))
}

/// The single-record policy over a fully pulled row sequence.
pub open spec fn single_result<T, E>(rows: Seq<SourceItem<T, E>>) -> Result<T, QueryError<E>> {
    if rows.len() == 0 {
        Err(QueryError::RowNotFound)
    } else {
        match rows[0] {
            SourceItem::Fail(e) => Err(QueryError::Execute(e)),
            SourceItem::Row(d) => if rows.len() >= 2 {
                Err(QueryError::MultipleRows(MultipleRowsFound))
            } else {
                match d {
                    Ok(t) => Ok(t),
                    Err(e) => Err(QueryError::Decode(e)),
                }
            },
        }
    }
}

/// The optional-record policy over a fully pulled row sequence.
pub open spec fn optional_result<T, E>(rows: Seq<SourceItem<T, E>>) -> Result<
    Option<T>,
    QueryError<E>,
> {
    if rows.len() == 0 {
        Ok(None)
    } else {
        match rows[0] {
            SourceItem::Fail(e) => Err(QueryError::Execute(e)),
            SourceItem::Row(d) => if rows.len() >= 2 {
                Err(QueryError::MultipleRows(MultipleRowsFound))
            } else {
                match d {
                    Ok(t) => Ok(Some(t)),
                    Err(e) => Err(QueryError::Decode(e)),
                }
            },
        }
    }
}

/// The list policy over a fully pulled row sequence: all records in
/// arrival order, unless some pull failed or some row did not decode, in
/// which case the first such failure replaces the whole result.
pub open spec fn list_result<T, E>(rows: Seq<SourceItem<T, E>>) -> Result<Seq<T>, QueryError<E>> {
    if all_good(rows) {
        Ok(good_values(rows))
    } else {
        Err(item_error(rows[first_bad(rows)]))
    }
}

/// The stream policy for one pull: decoded on its own, with no lookahead.
pub open spec fn stream_item<T, E>(item: SourceItem<T, E>) -> Result<T, QueryError<E>> {
    match item {
        SourceItem::Row(d) => match d {
            Ok(t) => Ok(t),
            Err(e) => Err(QueryError::Decode(e)),
        },
        SourceItem::Fail(e) => Err(QueryError::Execute(e)),
    }
}

/// The whole lazily produced sequence a stream-shaped operation yields
/// over a given row source: one decoded element per pull.
pub open spec fn stream_results<T, E>(rows: Seq<SourceItem<T, E>>) -> Seq<
    Result<T, QueryError<E>>,
> {
    rows.map_values(|item: SourceItem<T, E>| stream_item(item))
}

/// Decode a fully pulled row sequence under the single-record policy:
/// exactly one row returns that row decoded, zero rows is `RowNotFound`,
/// and a second pull that yields anything at all is `MultipleRowsFound`.
pub fn decode_single<T, E>(rows: Vec<SourceItem<T, E>>) -> (r: Result<T, QueryError<E>>)
    ensures
        r == single_result(rows@),
        rows@.len() == 0 ==> r == Err::<T, QueryError<E>>(QueryError::RowNotFound),
        rows@[0] matches SourceItem::Row(_) && rows@.len() >= 2 ==> r == Err::<T, QueryError<E>>(
            QueryError::MultipleRows(MultipleRowsFound),
        ),
        rows@[0] matches SourceItem::Row(Ok(t)) ==> (rows@.len() == 1 ==> r == Ok::<
            T,
            QueryError<E>,
        >(t)),
{
    let mut rows = rows;
    if rows.len() == 0 {
        return Err(QueryError::RowNotFound);
    }
    let first = rows.remove(0);
    match first {
        SourceItem::Fail(e) => Err(QueryError::Execute(e)),
        SourceItem::Row(d) => {
            if rows.len() > 0 {
                Err(QueryError::MultipleRows(MultipleRowsFound))
            } else {
                match d {
                    Ok(t) => Ok(t),
                    Err(e) => Err(QueryError::Decode(e)),
                }
            }
        },
    }
}

/// Decode a fully pulled row sequence under the optional-record policy:
/// zero rows is an absent value, one row is that row decoded and present,
/// and a second pull that yields anything at all is `MultipleRowsFound`.
pub fn decode_optional<T, E>(rows: Vec<SourceItem<T, E>>) -> (r: Result<Option<T>, QueryError<E>>)
    ensures
        r == optional_result(rows@),
        rows@.len() == 0 ==> r == Ok::<Option<T>, QueryError<E>>(None),
        rows@[0] matches SourceItem::Row(_) && rows@.len() >= 2 ==> r == Err::<
            Option<T>,
            QueryError<E>,
        >(QueryError::MultipleRows(MultipleRowsFound)),
        rows@[0] matches SourceItem::Row(Ok(t)) ==> (rows@.len() == 1 ==> r == Ok::<
            Option<T>,
            QueryError<E>,
        >(Some(t))),
{
    let mut rows = rows;
    if rows.len() == 0 {
        return Ok(None);
    }
    let first = rows.remove(0);
    match first {
        SourceItem::Fail(e) => Err(QueryError::Execute(e)),
        SourceItem::Row(d) => {
            if rows.len() > 0 {
                Err(QueryError::MultipleRows(MultipleRowsFound))
            } else {
                match d {
                    Ok(t) => Ok(Some(t)),
                    Err(e) => Err(QueryError::Decode(e)),
                }
            }
        },
    }
}

/// Where the first failed pull or undecodable row of a sequence stands.
pub proof fn lemma_first_bad_at<T, E>(rows: Seq<SourceItem<T, E>>, k: int)
    requires
        0 <= k < rows.len(),
        !is_good(rows[k]),
        forall|j: int| 0 <= j < k ==> is_good(#[trigger] rows[j]),
    ensures
        first_bad(rows) == k,
    decreases k,
{
    if k == 0 {
    } else {
        assert(is_good(rows[0]));
        assert(!is_good(rows.drop_first()[k - 1]));
        assert forall|j: int| 0 <= j < k - 1 implies is_good(#[trigger] rows.drop_first()[j]) by {
            assert(rows.drop_first()[j] == rows[j + 1]);
        }
        lemma_first_bad_at(rows.drop_first(), k - 1);
    }
}

/// A sequence whose every pull yielded a decodable row has its first
/// failure index at the very end.
pub proof fn lemma_first_bad_all_good<T, E>(rows: Seq<SourceItem<T, E>>)
    requires
        all_good(rows),
    ensures
        first_bad(rows) == rows.len(),
    decreases rows.len(),
{
    if rows.len() > 0 {
        assert forall|j: int| 0 <= j < rows.drop_first().len() implies is_good(
            #[trigger] rows.drop_first()[j],
        ) by {
            assert(rows.drop_first()[j] == rows[j + 1]);
        }
        lemma_first_bad_all_good(rows.drop_first());
    }
}

/// Decode a fully pulled row sequence under the list policy: every record
/// in arrival order, with the returned sequence's length equal to the row
/// count; the first failed pull or undecodable row, if any, replaces the
/// whole result with its error.
pub fn decode_list<T, E>(rows: Vec<SourceItem<T, E>>) -> (r: Result<Vec<T>, QueryError<E>>)
    ensures
        all_good(rows@) ==> (r matches Ok(v) && v@ == good_values(rows@) && v@.len()
            == rows@.len()),
        !all_good(rows@) ==> r == Err::<Vec<T>, QueryError<E>>(
            item_error(rows@[first_bad(rows@)]),
        ),
        (r matches Ok(v)) <==> all_good(rows@),
{
    let ghost orig = rows@;
    let mut pending = rows;
    let mut out: Vec<T> = Vec::new();
    while pending.len() > 0
        invariant
            orig == rows@,
            orig.len() == out@.len() + pending@.len(),
            orig =~= orig.take(out@.len() as int) + pending@,
            all_good(orig.take(out@.len() as int)),
            out@ == good_values(orig.take(out@.len() as int)),
        decreases pending@.len(),
    {
        let ghost k = out@.len() as int;
        let item = pending.remove(0);
        proof {
            assert(orig[k] == item) by {
                assert(orig =~= orig.take(k) + pending@.insert(0, item));
            }
        }
        match item {
            SourceItem::Row(d) => match d {
                Ok(t) => {
                    out.push(t);
                    proof {
                        assert(orig.take(k + 1) =~= orig.take(k).push(item));
                        assert forall|j: int| 0 <= j < k + 1 implies is_good(
                            #[trigger] orig.take(k + 1)[j],
                        ) by {
                            if j < k {
                                assert(orig.take(k + 1)[j] == orig.take(k)[j]);
                            }
                        }
                        assert(out@ =~= good_values(orig.take(k + 1)));
                    }
                },
                Err(e) => {
                    proof {
                        assert(orig[k] == SourceItem::Row(Err::<T, E>(e)));
                        assert(!is_good(orig[k]));
                        assert forall|j: int| 0 <= j < k implies is_good(#[trigger] orig[j]) by {
                            assert(orig.take(k)[j] == orig[j]);
                        }
                        lemma_first_bad_at(orig, k);
                        assert(!all_good(orig));
                        assert(item_error(orig[first_bad(orig)]) == QueryError::Decode(e));
                    }
                    return Err(QueryError::Decode(e));
                },
            },
            SourceItem::Fail(e) => {
                proof {
                    assert(orig[k] == SourceItem::Fail::<T, E>(e));
                    assert(!is_good(orig[k]));
                    assert forall|j: int| 0 <= j < k implies is_good(#[trigger] orig[j]) by {
                        assert(orig.take(k)[j] == orig[j]);
                    }
                    lemma_first_bad_at(orig, k);
                    assert(!all_good(orig));
                    assert(item_error(orig[first_bad(orig)]) == QueryError::Execute(e));
                }
                return Err(QueryError::Execute(e));
            },
        }
    }
    proof {
        assert(orig.take(out@.len() as int) =~= orig);
    }
    Ok(out)
}

/// Decode the next pull of a stream-shaped operation. Each pull is decoded
/// on its own: earlier decoded elements stay valid whatever this pull
/// yields, and nothing is pulled ahead of the consumer.
pub fn decode_next<T, E>(item: SourceItem<T, E>) -> (r: Result<T, QueryError<E>>)
    ensures
        r == stream_item(item),
{
    match item {
        SourceItem::Row(d) => match d {
            Ok(t) => Ok(t),
            Err(e) => Err(QueryError::Decode(e)),
        },
        SourceItem::Fail(e) => Err(QueryError::Execute(e)),
    }
}

/// Cross-shape consistency of the stream and list policies over one and
/// the same row source: the stream yields exactly one decoded element per
/// pull and stops exactly when the source is exhausted; when every pull
/// decodes, the stream's elements are the list's records in the same
/// order; and otherwise the list's error is exactly the element the stream
/// yields at the first failure, every element before it being a record.
pub proof fn lemma_stream_matches_list<T, E>(rows: Seq<SourceItem<T, E>>)
    ensures
        stream_results(rows).len() == rows.len(),
        forall|i: int| 0 <= i < rows.len() ==> #[trigger] stream_results(rows)[i] == stream_item(
            rows[i],
        ),
        all_good(rows) ==> list_result(rows) == Ok::<Seq<T>, QueryError<E>>(good_values(rows))
            && forall|i: int|
            0 <= i < rows.len() ==> #[trigger] stream_results(rows)[i] == Ok::<T, QueryError<E>>(
                good_values(rows)[i],
            ),
        !all_good(rows) ==> {
            &&& 0 <= first_bad(rows) < rows.len()
            &&& list_result(rows) == Err::<Seq<T>, QueryError<E>>(
                item_error(rows[first_bad(rows)]),
            )
            &&& stream_results(rows)[first_bad(rows)] == Err::<T, QueryError<E>>(
                item_error(rows[first_bad(rows)]),
            )
            &&& forall|j: int|
                0 <= j < first_bad(rows) ==> (#[trigger] stream_results(rows)[j] matches Ok(_))
        },
{
    if all_good(rows) {
        lemma_first_bad_all_good(rows);
    } else {
        let k = choose|i: int| 0 <= i < rows.len() && !is_good(rows[i]);
        lemma_first_bad_bounds(rows, k);
    }
}

/// When some pull fails, the first failure index is in range, everything
/// before it is a decodable row, and the pull there is the failing one.
proof fn lemma_first_bad_bounds<T, E>(rows: Seq<SourceItem<T, E>>, w: int)
    requires
        0 <= w < rows.len(),
        !is_good(rows[w]),
    ensures
        0 <= first_bad(rows) <= w,
        !is_good(rows[first_bad(rows)]),
        forall|j: int| 0 <= j < first_bad(rows) ==> is_good(#[trigger] rows[j]),
    decreases rows.len(),
{
    if !is_good(rows[0]) {
    } else {
        assert(w >= 1);
        assert(!is_good(rows.drop_first()[w - 1]));
        lemma_first_bad_bounds(rows.drop_first(), w - 1);
        let k = first_bad(rows.drop_first());
        assert(first_bad(rows) == 1 + k);
        assert(!is_good(rows[1 + k])) by {
            assert(rows.drop_first()[k] == rows[1 + k]);
        }
        assert forall|j: int| 0 <= j < 1 + k implies is_good(#[trigger] rows[j]) by {
            if j >= 1 {
                assert(rows.drop_first()[j - 1] == rows[j]);
            }
        }
    }
}

} // verus!
