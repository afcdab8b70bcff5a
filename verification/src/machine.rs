//! The shape-dispatch decoder as an incremental state machine, for drivers
//! that pull rows one suspension at a time.
//!
//! A driver creates one [`ShapeDecoder`] per call of a single-, optional-
//! or list-shaped operation, feeds it each pull result in arrival order,
//! and finishes it when the source is exhausted. The machine decides as
//! early as the policy allows: once [`ShapeDecoder::feed`] reports a
//! decided outcome, the result no longer depends on anything the rest of
//! the source could hold, and the driver must stop pulling — so a
//! single-shaped call never pulls more than one row past the first, and no
//! partially decoded value ever leaks. Stream-shaped operations need no
//! machine: each pull is decoded on its own by
//! [`crate::decode::decode_next`].

use vstd::prelude::*;

use crate::decode::SourceItem;
use crate::decode::all_good;
use crate::decode::decode_list;
use crate::decode::decode_optional;
use crate::decode::decode_single;
use crate::decode::good_values;
use crate::decode::is_good;
use crate::decode::item_error;
use crate::decode::lemma_first_bad_at;
use crate::decode::list_result;
use crate::decode::optional_result;
use crate::decode::single_result;
use crate::error::MultipleRowsFound;
use crate::error::QueryError;
use crate::shape::Shape;

verus! {

/// A decoded result in the shape the operation declared.
pub enum Shaped<T> {
    /// The single record of a single-shaped operation.
    One(T),
    /// The absent-or-present record of an optional-shaped operation.
    MaybeOne(Option<T>),
    /// The records of a list-shaped operation, in arrival order.
    Many(Vec<T>),
}

/// The mathematical value of a [`Shaped`] result.
pub enum ShapedValue<T> {
    One(T),
    MaybeOne(Option<T>),
    Many(Seq<T>),
}

impl<T> View for Shaped<T> {
    type V = ShapedValue<T>;

    open spec fn view(&self) -> ShapedValue<T> {
        match self {
            Shaped::One(t) => ShapedValue::One(*t),
            Shaped::MaybeOne(o) => ShapedValue::MaybeOne(*o),
            Shaped::Many(v) => ShapedValue::Many(v@),
        }
    }
}

/// The mathematical value of a shaped decode result.
pub open spec fn shaped_result_value<T, E>(r: Result<Shaped<T>, QueryError<E>>) -> Result<
    ShapedValue<T>,
    QueryError<E>,
> {
    match r {
        Ok(s) => Ok(s@),
        Err(e) => Err(e),
    }
}

/// What decoding a fully pulled row sequence under a given shape's policy
/// yields. The stream shape has no eager outcome: it is decoded pull by
/// pull.
pub open spec fn shaped_outcome<T, E>(shape: Shape, rows: Seq<SourceItem<T, E>>) -> Result<
    ShapedValue<T>,
    QueryError<E>,
>
    recommends
        shape != Shape::Stream,
{
    match shape {
        Shape::Single => match single_result(rows) {
            Ok(t) => Ok(ShapedValue::One(t)),
            Err(e) => Err(e),
        },
        Shape::Optional => match optional_result(rows) {
            Ok(o) => Ok(ShapedValue::MaybeOne(o)),
            Err(e) => Err(e),
        },
        Shape::List => match list_result(rows) {
            Ok(s) => Ok(ShapedValue::Many(s)),
            Err(e) => Err(e),
        },
        Shape::Stream => arbitrary(),
    }
}

/// Whether the next pull result decides the outcome early, given the
/// pulls fed so far: a second pull of any kind after the one-row lookahead
/// for the single and optional policies, a pull that yields anything but
/// a decodable row for the list policy.
pub open spec fn decides<T, E>(
    shape: Shape,
    prev: Seq<SourceItem<T, E>>,
    item: SourceItem<T, E>,
) -> bool {
    match shape {
        Shape::Single | Shape::Optional => prev.len() >= 1 || (item matches SourceItem::Fail(_)),
        Shape::List => !is_good(item),
        Shape::Stream => false,
    }
}

/// The error an early decision surfaces: `MultipleRowsFound` for a second
/// pull under the single and optional policies, the failing pull's own
/// error otherwise.
pub open spec fn decision_error<T, E>(
    shape: Shape,
    prev: Seq<SourceItem<T, E>>,
    item: SourceItem<T, E>,
) -> QueryError<E>
    recommends
        decides(shape, prev, item),
{
    match shape {
        Shape::Single | Shape::Optional => if prev.len() >= 1 {
            QueryError::MultipleRows(MultipleRowsFound)
        } else {
            item_error(item)
        },
        Shape::List => item_error(item),
        Shape::Stream => arbitrary(),
    }
}

/// What one feed step tells the driver.
pub enum DecodeProgress<E> {
    /// The outcome still depends on the rest of the source: pull again, or
    /// finish the decoder if the source is exhausted.
    NeedMore,
    /// The outcome is decided, whatever the rest of the source would have
    /// held. The driver must stop pulling and surface this error.
    Decided(QueryError<E>),
}

/// Decode a fully pulled row sequence under the given shape's policy: the
/// ordinary tagged dispatch over the closed set of shapes. Stream-shaped
/// results are never pulled eagerly, so they have no place here: each of
/// their pulls is decoded on its own by [`crate::decode::decode_next`].
pub fn decode_rows<T, E>(shape: Shape, rows: Vec<SourceItem<T, E>>) -> (r: Result<
    Shaped<T>,
    QueryError<E>,
>)
    requires
        shape != Shape::Stream,
    ensures
        shaped_result_value(r) == shaped_outcome(shape, rows@),
{
    match shape {
        Shape::Single => match decode_single(rows) {
            Ok(t) => Ok(Shaped::One(t)),
            Err(e) => Err(e),
        },
        Shape::Optional => match decode_optional(rows) {
            Ok(o) => Ok(Shaped::MaybeOne(o)),
            Err(e) => Err(e),
        },
        Shape::List => match decode_list(rows) {
            Ok(v) => Ok(Shaped::Many(v)),
            Err(e) => Err(e),
        },
        Shape::Stream => unreached(),
    }
}

/// The shape-dispatch decoder's state between two pulls: the shape being
/// decoded, the one-row lookahead held for the single and optional
/// policies, and the records accumulated so far for the list policy.
pub struct ShapeDecoder<T, E> {
    shape: Shape,
    held: Option<Result<T, E>>,
    collected: Vec<T>,
    decided: bool,
    consumed: Ghost<Seq<SourceItem<T, E>>>,
}

impl<T, E> ShapeDecoder<T, E> {
    /// The shape this decoder dispatches on.
    pub closed spec fn shape(&self) -> Shape {
        self.shape
    }

    /// The pull results fed so far, in arrival order.
    pub closed spec fn consumed(&self) -> Seq<SourceItem<T, E>> {
        self.consumed@
    }

    /// Whether the outcome is already decided.
    pub closed spec fn decided(&self) -> bool {
        self.decided
    }

    /// The decoder's well-formedness: its state is exactly what its shape's
    /// policy holds after the pulls fed so far.
    pub closed spec fn inv(&self) -> bool {
        &&& self.shape != Shape::Stream
        &&& match self.shape {
            Shape::Single | Shape::Optional => {
                &&& self.collected@.len() == 0
                &&& !self.decided ==> match self.held {
                    None => self.consumed@ == Seq::<SourceItem<T, E>>::empty(),
                    Some(d) => self.consumed@ == seq![SourceItem::<T, E>::Row(d)],
                }
            },
            Shape::List => {
                &&& self.held is None
                &&& !self.decided ==> all_good(self.consumed@) && self.collected@ == good_values(
                    self.consumed@,
                )
            },
            Shape::Stream => false,
        }
    }

    /// Start decoding a single-, optional- or list-shaped result.
    pub fn new(shape: Shape) -> (r: Self)
        requires
            shape != Shape::Stream,
        ensures
            r.inv(),
            r.shape() == shape,
            r.consumed() == Seq::<SourceItem<T, E>>::empty(),
            !r.decided(),
    {
        let r = ShapeDecoder {
            shape,
            held: None,
            collected: Vec::new(),
            decided: false,
            consumed: Ghost(Seq::empty()),
        };
        proof {
            assert(good_values::<T, E>(Seq::empty()) =~= Seq::<T>::empty());
        }
        r
    }

    /// Feed the next pull result. If the answer is `Decided`, the outcome
    /// of this shape's policy over the whole source is this error, whatever
    /// the rest of the source would have held, and no more may be fed.
    pub fn feed(&mut self, item: SourceItem<T, E>) -> (r: DecodeProgress<E>)
        requires
            old(self).inv(),
            !old(self).decided(),
        ensures
            final(self).inv(),
            final(self).shape() == old(self).shape(),
            final(self).consumed() == old(self).consumed().push(item),
            (r matches DecodeProgress::Decided(_)) <==> final(self).decided(),
            (r matches DecodeProgress::Decided(_)) <==> decides(
                old(self).shape(),
                old(self).consumed(),
                item,
            ),
            r matches DecodeProgress::Decided(e) ==> e == decision_error(
                old(self).shape(),
                old(self).consumed(),
                item,
            ),
            r matches DecodeProgress::Decided(e) ==> forall|rest: Seq<SourceItem<T, E>>|
                #[trigger] shaped_outcome(
                    old(self).shape(),
                    old(self).consumed().push(item) + rest,
                ) == Err::<ShapedValue<T>, QueryError<E>>(e),
    {
        let ghost prev = self.consumed@;
        proof {
            self.consumed@ = prev.push(item);
        }
        let ghost fed = prev.push(item);
        match self.shape {
            Shape::Single | Shape::Optional => {
                if self.held.is_some() {
                    self.decided = true;
                    proof {
                        assert forall|rest: Seq<SourceItem<T, E>>|
                            #[trigger] shaped_outcome(self.shape, fed + rest) == Err::<
                                ShapedValue<T>,
                                QueryError<E>,
                            >(QueryError::MultipleRows(MultipleRowsFound)) by {
                            let rows = fed + rest;
                            assert(rows.len() >= 2);
                            assert(rows[0] == prev[0]);
                            assert(rows[0] matches SourceItem::Row(_));
                        }
                    }
                    DecodeProgress::Decided(QueryError::MultipleRows(MultipleRowsFound))
                } else {
                    match item {
                        SourceItem::Row(d) => {
                            self.held = Some(d);
                            proof {
                                assert(fed == seq![SourceItem::<T, E>::Row(d)]) by {
                                    assert(fed =~= seq![SourceItem::<T, E>::Row(d)]);
                                }
                            }
                            DecodeProgress::NeedMore
                        },
                        SourceItem::Fail(e) => {
                            self.decided = true;
                            proof {
                                assert forall|rest: Seq<SourceItem<T, E>>|
                                    #[trigger] shaped_outcome(self.shape, fed + rest) == Err::<
                                        ShapedValue<T>,
                                        QueryError<E>,
                                    >(QueryError::Execute(e)) by {
                                    let rows = fed + rest;
                                    assert(rows.len() >= 1);
                                    assert(rows[0] == SourceItem::Fail::<T, E>(e));
                                }
                            }
                            DecodeProgress::Decided(QueryError::Execute(e))
                        },
                    }
                }
            },
            Shape::List => {
                match item {
                    SourceItem::Row(d) => match d {
                        Ok(t) => {
                            self.collected.push(t);
                            proof {
                                assert forall|j: int| 0 <= j < fed.len() implies is_good(
                                    #[trigger] fed[j],
                                ) by {
                                    if j < prev.len() {
                                        assert(fed[j] == prev[j]);
                                    }
                                }
                                assert(self.collected@ =~= good_values(fed));
                            }
                            DecodeProgress::NeedMore
                        },
                        Err(e) => {
                            self.decided = true;
                            proof {
                                self.lemma_list_decides(
                                    prev,
                                    item,
                                    QueryError::Decode(e),
                                );
                            }
                            DecodeProgress::Decided(QueryError::Decode(e))
                        },
                    },
                    SourceItem::Fail(e) => {
                        self.decided = true;
                        proof {
                            self.lemma_list_decides(prev, item, QueryError::Execute(e));
                        }
                        DecodeProgress::Decided(QueryError::Execute(e))
                    },
                }
            },
            Shape::Stream => unreached(),
        }
    }

    /// A bad pull decides the list policy: whatever the rest of the source
    /// would have held, the outcome is that pull's error.
    proof fn lemma_list_decides(
        &self,
        prev: Seq<SourceItem<T, E>>,
        item: SourceItem<T, E>,
        e: QueryError<E>,
    )
        requires
            all_good(prev),
            !is_good(item),
            item_error(item) == e,
        ensures
            forall|rest: Seq<SourceItem<T, E>>|
                #[trigger] shaped_outcome(Shape::List, prev.push(item) + rest) == Err::<
                    ShapedValue<T>,
                    QueryError<E>,
                >(e),
    {
        assert forall|rest: Seq<SourceItem<T, E>>|
            #[trigger] shaped_outcome(Shape::List, prev.push(item) + rest) == Err::<
                ShapedValue<T>,
                QueryError<E>,
            >(e) by {
            let rows = prev.push(item) + rest;
            let k = prev.len() as int;
            assert(rows[k] == item);
            assert(!is_good(rows[k]));
            assert forall|j: int| 0 <= j < k implies is_good(#[trigger] rows[j]) by {
                assert(rows[j] == prev[j]);
            }
            lemma_first_bad_at(rows, k);
            assert(!all_good(rows));
        }
    }

    /// Finish decoding at the end of the source: the outcome of this
    /// shape's policy over exactly the pulls fed.
    pub fn finish(self) -> (r: Result<Shaped<T>, QueryError<E>>)
        requires
            self.inv(),
            !self.decided(),
        ensures
            shaped_result_value(r) == shaped_outcome(self.shape(), self.consumed()),
    {
        let ShapeDecoder { shape, held, collected, decided: _decided, consumed: _consumed } = self;
        match shape {
            Shape::Single => match held {
                None => Err(QueryError::RowNotFound),
                Some(d) => match d {
                    Ok(t) => Ok(Shaped::One(t)),
                    Err(e) => Err(QueryError::Decode(e)),
                },
            },
            Shape::Optional => match held {
                None => Ok(Shaped::MaybeOne(None)),
                Some(d) => match d {
                    Ok(t) => Ok(Shaped::MaybeOne(Some(t))),
                    Err(e) => Err(QueryError::Decode(e)),
                },
            },
            Shape::List => Ok(Shaped::Many(collected)),
            Shape::Stream => unreached(),
        }
    }
}

} // verus!
