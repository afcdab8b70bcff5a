//! Tests of the shape-dispatch decoder over hand-built row sources.

use queries::decode::{decode_list, decode_next, decode_optional, decode_single, SourceItem};
use queries::error::QueryError;
use queries::machine::{decode_rows, DecodeProgress, Shaped, ShapeDecoder};
use queries::shape::Shape;

type Item = SourceItem<i32, String>;

fn row(v: i32) -> Item {
    SourceItem::Row(Ok(v))
}

fn bad_row(msg: &str) -> Item {
    SourceItem::Row(Err(msg.to_string()))
}

fn failed_pull(msg: &str) -> Item {
    SourceItem::Fail(msg.to_string())
}

#[test]
fn single_zero_rows_is_row_not_found() {
    let r = decode_single::<i32, String>(vec![]);
    assert!(matches!(r, Err(QueryError::RowNotFound)));
}

#[test]
fn single_one_row_returns_it_decoded() {
    let r = decode_single(vec![row(7)]);
    assert!(matches!(r, Ok(7)));
}

#[test]
fn single_two_rows_is_multiple_rows_found() {
    let r = decode_single(vec![row(1), row(2)]);
    assert!(matches!(r, Err(QueryError::MultipleRows(_))));
}

#[test]
fn single_second_pull_error_still_counts_as_multiple() {
    let r = decode_single(vec![row(1), failed_pull("boom")]);
    assert!(matches!(r, Err(QueryError::MultipleRows(_))));
}

#[test]
fn single_first_pull_error_is_propagated() {
    let r = decode_single(vec![failed_pull("connection reset"), row(1)]);
    match r {
        Err(QueryError::Execute(e)) => assert_eq!(e, "connection reset"),
        _ => panic!("expected the executor error"),
    }
}

#[test]
fn single_undecodable_row_is_a_decode_error() {
    let r = decode_single(vec![bad_row("wrong column type")]);
    match r {
        Err(QueryError::Decode(e)) => assert_eq!(e, "wrong column type"),
        _ => panic!("expected the decode error"),
    }
}

#[test]
fn single_undecodable_row_with_second_row_is_multiple() {
    let r = decode_single(vec![bad_row("wrong column type"), row(2)]);
    assert!(matches!(r, Err(QueryError::MultipleRows(_))));
}

#[test]
fn optional_zero_rows_is_absent() {
    let r = decode_optional::<i32, String>(vec![]);
    assert!(matches!(r, Ok(None)));
}

#[test]
fn optional_one_row_is_present() {
    let r = decode_optional(vec![row(5)]);
    assert!(matches!(r, Ok(Some(5))));
}

#[test]
fn optional_two_rows_is_multiple_rows_found() {
    let r = decode_optional(vec![row(5), row(6)]);
    assert!(matches!(r, Err(QueryError::MultipleRows(_))));
}

#[test]
fn list_empty_source_is_an_empty_list() {
    let r = decode_list::<i32, String>(vec![]);
    assert_eq!(r.unwrap(), Vec::<i32>::new());
}

#[test]
fn list_keeps_length_and_arrival_order() {
    let r = decode_list(vec![row(3), row(1), row(2)]);
    assert_eq!(r.unwrap(), vec![3, 1, 2]);
}

#[test]
fn list_single_row() {
    let r = decode_list(vec![row(9)]);
    assert_eq!(r.unwrap(), vec![9]);
}

#[test]
fn list_first_failure_replaces_the_result() {
    let r = decode_list(vec![row(1), bad_row("bad"), row(3)]);
    match r {
        Err(QueryError::Decode(e)) => assert_eq!(e, "bad"),
        _ => panic!("expected the decode error"),
    }
}

#[test]
fn list_pull_error_replaces_the_result() {
    let r = decode_list(vec![row(1), failed_pull("gone")]);
    match r {
        Err(QueryError::Execute(e)) => assert_eq!(e, "gone"),
        _ => panic!("expected the executor error"),
    }
}

fn clone_items(items: &[Item]) -> Vec<Item> {
    items
        .iter()
        .map(|i| match i {
            SourceItem::Row(Ok(v)) => SourceItem::Row(Ok(*v)),
            SourceItem::Row(Err(e)) => SourceItem::Row(Err(e.clone())),
            SourceItem::Fail(e) => SourceItem::Fail(e.clone()),
        })
        .collect()
}

#[test]
fn stream_yields_the_same_values_as_list_in_the_same_order() {
    let source = vec![row(1), row(2), row(3)];
    let eager = decode_list(clone_items(&source)).unwrap();
    let mut streamed = Vec::new();
    for item in clone_items(&source) {
        streamed.push(decode_next(item).unwrap());
    }
    assert_eq!(streamed, eager);
}

#[test]
fn stream_keeps_earlier_elements_past_a_failure() {
    let source = vec![row(1), bad_row("bad"), row(3)];
    let mut streamed = Vec::new();
    for item in source {
        streamed.push(decode_next(item));
    }
    assert_eq!(streamed.len(), 3);
    assert!(matches!(streamed[0], Ok(1)));
    assert!(matches!(streamed[1], Err(QueryError::Decode(_))));
    assert!(matches!(streamed[2], Ok(3)));
}

#[test]
fn machine_single_decides_on_the_second_pull() {
    let mut m: ShapeDecoder<i32, String> = ShapeDecoder::new(Shape::Single);
    assert!(matches!(m.feed(row(7)), DecodeProgress::NeedMore));
    match m.feed(row(8)) {
        DecodeProgress::Decided(QueryError::MultipleRows(_)) => {}
        _ => panic!("a second pull must decide the single shape"),
    }
}

#[test]
fn machine_single_finishes_with_the_one_row() {
    let mut m: ShapeDecoder<i32, String> = ShapeDecoder::new(Shape::Single);
    assert!(matches!(m.feed(row(7)), DecodeProgress::NeedMore));
    match m.finish() {
        Ok(Shaped::One(v)) => assert_eq!(v, 7),
        _ => panic!("expected the single record"),
    }
}

#[test]
fn machine_single_empty_source_is_row_not_found() {
    let m: ShapeDecoder<i32, String> = ShapeDecoder::new(Shape::Single);
    assert!(matches!(m.finish(), Err(QueryError::RowNotFound)));
}

#[test]
fn machine_optional_empty_source_is_absent() {
    let m: ShapeDecoder<i32, String> = ShapeDecoder::new(Shape::Optional);
    assert!(matches!(m.finish(), Ok(Shaped::MaybeOne(None))));
}

#[test]
fn machine_list_collects_in_order() {
    let mut m: ShapeDecoder<i32, String> = ShapeDecoder::new(Shape::List);
    assert!(matches!(m.feed(row(4)), DecodeProgress::NeedMore));
    assert!(matches!(m.feed(row(5)), DecodeProgress::NeedMore));
    match m.finish() {
        Ok(Shaped::Many(v)) => assert_eq!(v, vec![4, 5]),
        _ => panic!("expected the list of records"),
    }
}

#[test]
fn machine_list_decides_on_a_failing_pull() {
    let mut m: ShapeDecoder<i32, String> = ShapeDecoder::new(Shape::List);
    assert!(matches!(m.feed(row(4)), DecodeProgress::NeedMore));
    match m.feed(failed_pull("gone")) {
        DecodeProgress::Decided(QueryError::Execute(e)) => assert_eq!(e, "gone"),
        _ => panic!("a failing pull must decide the list shape"),
    }
}

#[test]
fn decode_rows_dispatches_by_shape() {
    match decode_rows(Shape::Single, vec![row(1)]) {
        Ok(Shaped::One(v)) => assert_eq!(v, 1),
        _ => panic!("expected a single record"),
    }
    match decode_rows(Shape::Optional, Vec::<Item>::new()) {
        Ok(Shaped::MaybeOne(None)) => {}
        _ => panic!("expected an absent record"),
    }
    match decode_rows(Shape::List, vec![row(1), row(2)]) {
        Ok(Shaped::Many(v)) => assert_eq!(v, vec![1, 2]),
        _ => panic!("expected the list of records"),
    }
}
