use std::borrow::Cow;

use header_values::{
    collect_values, ConstantField, Field, FieldValue, HeaderValueIter, HeaderValues,
    ToHeaderValues,
};

fn texts<I: HeaderValueIter>(it: I) -> Vec<String> {
    collect_values(it)
        .iter()
        .map(|v| v.as_str().to_string())
        .collect()
}

#[test]
fn valid_text_yields_one_entry() {
    let it = "text/plain".to_header_values().unwrap();
    assert_eq!(texts(it), vec!["text/plain".to_string()]);
}

#[test]
fn control_character_is_rejected_with_diagnostic() {
    let err = "a\u{1}b".to_header_values().err().unwrap();
    assert_eq!(err.cause.index, 1);
    assert_eq!(err.cause.found, '\u{1}');
}

#[test]
fn delete_character_is_rejected() {
    let err = "ok\u{7f}".to_header_values().err().unwrap();
    assert_eq!(err.cause.index, 2);
    assert_eq!(err.cause.found, '\u{7f}');
}

#[test]
fn tab_and_space_are_allowed() {
    let it = "a\tb c".to_header_values().unwrap();
    assert_eq!(texts(it), vec!["a\tb c".to_string()]);
}

#[test]
fn empty_text_is_accepted() {
    let it = "".to_header_values().unwrap();
    assert_eq!(texts(it), vec!["".to_string()]);
}

#[test]
fn parse_reports_first_disallowed_character() {
    let err = FieldValue::from_text("x\u{0}\u{1}").err().unwrap();
    assert_eq!(err.index, 1);
    assert_eq!(err.found, '\u{0}');
    let ok = FieldValue::from_text("gzip").unwrap();
    assert_eq!(ok.as_str(), "gzip");
    assert_eq!(ok.char_len(), 4);
}

#[test]
fn entry_converts_to_a_clone_of_itself() {
    let v = FieldValue::from_text("deflate").unwrap();
    let it = v.to_header_values().unwrap();
    assert_eq!(texts(it), vec!["deflate".to_string()]);
    // The receiver is only read: it is still usable afterwards.
    assert_eq!(v.as_str(), "deflate");
}

#[test]
fn field_converts_to_its_resolved_value() {
    let f = ConstantField::new(FieldValue::from_text("text/plain").unwrap());
    assert_eq!(f.field_value().as_str(), "text/plain");
    let it = f.to_header_values().unwrap();
    assert_eq!(texts(it), vec!["text/plain".to_string()]);
}

#[test]
fn container_preserves_order() {
    let mut c = HeaderValues::new();
    for t in ["a", "b", "c"] {
        c.append(FieldValue::from_text(t).unwrap());
    }
    assert_eq!(c.len(), 3);
    assert_eq!(c.get(1).as_str(), "b");
    let it = (&c).to_header_values().unwrap();
    assert_eq!(
        texts(it),
        vec!["a".to_string(), "b".to_string(), "c".to_string()]
    );
    // Converting borrows the container: it can be converted again.
    let again = (&c).to_header_values().unwrap();
    assert_eq!(
        texts(again),
        vec!["a".to_string(), "b".to_string(), "c".to_string()]
    );
}

#[test]
fn empty_slice_yields_empty_sequence() {
    let entries: Vec<FieldValue> = Vec::new();
    let slice: &[FieldValue] = entries.as_slice();
    let mut it = slice.to_header_values().unwrap();
    assert!(it.next().is_none());
}

#[test]
fn slice_matches_container() {
    let entries = vec![
        FieldValue::from_text("a").unwrap(),
        FieldValue::from_text("b").unwrap(),
        FieldValue::from_text("c").unwrap(),
    ];
    let mut c = HeaderValues::new();
    for v in entries.iter() {
        c.append(v.clone());
    }
    let from_slice = texts(entries.as_slice().to_header_values().unwrap());
    let from_container = texts((&c).to_header_values().unwrap());
    assert_eq!(from_slice, from_container);
}

#[test]
fn iterator_yields_then_stops() {
    let mut it = "one".to_header_values().unwrap();
    let first = it.next();
    assert_eq!(first.unwrap().as_str(), "one");
    assert!(it.next().is_none());
    assert!(it.next().is_none());
}

#[test]
fn cow_borrowed_matches_borrowed_text() {
    let shared: Cow<'_, str> = Cow::Borrowed("gzip");
    let it = shared.to_header_values().unwrap();
    assert_eq!(texts(it), vec!["gzip".to_string()]);
    let direct = "gzip".to_header_values().unwrap();
    assert_eq!(texts(direct), vec!["gzip".to_string()]);
}

#[test]
fn ownership_shapes_agree_on_success() {
    let owned = String::from("br");
    let by_owned = texts(owned.to_header_values().unwrap());
    let by_ref =
        texts(<&String as ToHeaderValues>::to_header_values(&&owned).unwrap());
    let by_borrowed = texts("br".to_header_values().unwrap());
    let cow_owned: Cow<'_, str> = Cow::Owned(String::from("br"));
    let by_cow_owned = texts(cow_owned.to_header_values().unwrap());
    let cow_borrowed: Cow<'_, str> = Cow::Borrowed("br");
    let by_cow_borrowed = texts(cow_borrowed.to_header_values().unwrap());
    assert_eq!(by_owned, by_borrowed);
    assert_eq!(by_ref, by_borrowed);
    assert_eq!(by_cow_owned, by_borrowed);
    assert_eq!(by_cow_borrowed, by_borrowed);
}

#[test]
fn ownership_shapes_agree_on_failure() {
    let bad = "a\u{2}";
    let owned_err = String::from(bad).to_header_values().err().unwrap();
    let ref_owned = String::from(bad);
    let ref_err =
        <&String as ToHeaderValues>::to_header_values(&&ref_owned).err().unwrap();
    let borrowed_err = bad.to_header_values().err().unwrap();
    let cow_err = Cow::Borrowed(bad).to_header_values().err().unwrap();
    assert_eq!(owned_err, borrowed_err);
    assert_eq!(ref_err, borrowed_err);
    assert_eq!(cow_err, borrowed_err);
    assert_eq!(borrowed_err.cause.index, 1);
    assert_eq!(borrowed_err.cause.found, '\u{2}');
}
