use omit_default::record::{Field, Record};

#[test]
fn kept_fields_in_declared_order() {
    let r = Record { text: Some(String::from("s")), number: Some(2), flags: Some(vec![true]) };
    assert_eq!(
        r.kept(),
        vec![Field::Text(String::from("s")), Field::Number(2), Field::Flags(vec![true])]
    );
}

#[test]
fn kept_fields_skip_omitted() {
    let r = Record { text: Some(String::new()), number: None, flags: Some(vec![false]) };
    assert_eq!(r.kept(), vec![Field::Flags(vec![false])]);
}

#[test]
fn from_fields_later_field_wins() {
    let fs = vec![Field::Number(1), Field::Text(String::from("a")), Field::Number(9)];
    let r = Record::from_fields(&fs);
    assert_eq!(r, Record { text: Some(String::from("a")), number: Some(9), flags: None });
    assert_eq!(Record::from_fields(&vec![]), Record::default());
}

#[test]
fn fields_round_trip_restores_non_default_record() {
    let r = Record { text: Some(String::from("q")), number: Some(-1), flags: Some(vec![false]) };
    assert_eq!(Record::from_fields(&r.kept()), r);
    let d = Record { text: Some(String::new()), number: Some(0), flags: Some(vec![]) };
    assert_eq!(Record::from_fields(&d.kept()), Record::default());
}
