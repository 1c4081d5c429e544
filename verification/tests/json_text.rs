use openai_rust::json::{
    read_bool, read_decimal, read_opt_text, read_opt_u64, read_text, read_u64, Json, Member,
};
use openai_rust::number::Decimal;
use openai_rust::param::decimal_member;

#[test]
fn parse_then_print_keeps_member_order() {
    let tree = Json::parse(r#"{"b":1,"a":[true,null,"x"]}"#).unwrap();
    assert_eq!(tree.print(), r#"{"b":1,"a":[true,null,"x"]}"#);
}

#[test]
fn parse_rejects_broken_text() {
    assert!(Json::parse("{").is_err());
    assert!(Json::parse("").is_err());
    assert!(Json::parse("{} x").is_err());
}

#[test]
fn parse_builds_the_tree() {
    let tree = Json::parse(r#" {"n": 12, "r": 1.50, "t": "a\"b", "l": [null, false]} "#).unwrap();
    match &tree {
        Json::Object(members) => {
            assert_eq!(members.len(), 4);
            assert_eq!(members[0].key, "n");
            assert!(matches!(&members[0].value, Json::Number(t) if t == "12"));
            assert!(matches!(&members[1].value, Json::Number(t) if t == "1.5"));
            assert!(matches!(&members[2].value, Json::Text(t) if t == "a\"b"));
            match &members[3].value {
                Json::Array(items) => {
                    assert_eq!(items.len(), 2);
                    assert!(matches!(items[0], Json::Null));
                    assert!(matches!(items[1], Json::Bool(false)));
                }
                other => panic!("{:?}", other),
            }
        }
        other => panic!("{:?}", other),
    }
}

#[test]
fn print_writes_compact_text() {
    let tree = Json::object(vec![
        Member::new("text", Json::Text(String::from("a\nb"))),
        Member::new("number", Json::Number(String::from("0.25"))),
        Member::new("list", Json::array(vec![Json::Null, Json::Bool(true)])),
        Member::new("empty", Json::object(vec![])),
    ]);
    assert_eq!(tree.print(), r#"{"text":"a\nb","number":0.25,"list":[null,true],"empty":{}}"#);
}

#[test]
fn get_finds_the_first_member() {
    let tree = Json::object(vec![
        Member::new("a", Json::Bool(true)),
        Member::new("b", Json::Null),
        Member::new("a", Json::Bool(false)),
    ]);
    assert!(matches!(tree.get("a"), Some(Json::Bool(true))));
    assert!(matches!(tree.get("b"), Some(Json::Null)));
    assert!(tree.get("c").is_none());
    assert!(Json::Null.get("a").is_none());
    assert!(Json::array(vec![]).get("a").is_none());
}

#[test]
fn readers_take_only_their_own_type() {
    let tree = Json::parse(r#"{"t":"x","b":true,"n":7,"d":0.5,"z":null,"i":-3}"#).unwrap();
    assert_eq!(read_text(&tree, "t"), Some(String::from("x")));
    assert_eq!(read_text(&tree, "b"), None);
    assert_eq!(read_text(&tree, "missing"), None);
    assert_eq!(read_bool(&tree, "b"), Some(true));
    assert_eq!(read_bool(&tree, "t"), None);
    assert_eq!(read_u64(&tree, "n", 7), Some(7));
    assert_eq!(read_u64(&tree, "n", 6), None);
    assert_eq!(read_u64(&tree, "d", 100), None);
    assert_eq!(read_decimal(&tree, "d"), Some(Decimal { thousandths: 500 }));
    assert_eq!(read_decimal(&tree, "n"), Some(Decimal { thousandths: 7000 }));
    assert_eq!(read_decimal(&tree, "t"), None);
    assert_eq!(read_opt_u64(&tree, "n", 7), Some(Some(7)));
    assert_eq!(read_opt_u64(&tree, "n", 6), None);
    assert_eq!(read_opt_u64(&tree, "i", 7), None);
    assert_eq!(read_opt_u64(&tree, "z", 7), Some(None));
    assert_eq!(read_opt_u64(&tree, "missing", 7), Some(None));
    assert_eq!(read_opt_text(&tree, "t"), Some(Some(String::from("x"))));
    assert_eq!(read_opt_text(&tree, "z"), Some(None));
    assert_eq!(read_opt_text(&tree, "missing"), Some(None));
    assert_eq!(read_opt_text(&tree, "n"), None);
}

#[test]
fn items_are_there_for_arrays_only() {
    let array = Json::parse("[1, 2, 3]").unwrap();
    assert_eq!(array.items().unwrap().len(), 3);
    assert!(Json::parse("{}").unwrap().items().is_none());
}

#[test]
fn decimals_keep_their_text_in_json() {
    let mut t: i32 = -3000;
    while t <= 3000 {
        let d = Decimal { thousandths: t };
        let tree = Json::object(vec![decimal_member("d", d)]);
        let text = tree.print();
        assert_eq!(text, format!("{{\"d\":{}}}", d.to_text()));
        assert_eq!(read_decimal(&Json::parse(&text).unwrap(), "d"), Some(d));
        t += 1;
    }
    for t in [i32::MIN, -999_999, 123_456, 2_000_001, i32::MAX] {
        let d = Decimal { thousandths: t };
        let text = Json::object(vec![decimal_member("d", d)]).print();
        assert_eq!(text, format!("{{\"d\":{}}}", d.to_text()));
    }
}

#[test]
fn only_plain_numbers_are_printable() {
    assert!(Json::parse(r#"{"a":[1,-2.5,{"b":0.001}],"c":"1e30"}"#).unwrap().is_printable());
    assert!(!Json::parse("1e30").unwrap().is_printable());
    assert!(!Json::parse(r#"{"a":[1,{"b":1e-7}]}"#).unwrap().is_printable());
    assert!(!Json::parse(r#"[1,2,1.5e300]"#).unwrap().is_printable());
    assert!(!Json::Number(String::from("01")).is_printable());
    assert!(!Json::Number(String::from("1.")).is_printable());
    assert!(!Json::Number(String::from("")).is_printable());
    assert!(!Json::Number("1".repeat(65)).is_printable());
    assert!(Json::Number("1".repeat(64)).is_printable());
    assert!(Json::Null.is_printable());
    assert!(Json::array(vec![]).is_printable());
}

#[test]
fn a_repeated_key_keeps_the_later_value() {
    let tree = Json::parse(r#"{"a":1,"b":2,"a":3}"#).unwrap();
    assert_eq!(tree.print(), r#"{"a":3,"b":2}"#);
    let built = Json::object(vec![
        Member::new("a", Json::Bool(true)),
        Member::new("b", Json::Null),
        Member::new("a", Json::Bool(false)),
    ]);
    assert_eq!(built.print(), r#"{"a":false,"b":null}"#);
}
