use roe::commands::config::{
    configure_rows, configure_table, double_item, items_rows, items_table, parse_item,
    parse_items, query_items, rejected_items_text, to_row,
    type_label, typed_item, value_display, ConfigureResponse, DataItem, DataType, ParsedItem,
    Value,
};

fn item(s: &str) -> DataItem {
    match parse_item(s).unwrap() {
        ParsedItem::Item(i) => i,
        ParsedItem::Double { .. } => panic!("unexpected double"),
    }
}

#[test]
fn parse_item_reads_each_kind() {
    let i = item("count=int64:42");
    assert_eq!(i.name, "count");
    assert_eq!(i.data_type, DataType::Int64.code());
    assert!(matches!(i.value, Some(Value::Int64Value(42))));

    let i = item("flag=BOOL:true");
    assert_eq!(i.data_type, DataType::Bool.code());
    assert!(matches!(i.value, Some(Value::BoolValue(true))));

    let i = item("label=String:a:b");
    assert_eq!(i.data_type, DataType::String.code());
    match i.value {
        Some(Value::StringValue(s)) => assert_eq!(s, "a:b"),
        _ => panic!("expected a string"),
    }

    let i = item("gone=NuLl");
    assert_eq!(i.name, "gone");
    assert_eq!(i.data_type, DataType::Null.code());
    assert!(i.value.is_none());
}

#[test]
fn parse_item_defers_doubles() {
    match parse_item("ratio=double:1.5").unwrap() {
        ParsedItem::Double { name, text } => {
            assert_eq!(name, "ratio");
            assert_eq!(text, "1.5");
        }
        ParsedItem::Item(_) => panic!("expected a double"),
    }
    let bits = 1.5f64.to_bits();
    let d = double_item("ratio".to_string(), "1.5", Some(bits)).unwrap();
    assert_eq!(d.data_type, DataType::Double.code());
    assert!(matches!(d.value, Some(Value::DoubleValue(b)) if b == bits));
    assert_eq!(
        double_item("ratio".to_string(), "x", None).unwrap_err(),
        "cannot parse 'x' as double"
    );
}

#[test]
fn parse_item_errors() {
    assert_eq!(
        parse_item("novalue").unwrap_err(),
        "invalid item 'novalue': expected NAME=TYPE:VALUE or NAME=null"
    );
    assert_eq!(
        parse_item("x=abc").unwrap_err(),
        "invalid item 'x=abc': expected NAME=TYPE:VALUE (e.g. count=int64:42)"
    );
    assert_eq!(parse_item("x=int64:abc").unwrap_err(), "cannot parse 'abc' as int64");
    assert_eq!(parse_item("x=bool:TRUE").unwrap_err(), "cannot parse 'TRUE' as bool");
    assert_eq!(
        parse_item("x=Foo:1").unwrap_err(),
        "unknown type 'foo'; use bool|int64|double|string|null"
    );
    assert_eq!(
        parse_item("a=b=string:c").unwrap_err(),
        "unknown type 'b=string'; use bool|int64|double|string|null"
    );
}

#[test]
fn parse_item_int64_limits() {
    assert!(matches!(item("m=int64:-9223372036854775808").value, Some(Value::Int64Value(i64::MIN))));
    assert!(matches!(item("m=int64:9223372036854775807").value, Some(Value::Int64Value(i64::MAX))));
    assert!(matches!(item("m=int64:+7").value, Some(Value::Int64Value(7))));
    assert!(matches!(item("m=int64:007").value, Some(Value::Int64Value(7))));
    assert!(matches!(item("m=int64:-0").value, Some(Value::Int64Value(0))));
    assert!(parse_item("m=int64:9223372036854775808").is_err());
    assert!(parse_item("m=int64:-9223372036854775809").is_err());
    assert!(parse_item("m=int64:99999999999999999999999").is_err());
    assert!(parse_item("m=int64:-").is_err());
    assert!(parse_item("m=int64:+").is_err());
    assert!(parse_item("m=int64:").is_err());
    assert!(parse_item("m=int64:+-1").is_err());
    assert!(parse_item("m=int64: 1").is_err());
}

#[test]
fn typed_item_takes_lowercased_kind() {
    assert!(matches!(
        typed_item("n".to_string(), "int64", "5").unwrap(),
        ParsedItem::Item(DataItem { value: Some(Value::Int64Value(5)), .. })
    ));
    assert_eq!(
        typed_item("n".to_string(), "INT64", "5").unwrap_err(),
        "unknown type 'INT64'; use bool|int64|double|string|null"
    );
}

#[test]
fn value_display_each_kind() {
    let mk = |v: Option<Value>| DataItem { name: "n".to_string(), data_type: 0, value: v };
    assert_eq!(value_display(&mk(Some(Value::BoolValue(false))), ""), "false");
    assert_eq!(value_display(&mk(Some(Value::Int64Value(-120))), ""), "-120");
    assert_eq!(value_display(&mk(Some(Value::Int64Value(i64::MIN))), ""), "-9223372036854775808");
    assert_eq!(value_display(&mk(Some(Value::Int64Value(0))), ""), "0");
    assert_eq!(value_display(&mk(Some(Value::DoubleValue(0))), "2.5"), "2.5");
    assert_eq!(value_display(&mk(Some(Value::StringValue("hi".to_string()))), ""), "hi");
    assert_eq!(value_display(&mk(Some(Value::BytesValue(vec![1, 2, 3]))), ""), "<3 bytes>");
    assert_eq!(value_display(&mk(None), ""), "<null>");
}

#[test]
fn type_label_by_code() {
    let mk = |c: i32| DataItem { name: String::new(), data_type: c, value: None };
    assert_eq!(type_label(&mk(DataType::Bool.code())), "bool");
    assert_eq!(type_label(&mk(DataType::Int64.code())), "int64");
    assert_eq!(type_label(&mk(DataType::Double.code())), "double");
    assert_eq!(type_label(&mk(DataType::String.code())), "string");
    assert_eq!(type_label(&mk(DataType::Bytes.code())), "bytes");
    assert_eq!(type_label(&mk(DataType::Null.code())), "null");
    assert_eq!(type_label(&mk(DataType::Unspecified.code())), "null");
    assert_eq!(type_label(&mk(99)), "null");
    assert_eq!(DataType::from_code(3), Some(DataType::Double));
    assert_eq!(DataType::from_code(-1), None);
}

#[test]
fn item_text_reads_back() {
    // An item written as NAME=TYPE:VALUE with its shown value parses back.
    for text in ["n=int64:-42", "b=bool:false", "s=string:x=y:z", "z=null"] {
        let parsed = item(text);
        let row = to_row(&parsed, "");
        let written = if parsed.value.is_none() {
            format!("{}=null", row.name)
        } else {
            format!("{}={}:{}", row.name, row.data_type, row.value)
        };
        assert_eq!(written, text);
    }
}

#[test]
fn to_row_and_tables() {
    let i = item("count=int64:42");
    let row = to_row(&i, "");
    assert_eq!(row.name, "count");
    assert_eq!(row.data_type, "int64");
    assert_eq!(row.value, "42");
    let table = items_table(&vec![row]);
    assert!(table.contains("Name"));
    assert!(table.contains("Type"));
    assert!(table.contains("count"));
    assert!(table.contains("42"));
    assert!(table.starts_with('+'));
    assert_eq!(table.lines().count(), 5);

    let resp = ConfigureResponse { success: false, message: "rejected".to_string(), rejected_items: vec![] };
    let rows = configure_rows(&resp);
    assert_eq!(rows.len(), 1);
    assert!(!rows[0].success);
    assert_eq!(rows[0].message, "rejected");
    let table = configure_table(&rows);
    assert!(table.contains("rejected"));
    assert!(table.contains("false"));
}

#[test]
fn query_items_ask_by_name() {
    let items = query_items(vec!["a".to_string(), "b".to_string()]);
    assert_eq!(items.len(), 2);
    assert_eq!(items[1].name, "b");
    assert_eq!(items[1].data_type, DataType::Null.code());
    assert!(items[1].value.is_none());
}

#[test]
fn parse_items_stops_at_first_error() {
    let raw = vec![
        "a=int64:1".to_string(),
        "r=double:zz".to_string(),
        "b=Foo:1".to_string(),
    ];
    // The double's text is not a number: its error comes before the unknown type.
    assert_eq!(parse_items(&raw, &vec![None, None, None]).unwrap_err(), "cannot parse 'zz' as double");
    let raw = vec!["a=int64:1".to_string(), "r=double:2.5".to_string(), "n=null".to_string()];
    let bits = 2.5f64.to_bits();
    let items = parse_items(&raw, &vec![None, Some(bits)]).unwrap();
    assert_eq!(items.len(), 3);
    assert!(matches!(items[1].value, Some(Value::DoubleValue(b)) if b == bits));
    assert!(items[2].value.is_none());
    assert_eq!(
        parse_items(&vec!["x".to_string(), "y=bool:maybe".to_string()], &vec![]).unwrap_err(),
        "invalid item 'x': expected NAME=TYPE:VALUE or NAME=null"
    );
    assert!(parse_items(&vec![], &vec![]).unwrap().is_empty());
}

#[test]
fn items_rows_and_rejected_section() {
    let items = vec![item("a=int64:7"), item("s=string:hi")];
    let rows = items_rows(&items, &vec![]);
    assert_eq!(rows.len(), 2);
    assert_eq!(rows[0].value, "7");
    assert_eq!(rows[1].data_type, "string");

    let none = ConfigureResponse { success: true, message: "ok".to_string(), rejected_items: vec![] };
    assert!(rejected_items_text(&none, &vec![]).is_none());

    let some = ConfigureResponse { success: false, message: "no".to_string(), rejected_items: items };
    let text = rejected_items_text(&some, &vec![]).unwrap();
    assert!(text.starts_with("\nRejected items:\n+"));
    assert!(text.contains("| a    | int64  | 7     |"));
}
