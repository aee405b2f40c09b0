//! Configuration items of a configurable application: the `NAME=TYPE:VALUE`
//! syntax in which they are given on the command line, and the text in which
//! they are shown.
//!
//! Floating-point values are carried by their IEEE-754 bit pattern; turning
//! such a value into text, and text into such a value, is left to the caller.

use vstd::prelude::*;
use crate::table::{ascii_table, record2, record3, records_view, render_ascii};
use vstd::utf8::is_ascii_chars;
use crate::text::{
    ascii_lower,
    lemma_bool_text_round_trip, lemma_i64_decimal_round_trip, lemma_split_once_after, bool_text, bool_to_text, concat3, eq_ignore_ascii_case, i64_to_decimal, int_decimal,
    nat_decimal, parse_bool, parse_bool_spec, parse_i64, parse_i64_spec, split_once,
    split_once_char, str_eq_ignore_ascii_case, str_equal, texts, u64_to_decimal,
};

verus! {

/// The kind of a configuration value. Its wire code is 0 for `Unspecified`,
/// then 1 to 6 in the order of the variants.
#[derive(Clone, Copy, Debug, PartialEq, Eq, Structural)]
pub enum DataType {
    Unspecified,
    Bool,
    Int64,
    Double,
    String,
    Bytes,
    Null,
}

impl DataType {
    /// The wire code of a kind.
    pub open spec fn code_spec(self) -> i32 {
        match self {
            DataType::Unspecified => 0,
            DataType::Bool => 1,
            DataType::Int64 => 2,
            DataType::Double => 3,
            DataType::String => 4,
            DataType::Bytes => 5,
            DataType::Null => 6,
        }
    }

    /// The kind that a wire code stands for, if any.
    pub open spec fn from_code_spec(code: i32) -> Option<DataType> {
        if code == 0 {
            Some(DataType::Unspecified)
        } else if code == 1 {
            Some(DataType::Bool)
        } else if code == 2 {
            Some(DataType::Int64)
        } else if code == 3 {
            Some(DataType::Double)
        } else if code == 4 {
            Some(DataType::String)
        } else if code == 5 {
            Some(DataType::Bytes)
        } else if code == 6 {
            Some(DataType::Null)
        } else {
            None
        }
    }

    /// The wire code of this kind.
    pub fn code(self) -> (r: i32)
        ensures
            r == self.code_spec(),
            DataType::from_code_spec(r) == Some(self),
    {
        match self {
            DataType::Unspecified => 0,
            DataType::Bool => 1,
            DataType::Int64 => 2,
            DataType::Double => 3,
            DataType::String => 4,
            DataType::Bytes => 5,
            DataType::Null => 6,
        }
    }

    /// The kind that a wire code stands for, or `None` for an unknown code.
    pub fn from_code(code: i32) -> (r: Option<DataType>)
        ensures
            r == DataType::from_code_spec(code),
    {
        if code == 0 {
            Some(DataType::Unspecified)
        } else if code == 1 {
            Some(DataType::Bool)
        } else if code == 2 {
            Some(DataType::Int64)
        } else if code == 3 {
            Some(DataType::Double)
        } else if code == 4 {
            Some(DataType::String)
        } else if code == 5 {
            Some(DataType::Bytes)
        } else if code == 6 {
            Some(DataType::Null)
        } else {
            None
        }
    }
}

/// A configuration value.
#[derive(Debug)]
pub enum Value {
    BoolValue(bool),
    Int64Value(i64),
    /// A double, by its IEEE-754 bit pattern.
    DoubleValue(u64),
    StringValue(String),
    BytesValue(Vec<u8>),
}

/// The mathematical content of a [`Value`].
pub enum ValueView {
    Bool(bool),
    Int64(i64),
    Double(u64),
    Text(Seq<char>),
    Bytes(Seq<u8>),
}

impl View for Value {
    type V = ValueView;

    open spec fn view(&self) -> ValueView {
        match self {
            Value::BoolValue(b) => ValueView::Bool(*b),
            Value::Int64Value(i) => ValueView::Int64(*i),
            Value::DoubleValue(d) => ValueView::Double(*d),
            Value::StringValue(s) => ValueView::Text(s@),
            Value::BytesValue(b) => ValueView::Bytes(b@),
        }
    }
}

/// A named configuration item: its kind, by wire code, and its value, if any.
#[derive(Debug)]
pub struct DataItem {
    pub name: String,
    pub data_type: i32,
    pub value: Option<Value>,
}

/// The mathematical content of a [`DataItem`].
pub struct DataItemView {
    pub name: Seq<char>,
    pub data_type: i32,
    pub value: Option<ValueView>,
}

impl View for DataItem {
    type V = DataItemView;

    open spec fn view(&self) -> DataItemView {
        DataItemView {
            name: self.name@,
            data_type: self.data_type,
            value: match self.value {
                Some(v) => Some(v@),
                None => None,
            },
        }
    }
}

/// An item read from `NAME=TYPE:VALUE` text: complete, or a double whose
/// text still has to be turned into a floating-point value.
#[derive(Debug)]
pub enum ParsedItem {
    Item(DataItem),
    Double { name: String, text: String },
}

/// The mathematical content of a [`ParsedItem`].
pub enum ParsedView {
    Item(DataItemView),
    Double { name: Seq<char>, text: Seq<char> },
}

impl View for ParsedItem {
    type V = ParsedView;

    open spec fn view(&self) -> ParsedView {
        match self {
            ParsedItem::Item(item) => ParsedView::Item(item@),
            ParsedItem::Double { name, text } => ParsedView::Double { name: name@, text: text@ },
        }
    }
}

/// Table row used when rendering configuration items.
#[derive(Debug)]
pub struct DataItemRow {
    pub name: String,
    pub data_type: String,
    pub value: String,
}

/// The reply of the Query operation.
#[derive(Debug)]
pub struct QueryResponse {
    pub items: Vec<DataItem>,
}

/// The reply of the Configure operation.
#[derive(Debug)]
pub struct ConfigureResponse {
    pub success: bool,
    pub message: String,
    pub rejected_items: Vec<DataItem>,
}

/// Table row used when rendering the outcome of the Configure operation.
#[derive(Debug)]
pub struct ConfigureResultRow {
    pub success: bool,
    pub message: String,
}

/// The name by which a kind is shown; unknown codes are shown as `null`.
pub open spec fn type_label_spec(code: i32) -> Seq<char> {
    match DataType::from_code_spec(code) {
        Some(DataType::Bool) => "bool"@,
        Some(DataType::Int64) => "int64"@,
        Some(DataType::Double) => "double"@,
        Some(DataType::String) => "string"@,
        Some(DataType::Bytes) => "bytes"@,
        _ => "null"@,
    }
}

/// The text in which a value is shown; a double is shown as `double_text`.
pub open spec fn value_display_spec(value: Option<ValueView>, double_text: Seq<char>) -> Seq<
    char,
> {
    match value {
        Some(ValueView::Bool(b)) => bool_text(b),
        Some(ValueView::Int64(i)) => int_decimal(i as int),
        Some(ValueView::Double(_)) => double_text,
        Some(ValueView::Text(t)) => t,
        Some(ValueView::Bytes(b)) => "<"@ + nat_decimal(b.len()) + " bytes>"@,
        None => "<null>"@,
    }
}

/// Human-readable representation of an item's value. Floating-point text is
/// not produced here: a double value is shown as `double_text`.
pub fn value_display(item: &DataItem, double_text: &str) -> (r: String)
    ensures
        r@ == value_display_spec(item@.value, double_text@),
{
    match &item.value {
        Some(Value::BoolValue(b)) => String::from_str(bool_to_text(*b)),
        Some(Value::Int64Value(i)) => i64_to_decimal(*i),
        Some(Value::DoubleValue(_)) => String::from_str(double_text),
        Some(Value::StringValue(s)) => s.clone(),
        Some(Value::BytesValue(b)) => {
            let count = u64_to_decimal(b.len() as u64);
            concat3("<", count.as_str(), " bytes>")
        },
        None => String::from_str("<null>"),
    }
}

/// The name by which an item's kind is shown.
pub fn type_label(item: &DataItem) -> (r: &'static str)
    ensures
        r@ == type_label_spec(item.data_type),
{
    match DataType::from_code(item.data_type) {
        Some(DataType::Bool) => "bool",
        Some(DataType::Int64) => "int64",
        Some(DataType::Double) => "double",
        Some(DataType::String) => "string",
        Some(DataType::Bytes) => "bytes",
        _ => "null",
    }
}

/// The table row of an item; a double value is shown as `double_text`.
pub fn to_row(item: &DataItem, double_text: &str) -> (r: DataItemRow)
    ensures
        r.name@ == item.name@,
        r.data_type@ == type_label_spec(item.data_type),
        r.value@ == value_display_spec(item@.value, double_text@),
{
    DataItemRow {
        name: item.name.clone(),
        data_type: String::from_str(type_label(item)),
        value: value_display(item, double_text),
    }
}

/// What the standard library's `str::to_lowercase` makes of a string (full
/// Unicode lower-casing).
pub uninterp spec fn lowercase(s: Seq<char>) -> Seq<char>;

/// The string with each ASCII upper-case letter replaced by its lower-case
/// form.
pub open spec fn ascii_lowercase(s: Seq<char>) -> Seq<char> {
    s.map_values(|c: char| ascii_lower(c))
}

/// Lower-cases a string with the standard library's `str::to_lowercase`.
/// Claimed: the result is a function of the string alone, named
/// [`lowercase`], and on a string of ASCII characters it lower-cases the
/// ASCII letters and keeps every other character, as the standard library
/// documents. Nothing is stated of other characters.
#[verifier::external_body]
fn to_lowercase(s: &str) -> (r: String)
    ensures
        r@ == lowercase(s@),
        is_ascii_chars(s@) ==> r@ == ascii_lowercase(s@),
{
    s.to_lowercase()
}

/// The message for an item without `=`.
pub open spec fn missing_equals_error(s: Seq<char>) -> Seq<char> {
    "invalid item '"@ + s + "': expected NAME=TYPE:VALUE or NAME=null"@
}

/// The message for an item whose right-hand side has no `:` and is not `null`.
pub open spec fn missing_colon_error(s: Seq<char>) -> Seq<char> {
    "invalid item '"@ + s + "': expected NAME=TYPE:VALUE (e.g. count=int64:42)"@
}

/// The message for a value that its declared kind does not accept.
pub open spec fn cannot_parse_error(value: Seq<char>, kind: Seq<char>) -> Seq<char> {
    "cannot parse '"@ + value + "' as "@ + kind
}

/// The message for an unknown kind.
pub open spec fn unknown_type_error(kind: Seq<char>) -> Seq<char> {
    "unknown type '"@ + kind + "'; use bool|int64|double|string|null"@
}

/// An item of the given name, kind and value.
pub open spec fn item_view(name: Seq<char>, kind: DataType, value: Option<ValueView>) -> DataItemView {
    DataItemView { name, data_type: kind.code_spec(), value }
}

/// What `NAME=TYPE:VALUE` text denotes once the type word has been
/// lower-cased to `kind`.
pub open spec fn typed_item_spec(name: Seq<char>, kind: Seq<char>, value: Seq<char>) -> Result<
    ParsedView,
    Seq<char>,
> {
    if kind == "bool"@ {
        match parse_bool_spec(value) {
            Some(b) => Ok(ParsedView::Item(item_view(name, DataType::Bool, Some(ValueView::Bool(b))))),
            None => Err(cannot_parse_error(value, "bool"@)),
        }
    } else if kind == "int64"@ {
        match parse_i64_spec(value) {
            Some(i) => Ok(
                ParsedView::Item(item_view(name, DataType::Int64, Some(ValueView::Int64(i)))),
            ),
            None => Err(cannot_parse_error(value, "int64"@)),
        }
    } else if kind == "double"@ {
        Ok(ParsedView::Double { name, text: value })
    } else if kind == "string"@ {
        Ok(ParsedView::Item(item_view(name, DataType::String, Some(ValueView::Text(value)))))
    } else {
        Err(unknown_type_error(kind))
    }
}

/// What an item given as `NAME=TYPE:VALUE` or `NAME=null` denotes. The name
/// ends at the first `=`, the type at the first `:` after it; `null` is
/// recognised in any ASCII case, and the type word is lower-cased.
pub open spec fn parse_item_spec(s: Seq<char>) -> Result<ParsedView, Seq<char>> {
    match split_once(s, '=') {
        None => Err(missing_equals_error(s)),
        Some(parts) => if eq_ignore_ascii_case(parts.1, "null"@) {
            Ok(ParsedView::Item(item_view(parts.0, DataType::Null, None)))
        } else {
            match split_once(parts.1, ':') {
                None => Err(missing_colon_error(s)),
                Some(typed) => typed_item_spec(parts.0, lowercase(typed.0), typed.1),
            }
        },
    }
}

fn cannot_parse_message(value: &str, kind: &str) -> (r: String)
    ensures
        r@ == cannot_parse_error(value@, kind@),
{
    let mut m = concat3("cannot parse '", value, "' as ");
    m.append(kind);
    m
}

/// Where an item's type word is read and is made of ASCII characters, its
/// lower-cased form is the ASCII lower-casing: the type word is matched
/// without regard to ASCII case.
pub open spec fn ascii_type_word_lowercased(s: Seq<char>) -> bool {
    match split_once(s, '=') {
        Some(parts) => !eq_ignore_ascii_case(parts.1, "null"@) ==> match split_once(parts.1, ':') {
            Some(typed) => is_ascii_chars(typed.0) ==> lowercase(typed.0) == ascii_lowercase(
                typed.0,
            ),
            None => true,
        },
        None => true,
    }
}

/// Reads the value of an item whose type word, lower-cased, is `kind`.
pub fn typed_item(name: String, kind: &str, value: &str) -> (r: Result<ParsedItem, String>)
    ensures
        match typed_item_spec(name@, kind@, value@) {
            Ok(v) => r matches Ok(p) && p@ == v,
            Err(e) => r matches Err(m) && m@ == e,
        },
{
    if str_equal(kind, "bool") {
        match parse_bool(value) {
            Some(b) => Ok(
                ParsedItem::Item(
                    DataItem {
                        name,
                        data_type: DataType::Bool.code(),
                        value: Some(Value::BoolValue(b)),
                    },
                ),
            ),
            None => Err(cannot_parse_message(value, "bool")),
        }
    } else if str_equal(kind, "int64") {
        match parse_i64(value) {
            Some(i) => Ok(
                ParsedItem::Item(
                    DataItem {
                        name,
                        data_type: DataType::Int64.code(),
                        value: Some(Value::Int64Value(i)),
                    },
                ),
            ),
            None => Err(cannot_parse_message(value, "int64")),
        }
    } else if str_equal(kind, "double") {
        Ok(ParsedItem::Double { name, text: String::from_str(value) })
    } else if str_equal(kind, "string") {
        Ok(
            ParsedItem::Item(
                DataItem {
                    name,
                    data_type: DataType::String.code(),
                    value: Some(Value::StringValue(String::from_str(value))),
                },
            ),
        )
    } else {
        Err(concat3("unknown type '", kind, "'; use bool|int64|double|string|null"))
    }
}

/// Parse a string like `key=TYPE:value` or `key=null` into an item.
/// Supported types: bool, int64, double, string, null. A double comes back
/// with its text, to be completed by [`double_item`].
pub fn parse_item(s: &str) -> (r: Result<ParsedItem, String>)
    ensures
        match parse_item_spec(s@) {
            Ok(v) => r matches Ok(p) && p@ == v,
            Err(e) => r matches Err(m) && m@ == e,
        },
        ascii_type_word_lowercased(s@),
{
    let (name, rest) = match split_once_char(s, '=') {
        Some(parts) => parts,
        None => {
            return Err(concat3("invalid item '", s, "': expected NAME=TYPE:VALUE or NAME=null"));
        },
    };
    if str_eq_ignore_ascii_case(rest.as_str(), "null") {
        return Ok(
            ParsedItem::Item(DataItem { name, data_type: DataType::Null.code(), value: None }),
        );
    }
    let (type_str, val_str) = match split_once_char(rest.as_str(), ':') {
        Some(parts) => parts,
        None => {
            return Err(
                concat3(
                    "invalid item '",
                    s,
                    "': expected NAME=TYPE:VALUE (e.g. count=int64:42)",
                ),
            );
        },
    };
    let kind = to_lowercase(type_str.as_str());
    typed_item(name, kind.as_str(), val_str.as_str())
}

/// Completes a double item with the outcome of reading its text as a
/// floating-point number: its bit pattern, or `None` when the text is not a
/// number.
pub fn double_item(name: String, text: &str, bits: Option<u64>) -> (r: Result<DataItem, String>)
    ensures
        match bits {
            Some(b) => r matches Ok(item) && item@ == item_view(
                name@,
                DataType::Double,
                Some(ValueView::Double(b)),
            ),
            None => r matches Err(m) && m@ == cannot_parse_error(text@, "double"@),
        },
{
    match bits {
        Some(b) => Ok(
            DataItem { name, data_type: DataType::Double.code(), value: Some(Value::DoubleValue(b)) },
        ),
        None => Err(cannot_parse_message(text, "double")),
    }
}

/// The items that a Query asks for: one per requested name, with no kind
/// and no value.
pub fn query_items(filter_names: Vec<String>) -> (r: Vec<DataItem>)
    ensures
        r@.len() == filter_names@.len(),
        forall|i: int|
            0 <= i < r@.len() ==> (#[trigger] r@[i])@ == item_view(
                filter_names@[i]@,
                DataType::Null,
                None,
            ),
{
    let mut items: Vec<DataItem> = Vec::new();
    let n = filter_names.len();
    let mut i: usize = 0;
    while i < n
        invariant
            n == filter_names@.len(),
            i <= n,
            items@.len() == i,
            forall|j: int|
                0 <= j < i ==> (#[trigger] items@[j])@ == item_view(
                    filter_names@[j]@,
                    DataType::Null,
                    None,
                ),
        decreases n - i,
    {
        items.push(
            DataItem { name: filter_names[i].clone(), data_type: DataType::Null.code(), value: None },
        );
        i += 1;
    }
    items
}

/// The table rows that show the outcome of a Configure operation: a single
/// row with its success flag and message.
pub fn configure_rows(response: &ConfigureResponse) -> (rows: Vec<ConfigureResultRow>)
    ensures
        rows@.len() == 1,
        rows@[0].success == response.success,
        rows@[0].message@ == response.message@,
{
    let mut rows: Vec<ConfigureResultRow> = Vec::new();
    rows.push(ConfigureResultRow { success: response.success, message: response.message.clone() });
    rows
}

/// The type word under which a value is written.
pub open spec fn type_word(v: ValueView) -> Seq<char> {
    match v {
        ValueView::Bool(_) => "bool"@,
        ValueView::Int64(_) => "int64"@,
        ValueView::Double(_) => "double"@,
        ValueView::Text(_) => "string"@,
        ValueView::Bytes(_) => "bytes"@,
    }
}

/// An item written in the syntax that [`parse_item`] reads: `NAME=null`
/// when it has no value, else `NAME=TYPE:VALUE` with the value as shown by
/// [`value_display`].
pub open spec fn item_text(item: DataItemView) -> Seq<char> {
    match item.value {
        None => item.name + "="@ + "null"@,
        Some(v) => item.name + "="@ + type_word(v) + ":"@ + value_display_spec(
            Some(v),
            Seq::<char>::empty(),
        ),
    }
}

/// The items whose text needs no floating-point conversion: a null item, or
/// a boolean, integer or string item whose kind matches its value.
pub open spec fn writable(item: DataItemView) -> bool {
    match item.value {
        None => item.data_type == DataType::Null.code_spec(),
        Some(ValueView::Bool(_)) => item.data_type == DataType::Bool.code_spec(),
        Some(ValueView::Int64(_)) => item.data_type == DataType::Int64.code_spec(),
        Some(ValueView::Text(_)) => item.data_type == DataType::String.code_spec(),
        _ => false,
    }
}

/// An item written out as `NAME=null` or `NAME=TYPE:VALUE`, with its value
/// as shown, reads back as the same item, provided its name holds no `=` and
/// lower-casing leaves its type word as it is.
pub proof fn lemma_item_text_round_trip(item: DataItemView)
    requires
        !item.name.contains('='),
        writable(item),
        item.value matches Some(v) ==> lowercase(type_word(v)) == type_word(v),
    ensures
        parse_item_spec(item_text(item)) == Ok::<_, Seq<char>>(ParsedView::Item(item)),
{
    reveal_strlit("=");
    reveal_strlit(":");
    reveal_strlit("null");
    reveal_strlit("bool");
    reveal_strlit("int64");
    reveal_strlit("double");
    reveal_strlit("string");
    let name = item.name;
    match item.value {
        None => {
            assert(item_text(item) =~= name + seq!['='] + "null"@);
            lemma_split_once_after(name, '=', "null"@);
            assert(eq_ignore_ascii_case("null"@, "null"@));
            assert(item_view(name, DataType::Null, None) == item);
        },
        Some(v) => {
            let w = type_word(v);
            let d = value_display_spec(Some(v), Seq::<char>::empty());
            let rest = w + seq![':'] + d;
            assert(item_text(item) =~= name + seq!['='] + rest);
            lemma_split_once_after(name, '=', rest);
            assert(!eq_ignore_ascii_case(rest, "null"@));
            assert(!w.contains(':'));
            lemma_split_once_after(w, ':', d);
            match v {
                ValueView::Bool(b) => {
                    lemma_bool_text_round_trip(b);
                    assert(item_view(name, DataType::Bool, Some(ValueView::Bool(b))) == item);
                },
                ValueView::Int64(i) => {
                    lemma_i64_decimal_round_trip(i);
                    assert(w != "bool"@);
                    assert(item_view(name, DataType::Int64, Some(ValueView::Int64(i))) == item);
                },
                ValueView::Text(t) => {
                    assert(w != "bool"@);
                    assert(w != "int64"@);
                    assert(w[0] != "double"@[0]);
                    assert(w != "double"@);
                    assert(item_view(name, DataType::String, Some(ValueView::Text(t))) == item);
                },
                _ => {},
            }
        },
    }
}

/// The records of the table that shows configuration items: the header, then
/// the cells of each row.
pub open spec fn items_records(rows: Seq<DataItemRow>) -> Seq<Seq<Seq<char>>> {
    seq![seq!["Name"@, "Type"@, "Value"@]] + rows.map_values(|r: DataItemRow| seq![r.name@, r.data_type@, r.value@])
}

/// The table that shows configuration items.
pub fn items_table(rows: &Vec<DataItemRow>) -> (r: String)
    ensures
        r@ == ascii_table(items_records(rows@)),
{
    let mut records: Vec<Vec<String>> = Vec::new();
    records.push(record3(String::from_str("Name"), String::from_str("Type"), String::from_str("Value")));
    let n = rows.len();
    let mut i: usize = 0;
    while i < n
        invariant
            n == rows@.len(),
            i <= n,
            records_view(records@) == items_records(rows@.take(i as int)),
        decreases n - i,
    {
        let ghost before = records_view(records@);
        let row = &rows[i];
        let record = record3(row.name.clone(), row.data_type.clone(), row.value.clone());
        let ghost rv = texts(record@);
        records.push(record);
        assert(records_view(records@) =~= before.push(rv));
        assert(items_records(rows@.take(i + 1)) =~= items_records(rows@.take(i as int)).push(rv));
        i += 1;
    }
    assert(rows@.take(n as int) =~= rows@);
    render_ascii(&records)
}

/// The records of the table that shows the outcome of a Configure operation: the header, then
/// the cells of each row.
pub open spec fn configure_records(rows: Seq<ConfigureResultRow>) -> Seq<Seq<Seq<char>>> {
    seq![seq!["Success"@, "Message"@]] + rows.map_values(|r: ConfigureResultRow| seq![bool_text(r.success), r.message@])
}

/// The table that shows the outcome of a Configure operation.
pub fn configure_table(rows: &Vec<ConfigureResultRow>) -> (r: String)
    ensures
        r@ == ascii_table(configure_records(rows@)),
{
    let mut records: Vec<Vec<String>> = Vec::new();
    records.push(record2(String::from_str("Success"), String::from_str("Message")));
    let n = rows.len();
    let mut i: usize = 0;
    while i < n
        invariant
            n == rows@.len(),
            i <= n,
            records_view(records@) == configure_records(rows@.take(i as int)),
        decreases n - i,
    {
        let ghost before = records_view(records@);
        let row = &rows[i];
        let record = record2(String::from_str(bool_to_text(row.success)), row.message.clone());
        let ghost rv = texts(record@);
        records.push(record);
        assert(records_view(records@) =~= before.push(rv));
        assert(configure_records(rows@.take(i + 1)) =~= configure_records(rows@.take(i as int)).push(rv));
        i += 1;
    }
    assert(rows@.take(n as int) =~= rows@);
    render_ascii(&records)
}

/// The views of a list of items.
pub open spec fn items_view(items: Seq<DataItem>) -> Seq<DataItemView> {
    items.map_values(|i: DataItem| i@)
}

/// The outcome of reading the float text of the `i`-th item, `None` where
/// none is given.
pub open spec fn bits_at(bits: Seq<Option<u64>>, i: int) -> Option<u64> {
    if 0 <= i < bits.len() {
        bits[i]
    } else {
        None
    }
}

/// The text in which the `i`-th item's double is shown, empty where none is
/// given.
pub open spec fn text_at(texts: Seq<Seq<char>>, i: int) -> Seq<char> {
    if 0 <= i < texts.len() {
        texts[i]
    } else {
        Seq::<char>::empty()
    }
}

/// The item that a parsed item becomes once the outcome of reading its
/// float text, if it is a double, is known.
pub open spec fn complete_item_spec(parsed: Result<ParsedView, Seq<char>>, bits: Option<u64>) -> Result<
    DataItemView,
    Seq<char>,
> {
    match parsed {
        Err(e) => Err(e),
        Ok(ParsedView::Item(v)) => Ok(v),
        Ok(ParsedView::Double { name, text }) => match bits {
            Some(b) => Ok(item_view(name, DataType::Double, Some(ValueView::Double(b)))),
            None => Err(cannot_parse_error(text, "double"@)),
        },
    }
}

/// The items that a list of `NAME=TYPE:VALUE` texts denotes, read in order,
/// or the message of the first one that is refused; `bits` holds, by
/// position, the outcome of reading each double's float text.
pub open spec fn items_result(raw: Seq<Seq<char>>, bits: Seq<Option<u64>>) -> Result<
    Seq<DataItemView>,
    Seq<char>,
>
    decreases raw.len(),
{
    if raw.len() == 0 {
        Ok(Seq::empty())
    } else {
        match items_result(raw.drop_last(), bits) {
            Err(e) => Err(e),
            Ok(done) => match complete_item_spec(
                parse_item_spec(raw.last()),
                bits_at(bits, raw.len() - 1),
            ) {
                Ok(v) => Ok(done.push(v)),
                Err(e) => Err(e),
            },
        }
    }
}

proof fn lemma_items_error_sticks(raw: Seq<Seq<char>>, bits: Seq<Option<u64>>, k: int)
    requires
        0 <= k <= raw.len(),
        items_result(raw.take(k), bits) is Err,
    ensures
        items_result(raw, bits) == items_result(raw.take(k), bits),
    decreases raw.len(),
{
    if k == raw.len() {
        assert(raw.take(k) =~= raw);
    } else {
        assert(raw.drop_last().take(k) =~= raw.take(k));
        lemma_items_error_sticks(raw.drop_last(), bits, k);
    }
}

/// Parses the items given to Configure, in order, stopping at the first one
/// that is refused. `double_bits[i]` is the outcome of reading the float
/// text of the `i`-th item when it is a double (its bit pattern, or `None`
/// when the text is not a number); the float reading itself is left to the
/// caller.
pub fn parse_items(raw: &Vec<String>, double_bits: &Vec<Option<u64>>) -> (r: Result<
    Vec<DataItem>,
    String,
>)
    ensures
        match items_result(texts(raw@), double_bits@) {
            Ok(vs) => r matches Ok(v) && items_view(v@) == vs,
            Err(e) => r matches Err(m) && m@ == e,
        },
{
    let mut out: Vec<DataItem> = Vec::new();
    let n = raw.len();
    let mut i: usize = 0;
    assert(texts(raw@).take(0) =~= Seq::<Seq<char>>::empty());
    assert(items_view(out@) =~= Seq::<DataItemView>::empty());
    while i < n
        invariant
            n == raw@.len(),
            i <= n,
            items_result(texts(raw@).take(i as int), double_bits@) == Ok::<_, Seq<char>>(
                items_view(out@),
            ),
        decreases n - i,
    {
        let ghost prefix = texts(raw@).take(i as int);
        let ghost next = texts(raw@).take(i + 1);
        assert(next.drop_last() =~= prefix);
        assert(next.last() == raw@[i as int]@);
        let bits: Option<u64> = if i < double_bits.len() {
            double_bits[i]
        } else {
            None
        };
        let completed = match parse_item(raw[i].as_str()) {
            Err(m) => Err(m),
            Ok(ParsedItem::Item(item)) => Ok(item),
            Ok(ParsedItem::Double { name, text }) => double_item(name, text.as_str(), bits),
        };
        match completed {
            Ok(item) => {
                let ghost before = out@;
                let ghost v = item@;
                out.push(item);
                assert(items_view(out@) =~= items_view(before).push(v));
            },
            Err(m) => {
                proof {
                    lemma_items_error_sticks(texts(raw@), double_bits@, i as int + 1);
                }
                return Err(m);
            },
        }
        i += 1;
    }
    assert(texts(raw@).take(n as int) =~= texts(raw@));
    Ok(out)
}

/// The table rows of a list of items, in order; `double_texts[i]` is the
/// text in which the `i`-th item's double, if any, is shown.
pub fn items_rows(items: &Vec<DataItem>, double_texts: &Vec<String>) -> (rows: Vec<DataItemRow>)
    ensures
        rows@.len() == items@.len(),
        forall|i: int|
            0 <= i < rows@.len() ==> (#[trigger] rows@[i]).name@ == items@[i].name@
                && rows@[i].data_type@ == type_label_spec(items@[i].data_type) && rows@[i].value@
                == value_display_spec(items@[i]@.value, text_at(texts(double_texts@), i)),
{
    let mut rows: Vec<DataItemRow> = Vec::new();
    let n = items.len();
    let mut i: usize = 0;
    while i < n
        invariant
            n == items@.len(),
            i <= n,
            rows@.len() == i,
            forall|j: int|
                0 <= j < i ==> (#[trigger] rows@[j]).name@ == items@[j].name@
                    && rows@[j].data_type@ == type_label_spec(items@[j].data_type)
                    && rows@[j].value@ == value_display_spec(
                    items@[j]@.value,
                    text_at(texts(double_texts@), j),
                ),
        decreases n - i,
    {
        let row = if i < double_texts.len() {
            assert(text_at(texts(double_texts@), i as int) == double_texts@[i as int]@);
            to_row(&items[i], double_texts[i].as_str())
        } else {
            proof {
                reveal_strlit("");
            }
            assert(""@ =~= text_at(texts(double_texts@), i as int));
            to_row(&items[i], "")
        };
        rows.push(row);
        i += 1;
    }
    rows
}

/// The cells that show an item, its double shown as `double_text`.
pub open spec fn item_cells(item: DataItemView, double_text: Seq<char>) -> Seq<Seq<char>> {
    seq![item.name, type_label_spec(item.data_type), value_display_spec(item.value, double_text)]
}

/// The records of the table of a list of items: the header, then the cells
/// of each item.
pub open spec fn item_table_records(items: Seq<DataItemView>, double_texts: Seq<Seq<char>>) -> Seq<
    Seq<Seq<char>>,
> {
    seq![seq!["Name"@, "Type"@, "Value"@]] + Seq::new(
        items.len(),
        |i: int| item_cells(items[i], text_at(double_texts, i)),
    )
}

/// What a Configure reply adds below its outcome: nothing when no item was
/// rejected, else a blank line, the line `Rejected items:` and the table of
/// the rejected items.
pub fn rejected_items_text(response: &ConfigureResponse, double_texts: &Vec<String>) -> (r: Option<
    String,
>)
    ensures
        r is None <==> response.rejected_items@.len() == 0,
        r matches Some(t) ==> t@ == "\nRejected items:\n"@ + ascii_table(
            item_table_records(items_view(response.rejected_items@), texts(double_texts@)),
        ),
{
    if response.rejected_items.len() == 0 {
        return None;
    }
    let rows = items_rows(&response.rejected_items, double_texts);
    let table = items_table(&rows);
    proof {
        let a = items_records(rows@);
        let b = item_table_records(items_view(response.rejected_items@), texts(double_texts@));
        assert(a.len() == b.len());
        assert forall|i: int| 0 <= i < a.len() implies a[i] =~= b[i] by {
            if i > 0 {
                assert(rows@[i - 1].name@ == response.rejected_items@[i - 1].name@);
            }
        }
        assert(a =~= b);
    }
    let mut t = String::from_str("\nRejected items:\n");
    t.append(table.as_str());
    Some(t)
}

/// The table of items has the header `Name | Type | Value`, then one record per item row in order, with the name, the kind and the shown value each under its own header.
pub proof fn lemma_items_table_columns(rows: Seq<DataItemRow>)
    ensures
        items_records(rows).len() == rows.len() + 1,
        items_records(rows)[0] == seq!["Name"@, "Type"@, "Value"@],
        forall|i: int|
            0 <= i < rows.len() ==> #[trigger] items_records(rows)[i + 1] == seq![rows[i].name@, rows[i].data_type@, rows[i].value@],
{
    assert forall|i: int| 0 <= i < rows.len() implies #[trigger] items_records(rows)[i + 1] == seq![rows[i].name@, rows[i].data_type@, rows[i].value@] by {
        let r = rows[i];
        assert(items_records(rows)[i + 1] == seq![r.name@, r.data_type@, r.value@]);
    }
}

/// The Configure outcome table has the header `Success | Message`, then one record per row in order, with the success flag under `Success` and the message under `Message`.
pub proof fn lemma_configure_table_columns(rows: Seq<ConfigureResultRow>)
    ensures
        configure_records(rows).len() == rows.len() + 1,
        configure_records(rows)[0] == seq!["Success"@, "Message"@],
        forall|i: int|
            0 <= i < rows.len() ==> #[trigger] configure_records(rows)[i + 1] == seq![bool_text(rows[i].success), rows[i].message@],
{
    assert forall|i: int| 0 <= i < rows.len() implies #[trigger] configure_records(rows)[i + 1] == seq![bool_text(rows[i].success), rows[i].message@] by {
        let r = rows[i];
        assert(configure_records(rows)[i + 1] == seq![bool_text(r.success), r.message@]);
    }
}

/// An item whose type word lower-cases to `double` is handed on with its
/// name and its whole value text, whatever that text is: deciding whether
/// the text is a number is left entirely to the float reading. The name
/// must hold no `=` and the type word no `:`.
pub proof fn lemma_double_text_handed_on(name: Seq<char>, kind: Seq<char>, value: Seq<char>)
    requires
        !name.contains('='),
        !kind.contains(':'),
        lowercase(kind) == "double"@,
    ensures
        parse_item_spec(name + "="@ + kind + ":"@ + value) == Ok::<_, Seq<char>>(
            ParsedView::Double { name, text: value },
        ),
{
    reveal_strlit("=");
    reveal_strlit(":");
    reveal_strlit("null");
    reveal_strlit("bool");
    reveal_strlit("int64");
    reveal_strlit("double");
    let rest = kind + seq![':'] + value;
    assert(name + "="@ + kind + ":"@ + value =~= name + seq!['='] + rest);
    lemma_split_once_after(name, '=', rest);
    if eq_ignore_ascii_case(rest, "null"@) {
        let k = kind.len() as int;
        assert(rest[k] == ':');
        assert(ascii_lower(rest[k]) == ascii_lower("null"@[k]));
        assert(false);
    }
    lemma_split_once_after(kind, ':', value);
    assert("double"@.len() == 6 && "bool"@.len() == 4 && "int64"@.len() == 5);
    assert("double"@ != "bool"@);
    assert("double"@ != "int64"@);
}

/// Once its float text has been read, an item of kind `double` joins the
/// items read so far with the bit pattern that the reading gave; when the
/// reading failed, the list is refused with the message for that text.
pub proof fn lemma_double_item_completed(
    raw: Seq<Seq<char>>,
    bits: Seq<Option<u64>>,
    name: Seq<char>,
    kind: Seq<char>,
    value: Seq<char>,
)
    requires
        !name.contains('='),
        !kind.contains(':'),
        lowercase(kind) == "double"@,
        items_result(raw, bits) is Ok,
    ensures
        match bits_at(bits, raw.len() as int) {
            Some(b) => items_result(raw.push(name + "="@ + kind + ":"@ + value), bits) == Ok::<
                _,
                Seq<char>,
            >(
                items_result(raw, bits)->Ok_0.push(
                    DataItemView {
                        name,
                        data_type: DataType::Double.code_spec(),
                        value: Some(ValueView::Double(b)),
                    },
                ),
            ),
            None => items_result(raw.push(name + "="@ + kind + ":"@ + value), bits) == Err::<
                Seq<DataItemView>,
                _,
            >("cannot parse '"@ + value + "' as double"@),
        },
{
    let text = name + "="@ + kind + ":"@ + value;
    lemma_double_text_handed_on(name, kind, value);
    let all = raw.push(text);
    assert(all.drop_last() =~= raw);
    assert(all.last() == text);
    reveal_strlit("' as ");
    reveal_strlit("double");
    reveal_strlit("' as double");
    assert("' as "@ + "double"@ =~= "' as double"@);
    assert(cannot_parse_error(value, "double"@) =~= "cannot parse '"@ + value + "' as double"@);
}

} // verus!
