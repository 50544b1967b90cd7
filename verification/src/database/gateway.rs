//! The raw query gateway: which statements it refuses, how it tells a read
//! from a write, and how it shapes what the store returns.

use crate::database::timestamp::{optional_text, reformat_rfc3339, rfc3339_form};
use crate::text::{
    ascii_upper, chars_of, contains, find, first_visible, is_whitespace, matches_at, occurs_at,
    skip_whitespace, starts_with, trim_start, upper, upper_chars,
};
use vstd::prelude::*;

verus! {

/// The statement mentions `keyword`, in whatever case its ASCII letters are
/// written. `keyword` is given in upper case.
pub open spec fn mentions(statement: Seq<char>, keyword: Seq<char>) -> bool {
    contains(upper(statement), keyword)
}

/// The statement is of a destructive kind: it mentions `DROP TABLE` or
/// `ALTER TABLE`.
pub open spec fn is_destructive(statement: Seq<char>) -> bool {
    mentions(statement, "DROP TABLE"@) || mentions(statement, "ALTER TABLE"@)
}

/// The statement reads: after its leading whitespace it begins with
/// `SELECT`, in whatever case.
pub open spec fn is_read(statement: Seq<char>) -> bool {
    starts_with(upper(trim_start(statement)), "SELECT"@)
}

/// Tells whether `statement` is of a destructive kind.
pub fn destructive(statement: &str) -> (r: bool)
    ensures
        r == is_destructive(statement@),
{
    let folded = upper_chars(statement);
    let drop_table = chars_of("DROP TABLE");
    let alter_table = chars_of("ALTER TABLE");
    find(&folded, &drop_table) || find(&folded, &alter_table)
}

/// Tells whether `statement` reads.
pub fn reads(statement: &str) -> (r: bool)
    ensures
        r == is_read(statement@),
{
    let folded = upper_chars(statement);
    let plain = chars_of(statement);
    let select = chars_of("SELECT");
    let from = first_visible(&plain, 0);
    proof {
        lemma_upper_keeps_whitespace(statement@, 0);
        assert(upper(trim_start(statement@)) =~= upper(statement@).skip(from as int));
        lemma_occurs_after_skip(upper(statement@), "SELECT"@, from as int);
    }
    matches_at(&folded, &select, from)
}

/// `needle` begins what is left of `haystack` after `from` characters
/// exactly when it stands in `haystack` at `from`.
proof fn lemma_occurs_after_skip(haystack: Seq<char>, needle: Seq<char>, from: int)
    requires
        0 <= from <= haystack.len(),
    ensures
        starts_with(haystack.skip(from), needle) == occurs_at(haystack, needle, from),
{
    if from + needle.len() <= haystack.len() {
        assert(haystack.skip(from).subrange(0, needle.len() as int) =~= haystack.subrange(
            from,
            from + needle.len(),
        ));
    }
}

/// Folding case moves no whitespace: the leading whitespace of a text ends
/// where it did.
proof fn lemma_upper_keeps_whitespace(text: Seq<char>, from: int)
    requires
        0 <= from <= text.len(),
    ensures
        skip_whitespace(upper(text), from) == skip_whitespace(text, from),
    decreases text.len() - from,
{
    if from < text.len() {
        assert(upper(text)[from] == ascii_upper(text[from]));
        if is_whitespace(text[from]) {
            lemma_upper_keeps_whitespace(text, from + 1);
        }
    }
}

/// Folding case goes character by character: the folded form of a text in
/// three parts is the folded forms of the parts, one after the other.
proof fn lemma_upper_of_parts(before: Seq<char>, middle: Seq<char>, after: Seq<char>)
    ensures
        upper(before + middle + after) == upper(before) + upper(middle) + upper(after),
{
    assert(upper(before + middle + after) =~= upper(before) + upper(middle) + upper(after));
}

/// The guard looks at the letters of a keyword, not at their case, and not
/// at what surrounds it: a statement in which `DROP TABLE` or `ALTER TABLE`
/// stands, in upper case, in lower case or in any mixture, after and before
/// any text at all, is of a destructive kind.
pub proof fn lemma_keyword_in_any_case_is_destructive(
    before: Seq<char>,
    keyword: Seq<char>,
    after: Seq<char>,
)
    requires
        upper(keyword) == "DROP TABLE"@ || upper(keyword) == "ALTER TABLE"@,
    ensures
        is_destructive(before + keyword + after),
{
    let statement = before + keyword + after;
    lemma_upper_of_parts(before, keyword, after);
    let at = before.len() as int;
    assert(upper(statement).subrange(at, at + upper(keyword).len()) =~= upper(keyword));
    assert(occurs_at(upper(statement), upper(keyword), at));
}

/// A statement is of a destructive kind only if a keyword stands in it: one
/// that mentions neither keyword passes the guard.
pub proof fn lemma_destructive_names_a_keyword(statement: Seq<char>)
    requires
        is_destructive(statement),
    ensures
        exists|before: Seq<char>, keyword: Seq<char>, after: Seq<char>|
            #![trigger before + keyword + after]
            statement == before + keyword + after && (upper(keyword) == "DROP TABLE"@ || upper(
                keyword,
            ) == "ALTER TABLE"@),
{
    let word = if mentions(statement, "DROP TABLE"@) {
        "DROP TABLE"@
    } else {
        "ALTER TABLE"@
    };
    let at = choose|at: int| occurs_at(upper(statement), word, at);
    let before = statement.take(at);
    let keyword = statement.subrange(at, at + word.len());
    let after = statement.skip(at + word.len());
    assert(statement =~= before + keyword + after);
    assert(upper(keyword) =~= upper(statement).subrange(at, at + word.len()));
}

/// How the cell of a column is read, as the column's declared type says.
#[derive(Debug, Clone, Copy, PartialEq, Eq, Structural)]
pub enum ColumnKind {
    Text,
    Integer,
    Real,
    Blob,
    DateTime,
    /// A type that the gateway does not know: the cell is not read.
    Other,
}

/// The kind of a column whose declared type is named `declared`. The name
/// is taken as the store gives it: in upper case, and whole.
pub open spec fn kind_of(declared: Seq<char>) -> ColumnKind {
    if declared == "TEXT"@ {
        ColumnKind::Text
    } else if declared == "INTEGER"@ {
        ColumnKind::Integer
    } else if declared == "REAL"@ {
        ColumnKind::Real
    } else if declared == "BLOB"@ {
        ColumnKind::Blob
    } else if declared == "DATETIME"@ {
        ColumnKind::DateTime
    } else {
        ColumnKind::Other
    }
}

/// Tells whether `text` is `word`.
fn is_word(text: &Vec<char>, word: &str) -> (r: bool)
    ensures
        r == (text@ == word@),
{
    let word = chars_of(word);
    let r = text.len() == word.len() && matches_at(text, &word, 0);
    proof {
        if text.len() == word.len() {
            assert(text@.subrange(0, word@.len() as int) =~= text@);
        }
    }
    r
}

/// The kind of a column whose declared type is named `declared`.
pub fn column_kind(declared: &str) -> (kind: ColumnKind)
    ensures
        kind == kind_of(declared@),
{
    let name = chars_of(declared);
    if is_word(&name, "TEXT") {
        ColumnKind::Text
    } else if is_word(&name, "INTEGER") {
        ColumnKind::Integer
    } else if is_word(&name, "REAL") {
        ColumnKind::Real
    } else if is_word(&name, "BLOB") {
        ColumnKind::Blob
    } else if is_word(&name, "DATETIME") {
        ColumnKind::DateTime
    } else {
        ColumnKind::Other
    }
}

/// What was read from the cell of a column, each variant for the
/// [`ColumnKind`] of its name.
#[derive(Debug, Clone, PartialEq, Eq)]
pub enum Cell {
    Text(String),
    Integer(i64),
    /// A floating-point number of 64 bits, by its bits.
    Real(u64),
    Blob(Vec<u8>),
    /// The text of a timestamp, as the store holds it.
    DateTime(String),
    /// Nothing was read.
    Other,
}

/// A value that the gateway returns.
#[derive(Debug, Clone, PartialEq, Eq)]
pub enum Value {
    Null,
    Text(String),
    Integer(i64),
    /// A floating-point number of 64 bits, by its bits.
    Double(u64),
    Bytes(Vec<u8>),
}

/// A column of a row that the store returned: its name and its cell.
#[derive(Debug, Clone, PartialEq, Eq)]
pub struct Column {
    pub name: String,
    pub cell: Cell,
}

/// A column of a row that the gateway returns: its name and its value.
#[derive(Debug, Clone, PartialEq, Eq)]
pub struct Field {
    pub name: String,
    pub value: Value,
}

/// What a [`Cell`] holds.
pub enum CellView {
    Text(Seq<char>),
    Integer(i64),
    Real(u64),
    Blob(Seq<u8>),
    DateTime(Seq<char>),
    Other,
}

/// What a [`Value`] holds.
pub enum ValueView {
    Null,
    Text(Seq<char>),
    Integer(i64),
    Double(u64),
    Bytes(Seq<u8>),
}

/// What a [`Column`] holds.
pub struct ColumnView {
    pub name: Seq<char>,
    pub cell: CellView,
}

/// What a [`Field`] holds.
pub struct FieldView {
    pub name: Seq<char>,
    pub value: ValueView,
}

impl View for Cell {
    type V = CellView;

    open spec fn view(&self) -> CellView {
        match self {
            Cell::Text(text) => CellView::Text(text@),
            Cell::Integer(number) => CellView::Integer(*number),
            Cell::Real(bits) => CellView::Real(*bits),
            Cell::Blob(bytes) => CellView::Blob(bytes@),
            Cell::DateTime(text) => CellView::DateTime(text@),
            Cell::Other => CellView::Other,
        }
    }
}

impl View for Value {
    type V = ValueView;

    open spec fn view(&self) -> ValueView {
        match self {
            Value::Null => ValueView::Null,
            Value::Text(text) => ValueView::Text(text@),
            Value::Integer(number) => ValueView::Integer(*number),
            Value::Double(bits) => ValueView::Double(*bits),
            Value::Bytes(bytes) => ValueView::Bytes(bytes@),
        }
    }
}

impl View for Column {
    type V = ColumnView;

    open spec fn view(&self) -> ColumnView {
        ColumnView { name: self.name@, cell: self.cell@ }
    }
}

impl View for Field {
    type V = FieldView;

    open spec fn view(&self) -> FieldView {
        FieldView { name: self.name@, value: self.value@ }
    }
}

/// The value of a timestamp column, given what reading its text as a
/// timestamp gave: the timestamp written out, or the empty text where the
/// text denoted none.
pub open spec fn timestamp_of(parsed: Option<Seq<char>>) -> ValueView {
    match parsed {
        Some(text) => ValueView::Text(text),
        None => ValueView::Text(Seq::empty()),
    }
}

/// The value that a cell becomes. Text stays text, an integer an integer, a
/// real number a double, a blob its bytes. The text of a timestamp is read
/// and written out again in the form of RFC 3339, and becomes the empty
/// text where it denotes no timestamp. A cell that was not read becomes
/// null.
pub open spec fn coerced(cell: CellView) -> ValueView {
    match cell {
        CellView::Text(text) => ValueView::Text(text),
        CellView::Integer(number) => ValueView::Integer(number),
        CellView::Real(bits) => ValueView::Double(bits),
        CellView::Blob(bytes) => ValueView::Bytes(bytes),
        CellView::DateTime(text) => timestamp_of(rfc3339_form(text)),
        CellView::Other => ValueView::Null,
    }
}

/// The field that a column becomes: the same name, the cell coerced.
pub open spec fn shaped_field(column: ColumnView) -> FieldView {
    FieldView { name: column.name, value: coerced(column.cell) }
}

/// The views of `columns`, in order.
pub open spec fn column_views(columns: Seq<Column>) -> Seq<ColumnView> {
    Seq::new(columns.len(), |i: int| columns[i]@)
}

/// The views of `fields`, in order.
pub open spec fn field_views(fields: Seq<Field>) -> Seq<FieldView> {
    Seq::new(fields.len(), |i: int| fields[i]@)
}

/// The views of the rows of columns, in order.
pub open spec fn column_rows(rows: Seq<Vec<Column>>) -> Seq<Seq<ColumnView>> {
    Seq::new(rows.len(), |i: int| column_views(rows[i]@))
}

/// The views of the rows of fields, in order.
pub open spec fn field_rows(rows: Seq<Vec<Field>>) -> Seq<Seq<FieldView>> {
    Seq::new(rows.len(), |i: int| field_views(rows[i]@))
}

/// The row that a row of columns becomes: one field for each column, in the
/// order of the columns.
pub open spec fn shaped_row(columns: Seq<ColumnView>) -> Seq<FieldView> {
    Seq::new(columns.len(), |i: int| shaped_field(columns[i]))
}

/// The rows that the rows of a read become, in order.
pub open spec fn shaped_rows(rows: Seq<Seq<ColumnView>>) -> Seq<Seq<FieldView>> {
    Seq::new(rows.len(), |i: int| shaped_row(rows[i]))
}

/// The name of the one field of the row that a write returns.
pub open spec fn affected_rows_name() -> Seq<char> {
    "affected_rows"@
}

/// The count of a write as a value: the count itself, or the greatest
/// integer of 64 bits where the count is beyond it.
pub open spec fn count_value(count: u64) -> ValueView {
    if count <= i64::MAX {
        ValueView::Integer(count as i64)
    } else {
        ValueView::Integer(i64::MAX)
    }
}

/// The rows that a write returns: one row, with the count of the rows that
/// the store reports as touched.
pub open spec fn write_rows(count: u64) -> Seq<Seq<FieldView>> {
    seq![seq![FieldView { name: affected_rows_name(), value: count_value(count) }]]
}

/// The value of a timestamp column, given what reading its text as a
/// timestamp gave.
pub fn timestamp_value(parsed: Option<String>) -> (value: Value)
    ensures
        value@ == timestamp_of(optional_text(parsed)),
{
    match parsed {
        Some(text) => Value::Text(text),
        None => Value::Text(String::new()),
    }
}

/// The value that `cell` becomes.
pub fn coerce(cell: Cell) -> (value: Value)
    ensures
        value@ == coerced(cell@),
{
    match cell {
        Cell::Text(text) => Value::Text(text),
        Cell::Integer(number) => Value::Integer(number),
        Cell::Real(bits) => Value::Double(bits),
        Cell::Blob(bytes) => Value::Bytes(bytes),
        Cell::DateTime(text) => timestamp_value(reformat_rfc3339(text.as_str())),
        Cell::Other => Value::Null,
    }
}

/// The row that a row of columns becomes.
pub fn shape_row(columns: Vec<Column>) -> (fields: Vec<Field>)
    ensures
        field_views(fields@) == shaped_row(column_views(columns@)),
{
    let ghost given = column_views(columns@);
    let mut fields: Vec<Field> = Vec::new();
    for column in it: columns
        invariant
            given == column_views(it.seq()),
            fields.len() == it.index(),
            forall|j: int| 0 <= j < fields.len() ==> fields@[j]@ == shaped_field(given[j]),
    {
        let Column { name, cell } = column;
        fields.push(Field { name, value: coerce(cell) });
    }
    assert(field_views(fields@) =~= shaped_row(given));
    fields
}

/// The rows that the rows of a read become.
pub fn shape_rows(rows: Vec<Vec<Column>>) -> (shaped: Vec<Vec<Field>>)
    ensures
        field_rows(shaped@) == shaped_rows(column_rows(rows@)),
{
    let ghost given = column_rows(rows@);
    let mut shaped: Vec<Vec<Field>> = Vec::new();
    for row in it: rows
        invariant
            given == column_rows(it.seq()),
            shaped.len() == it.index(),
            forall|j: int| 0 <= j < shaped.len() ==> field_views(shaped@[j]@) == shaped_row(given[j]),
    {
        shaped.push(shape_row(row));
    }
    assert(field_rows(shaped@) =~= shaped_rows(given));
    shaped
}

/// The rows that a write returns, given the count of the rows that the
/// store reports as touched.
pub fn affected_rows(count: u64) -> (rows: Vec<Vec<Field>>)
    ensures
        field_rows(rows@) == write_rows(count),
{
    let number: i64 = if count <= 0x7fff_ffff_ffff_ffff {
        count as i64
    } else {
        0x7fff_ffff_ffff_ffff
    };
    let mut row: Vec<Field> = Vec::new();
    row.push(Field { name: String::from_str("affected_rows"), value: Value::Integer(number) });
    let mut rows: Vec<Vec<Field>> = Vec::new();
    rows.push(row);
    assert(field_rows(rows@) =~= write_rows(count)) by {
        assert(field_views(rows@[0]@) =~= write_rows(count)[0]);
    }
    rows
}

} // verus!
