use vstd::prelude::*;
use vstd::string::StringSliceAdditionalSpecFns;
use vstd::utf8::encode_utf8_decode_utf8;
use crate::error::{deep, DbError};

verus! {

/// A value as it is bound to a statement or found in a row: it has an SQL
/// type, and is either present or null.
#[derive(Debug, PartialEq, Eq)]
pub enum Value {
    /// `BOOL`
    Bool(Option<bool>),
    /// `INT2`
    Int2(Option<i16>),
    /// `INT4`
    Int4(Option<i32>),
    /// `INT8`
    Int8(Option<i64>),
    /// `TEXT` and the other character types
    Text(Option<String>),
    /// A value of a type that no entity of this library has a field for.
    Other,
}

/// What a [`Value`] holds, as mathematical values.
pub ghost enum ValueView {
    Bool(Option<bool>),
    Int2(Option<i16>),
    Int4(Option<i32>),
    Int8(Option<i64>),
    Text(Option<Seq<char>>),
    Other,
}

impl View for Value {
    type V = ValueView;

    open spec fn view(&self) -> ValueView {
        match *self {
            Value::Bool(b) => ValueView::Bool(b),
            Value::Int2(n) => ValueView::Int2(n),
            Value::Int4(n) => ValueView::Int4(n),
            Value::Int8(n) => ValueView::Int8(n),
            Value::Text(Some(s)) => ValueView::Text(Some(s@)),
            Value::Text(None) => ValueView::Text(None),
            Value::Other => ValueView::Other,
        }
    }
}

impl DeepView for Value {
    type V = ValueView;

    open spec fn deep_view(&self) -> ValueView {
        self@
    }
}

impl ValueView {
    /// The value read as a `bool` field: present and of type `BOOL`.
    pub open spec fn as_bool(self) -> Result<bool, DbError> {
        match self {
            ValueView::Bool(Some(b)) => Ok(b),
            _ => Err(DbError::MappingError),
        }
    }

    /// The value read as an `i16` field: present and of type `INT2`.
    pub open spec fn as_i16(self) -> Result<i16, DbError> {
        match self {
            ValueView::Int2(Some(n)) => Ok(n),
            _ => Err(DbError::MappingError),
        }
    }

    /// The value read as an `i32` field: present and of type `INT4`.
    pub open spec fn as_i32(self) -> Result<i32, DbError> {
        match self {
            ValueView::Int4(Some(n)) => Ok(n),
            _ => Err(DbError::MappingError),
        }
    }

    /// The value read as a text field: present and of a character type.
    pub open spec fn as_text(self) -> Result<Seq<char>, DbError> {
        match self {
            ValueView::Text(Some(s)) => Ok(s),
            _ => Err(DbError::MappingError),
        }
    }
}

impl Clone for Value {
    fn clone(&self) -> (copy: Self)
        ensures
            copy@ == self@,
    {
        match self {
            Value::Bool(b) => Value::Bool(*b),
            Value::Int2(n) => Value::Int2(*n),
            Value::Int4(n) => Value::Int4(*n),
            Value::Int8(n) => Value::Int8(*n),
            Value::Text(Some(s)) => Value::Text(Some(s.clone())),
            Value::Text(None) => Value::Text(None),
            Value::Other => Value::Other,
        }
    }
}

impl Value {
    /// Reads the value as a `bool` field. No other type is coerced, and a
    /// null is no `bool`.
    pub fn as_bool(&self) -> (field: Result<bool, DbError>)
        ensures
            field == self@.as_bool(),
    {
        match self {
            Value::Bool(Some(b)) => Ok(*b),
            _ => Err(DbError::MappingError),
        }
    }

    /// Reads the value as an `i16` field. No other type is coerced, not even
    /// a wider integer that would fit.
    pub fn as_i16(&self) -> (field: Result<i16, DbError>)
        ensures
            field == self@.as_i16(),
    {
        match self {
            Value::Int2(Some(n)) => Ok(*n),
            _ => Err(DbError::MappingError),
        }
    }

    /// Reads the value as an `i32` field.
    pub fn as_i32(&self) -> (field: Result<i32, DbError>)
        ensures
            field == self@.as_i32(),
    {
        match self {
            Value::Int4(Some(n)) => Ok(*n),
            _ => Err(DbError::MappingError),
        }
    }

    /// Reads the value as a text field, and copies the text.
    pub fn as_text(&self) -> (field: Result<String, DbError>)
        ensures
            deep(field) == self@.as_text(),
    {
        match self {
            Value::Text(Some(s)) => Ok(s.clone()),
            _ => Err(DbError::MappingError),
        }
    }
}

/// One column of a row: its name in the result and the value under it.
#[derive(Debug, PartialEq, Eq)]
pub struct Column {
    pub name: String,
    pub value: Value,
}

/// What a [`Column`] holds, as mathematical values.
pub ghost struct ColumnView {
    pub name: Seq<char>,
    pub value: ValueView,
}

/// What a [`Row`] holds, as mathematical values: its columns in order.
pub type RowView = Seq<ColumnView>;

impl View for Column {
    type V = ColumnView;

    open spec fn view(&self) -> ColumnView {
        ColumnView { name: self.name@, value: self.value@ }
    }
}

impl DeepView for Column {
    type V = ColumnView;

    open spec fn deep_view(&self) -> ColumnView {
        self@
    }
}

impl Column {
    /// A column named `name` that holds `value`.
    pub fn new(name: &str, value: Value) -> (column: Self)
        ensures
            column@ == (ColumnView { name: name@, value: value@ }),
    {
        Column { name: name.to_owned(), value }
    }
}

/// One row of a result: its columns in the order in which the store sent
/// them. Two columns may have the same name.
#[derive(Debug, PartialEq, Eq)]
pub struct Row {
    pub columns: Vec<Column>,
}

impl View for Row {
    type V = Seq<ColumnView>;

    open spec fn view(&self) -> Seq<ColumnView> {
        self.columns.deep_view()
    }
}

impl DeepView for Row {
    type V = Seq<ColumnView>;

    open spec fn deep_view(&self) -> Seq<ColumnView> {
        self@
    }
}

/// The value under the first column of `row` that is named exactly `name`,
/// if there is such a column.
pub open spec fn lookup(row: Seq<ColumnView>, name: Seq<char>) -> Option<ValueView>
    decreases row.len(),
{
    if row.len() == 0 {
        None
    } else if row[0].name == name {
        Some(row[0].value)
    } else {
        lookup(row.drop_first(), name)
    }
}

/// The lookup finds the first column of that name: where the column at
/// place `k` has the name and none before it has, the value is the one at
/// place `k`.
pub proof fn lemma_lookup_finds_first(row: Seq<ColumnView>, name: Seq<char>, k: int)
    requires
        0 <= k < row.len(),
        row[k].name == name,
        forall|j: int| 0 <= j < k ==> row[j].name != name,
    ensures
        lookup(row, name) == Some(row[k].value),
    decreases k,
{
    if k > 0 {
        let rest = row.drop_first();
        assert(rest[k - 1] == row[k]);
        assert forall|j: int| 0 <= j < k - 1 implies rest[j].name != name by {
            assert(rest[j] == row[j + 1]);
        }
        lemma_lookup_finds_first(rest, name, k - 1);
    }
}

/// The lookup finds nothing exactly where no column has the name.
pub proof fn lemma_lookup_misses(row: Seq<ColumnView>, name: Seq<char>)
    ensures
        lookup(row, name) is None <==> forall|j: int| 0 <= j < row.len() ==> row[j].name != name,
    decreases row.len(),
{
    if row.len() > 0 {
        let rest = row.drop_first();
        lemma_lookup_misses(rest, name);
        if row[0].name != name {
            if lookup(rest, name) is None {
                assert forall|j: int| 0 <= j < row.len() implies row[j].name != name by {
                    if j > 0 {
                        assert(rest[j - 1] == row[j]);
                    }
                }
            } else {
                let j = choose|j: int| 0 <= j < rest.len() && rest[j].name == name;
                assert(row[j + 1] == rest[j]);
            }
        }
    }
}

/// The value that a field reads from `row` under `name`: a row without that
/// column maps to no entity.
pub open spec fn field(row: Seq<ColumnView>, name: Seq<char>) -> Result<ValueView, DbError> {
    match lookup(row, name) {
        Some(value) => Ok(value),
        None => Err(DbError::MappingError),
    }
}

/// The `bool` that a field reads from `row` under `name`.
pub open spec fn bool_field(row: Seq<ColumnView>, name: Seq<char>) -> Result<bool, DbError> {
    match field(row, name) {
        Ok(value) => value.as_bool(),
        Err(e) => Err(e),
    }
}

/// The `i16` that a field reads from `row` under `name`.
pub open spec fn i16_field(row: Seq<ColumnView>, name: Seq<char>) -> Result<i16, DbError> {
    match field(row, name) {
        Ok(value) => value.as_i16(),
        Err(e) => Err(e),
    }
}

/// The `i32` that a field reads from `row` under `name`.
pub open spec fn i32_field(row: Seq<ColumnView>, name: Seq<char>) -> Result<i32, DbError> {
    match field(row, name) {
        Ok(value) => value.as_i32(),
        Err(e) => Err(e),
    }
}

/// The text that a field reads from `row` under `name`.
pub open spec fn text_field(row: Seq<ColumnView>, name: Seq<char>) -> Result<Seq<char>, DbError> {
    match field(row, name) {
        Ok(value) => value.as_text(),
        Err(e) => Err(e),
    }
}

/// Whether two strings hold the same characters.
pub fn str_eq(a: &str, b: &str) -> (same: bool)
    ensures
        same == (a@ == b@),
{
    let x = a.as_bytes();
    let y = b.as_bytes();
    if x.len() != y.len() {
        return false;
    }
    let mut i: usize = 0;
    while i < x.len()
        invariant
            i <= x.len(),
            x.len() == y.len(),
            x@ == a.spec_bytes(),
            y@ == b.spec_bytes(),
            forall|j: int| 0 <= j < i ==> x@[j] == y@[j],
        decreases x.len() - i,
    {
        if x[i] != y[i] {
            return false;
        }
        i += 1;
    }
    proof {
        assert(x@ =~= y@);
        encode_utf8_decode_utf8(a@);
        encode_utf8_decode_utf8(b@);
    }
    true
}

impl Row {
    /// A row of the given columns.
    pub fn new(columns: Vec<Column>) -> (row: Self)
        ensures
            row@ == columns.deep_view(),
    {
        Row { columns }
    }

    /// The number of columns.
    pub fn len(&self) -> (n: usize)
        ensures
            n == self@.len(),
    {
        self.columns.len()
    }

    /// The value under the first column named exactly `name`; the names are
    /// compared character by character, upper and lower case apart.
    pub fn get(&self, name: &str) -> (found: Option<&Value>)
        ensures
            found is Some <==> lookup(self@, name@) is Some,
            found is Some ==> found->Some_0@ == lookup(self@, name@)->Some_0,
    {
        let mut i: usize = 0;
        proof {
            assert(self@.skip(0) =~= self@);
        }
        while i < self.columns.len()
            invariant
                i <= self.columns.len(),
                lookup(self@, name@) == lookup(self@.skip(i as int), name@),
            decreases self.columns.len() - i,
        {
            let column = &self.columns[i];
            proof {
                assert(self@.skip(i as int).drop_first() =~= self@.skip(i + 1));
            }
            if str_eq(column.name.as_str(), name) {
                return Some(&column.value);
            }
            i += 1;
        }
        None
    }

    /// The value that a field reads under `name`, or the error that says
    /// that the row has no such column.
    pub fn field(&self, name: &str) -> (found: Result<&Value, DbError>)
        ensures
            deep(found) == field(self@, name@),
    {
        match self.get(name) {
            Some(value) => Ok(value),
            None => Err(DbError::MappingError),
        }
    }

    /// Reads the `bool` under `name`.
    pub fn try_get_bool(&self, name: &str) -> (found: Result<bool, DbError>)
        ensures
            found == bool_field(self@, name@),
    {
        self.field(name)?.as_bool()
    }

    /// Reads the `i16` under `name`.
    pub fn try_get_i16(&self, name: &str) -> (found: Result<i16, DbError>)
        ensures
            found == i16_field(self@, name@),
    {
        self.field(name)?.as_i16()
    }

    /// Reads the `i32` under `name`.
    pub fn try_get_i32(&self, name: &str) -> (found: Result<i32, DbError>)
        ensures
            found == i32_field(self@, name@),
    {
        self.field(name)?.as_i32()
    }

    /// Reads the text under `name`, and copies it.
    pub fn try_get_text(&self, name: &str) -> (found: Result<String, DbError>)
        ensures
            deep(found) == text_field(self@, name@),
    {
        self.field(name)?.as_text()
    }
}

} // verus!
