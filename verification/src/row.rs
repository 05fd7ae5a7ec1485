//! Plain values, named fields and rows: what goes to the store and what
//! comes back from it.

use vstd::prelude::*;
use vstd::string::StringExecFns;

use crate::error::{shows, Error, ErrorView};

verus! {

/// `uuid::Uuid`. Opaque here: a salt is carried from a row into a
/// projection and never looked into.
#[verifier::external_type_specification]
#[verifier::external_body]
pub struct ExUuid(uuid::Uuid);

/// `Uuid` is `Copy`, and its `clone` is the derived one: the copy is the same
/// identifier.
pub assume_specification[ <uuid::Uuid as Clone>::clone ](id: &uuid::Uuid) -> (copy: uuid::Uuid)
    ensures
        copy == *id,
;

/// One value of a column.
#[derive(Clone, Debug, PartialEq)]
pub enum Value {
    Null,
    Int(i64),
    Text(String),
    Uuid(uuid::Uuid),
}

/// A [`Value`] with its text as a sequence of characters.
pub enum ValueView {
    Null,
    Int(i64),
    Text(Seq<char>),
    Uuid(uuid::Uuid),
}

impl View for Value {
    type V = ValueView;

    open spec fn view(&self) -> ValueView {
        match self {
            Value::Null => ValueView::Null,
            Value::Int(v) => ValueView::Int(*v),
            Value::Text(v) => ValueView::Text(v@),
            Value::Uuid(v) => ValueView::Uuid(*v),
        }
    }
}

impl Value {
    /// A copy that stands for the same value.
    pub fn duplicate(&self) -> (copy: Value)
        ensures
            copy@ == self@,
    {
        match self {
            Value::Null => Value::Null,
            Value::Int(v) => Value::Int(*v),
            Value::Text(v) => Value::Text(v.clone()),
            Value::Uuid(v) => Value::Uuid(*v),
        }
    }
}

/// A value under the name of its column.
#[derive(Clone, Debug, PartialEq)]
pub struct Field {
    pub name: String,
    pub value: Value,
}

pub struct FieldView {
    pub name: Seq<char>,
    pub value: ValueView,
}

impl View for Field {
    type V = FieldView;

    open spec fn view(&self) -> FieldView {
        FieldView { name: self.name@, value: self.value@ }
    }
}

impl Field {
    pub fn new(name: &str, value: Value) -> (field: Field)
        ensures
            field@ == (FieldView { name: name@, value: value@ }),
    {
        Field { name: name.to_owned(), value }
    }
}

/// The views of a run of fields, in their order.
pub open spec fn fields_view(fields: Seq<Field>) -> Seq<FieldView> {
    fields.map_values(|f: Field| f@)
}

/// The names of a run of fields, in their order.
pub open spec fn names_of(fields: Seq<FieldView>) -> Seq<Seq<char>> {
    fields.map_values(|f: FieldView| f.name)
}

/// The values of a run of fields, in their order.
pub open spec fn values_of(fields: Seq<FieldView>) -> Seq<ValueView> {
    fields.map_values(|f: FieldView| f.value)
}

/// The value that a row holds under a name. Where the name occurs more than
/// once, the last field of that name counts.
pub open spec fn lookup(fields: Seq<FieldView>, name: Seq<char>) -> Option<ValueView>
    decreases fields.len(),
{
    if fields.len() == 0 {
        None
    } else if fields.last().name == name {
        Some(fields.last().value)
    } else {
        lookup(fields.drop_last(), name)
    }
}

/// The detail of the error for a row that lacks a column or holds a value of
/// another type under it.
pub open spec fn malformed(name: Seq<char>) -> Seq<char> {
    "malformed row: "@ + name
}

/// The integer under `name`, where the row holds one there.
pub open spec fn read_int(fields: Seq<FieldView>, name: Seq<char>) -> Result<i64, ErrorView> {
    match lookup(fields, name) {
        Some(ValueView::Int(v)) => Ok(v),
        _ => Err(ErrorView::Store(malformed(name))),
    }
}

/// The text under `name`, where the row holds one there.
pub open spec fn read_text(fields: Seq<FieldView>, name: Seq<char>) -> Result<Seq<char>, ErrorView> {
    match lookup(fields, name) {
        Some(ValueView::Text(v)) => Ok(v),
        _ => Err(ErrorView::Store(malformed(name))),
    }
}

/// The text under `name` or its absence, where the row holds a text or a
/// null there.
pub open spec fn read_opt_text(fields: Seq<FieldView>, name: Seq<char>) -> Result<
    Option<Seq<char>>,
    ErrorView,
> {
    match lookup(fields, name) {
        Some(ValueView::Text(v)) => Ok(Some(v)),
        Some(ValueView::Null) => Ok(None),
        _ => Err(ErrorView::Store(malformed(name))),
    }
}

/// The identifier under `name`, where the row holds one there.
pub open spec fn read_uuid(fields: Seq<FieldView>, name: Seq<char>) -> Result<
    uuid::Uuid,
    ErrorView,
> {
    match lookup(fields, name) {
        Some(ValueView::Uuid(v)) => Ok(v),
        _ => Err(ErrorView::Store(malformed(name))),
    }
}

/// One row of a reply.
#[derive(Clone, Debug, PartialEq)]
pub struct Row {
    pub fields: Vec<Field>,
}

impl View for Row {
    type V = Seq<FieldView>;

    open spec fn view(&self) -> Seq<FieldView> {
        fields_view(self.fields@)
    }
}

impl Row {
    pub fn new(fields: Vec<Field>) -> (row: Row)
        ensures
            row.fields == fields,
    {
        Row { fields }
    }

    /// The value under `name`, if the row has that column.
    pub fn get(&self, name: &str) -> (found: Option<&Value>)
        ensures
            match found {
                Some(v) => lookup(self@, name@) == Some(v@),
                None => lookup(self@, name@) is None,
            },
    {
        let key = name.to_owned();
        let mut i: usize = self.fields.len();
        assert(self@.take(i as int) == self@);
        while i > 0
            invariant
                i <= self.fields.len(),
                key@ == name@,
                lookup(self@, name@) == lookup(self@.take(i as int), name@),
            decreases i,
        {
            let field = &self.fields[i - 1];
            proof {
                let head = self@.take(i as int);
                assert(head.last() == field@);
                assert(head.drop_last() == self@.take(i - 1));
            }
            if field.name == key {
                return Some(&field.value);
            }
            i = i - 1;
        }
        None
    }

    fn malformed_error(name: &str) -> (err: Error)
        ensures
            err@ == ErrorView::Store(malformed(name@)),
    {
        let mut detail = String::from_str("malformed row: ");
        detail.append(name);
        Error::Store(detail)
    }

    /// The integer under `name`; a `Store` error where the row has none there.
    pub fn get_int(&self, name: &str) -> (out: Result<i64, Error>)
        ensures
            shows(out, read_int(self@, name@)),
    {
        match self.get(name) {
            Some(Value::Int(v)) => Ok(*v),
            _ => Err(Self::malformed_error(name)),
        }
    }

    /// The text under `name`; a `Store` error where the row has none there.
    pub fn get_text(&self, name: &str) -> (out: Result<String, Error>)
        ensures
            shows(out, read_text(self@, name@)),
    {
        match self.get(name) {
            Some(Value::Text(v)) => Ok(v.clone()),
            _ => Err(Self::malformed_error(name)),
        }
    }

    /// The text under `name`, or `None` for a null; a `Store` error where the
    /// row has neither there.
    pub fn get_opt_text(&self, name: &str) -> (out: Result<Option<String>, Error>)
        ensures
            match read_opt_text(self@, name@) {
                Ok(Some(v)) => out is Ok && out->Ok_0 is Some && out->Ok_0->Some_0@ == v,
                Ok(None) => out is Ok && out->Ok_0 is None,
                Err(e) => out is Err && out->Err_0@ == e,
            },
    {
        match self.get(name) {
            Some(Value::Text(v)) => Ok(Some(v.clone())),
            Some(Value::Null) => Ok(None),
            _ => Err(Self::malformed_error(name)),
        }
    }

    /// The identifier under `name`; a `Store` error where the row has none
    /// there.
    pub fn get_uuid(&self, name: &str) -> (out: Result<uuid::Uuid, Error>)
        ensures
            match read_uuid(self@, name@) {
                Ok(v) => out == Ok::<uuid::Uuid, Error>(v),
                Err(e) => out is Err && out->Err_0@ == e,
            },
    {
        match self.get(name) {
            Some(Value::Uuid(v)) => Ok(*v),
            _ => Err(Self::malformed_error(name)),
        }
    }
}

} // verus!
