//! The wire's generic structured value: null, number, string, boolean,
//! struct or list.
//!
//! A number travels as the bit pattern of an IEEE 754 double; the wire keeps
//! no distinction between integers and fractions. A struct travels as a list
//! of fields; a reader that meets a key twice keeps the later field.

use vstd::prelude::*;

verus! {

/// A dynamically typed value.
#[derive(Debug, PartialEq, Default)]
pub struct Value {
    /// The kind of value; absent when the sender set none.
    pub kind: Option<Kind>,
}

/// The kinds a [`Value`] can take.
#[derive(Debug, PartialEq)]
pub enum Kind {
    /// The null value; the integer is always sent as zero.
    NullValue(i32),
    /// A double, as its bit pattern.
    NumberValue(u64),
    /// A string.
    StringValue(String),
    /// A boolean.
    BoolValue(bool),
    /// A structured value.
    StructValue(Struct),
    /// A list of values.
    ListValue(ListValue),
}

/// A structured value: named fields, in the order sent.
#[derive(Debug, PartialEq, Default)]
pub struct Struct {
    /// The fields.
    pub fields: Vec<Field>,
}

/// One named field of a [`Struct`].
#[derive(Debug, PartialEq, Default)]
pub struct Field {
    /// The field's name.
    pub key: String,
    /// The field's value.
    pub value: Value,
}

/// A list of values.
#[derive(Debug, PartialEq, Default)]
pub struct ListValue {
    /// The elements, in order.
    pub values: Vec<Value>,
}

/// Mathematical model of [`Value`].
pub struct ValueView {
    pub kind: Option<KindView>,
}

/// Mathematical model of [`Kind`].
pub enum KindView {
    NullValue(i32),
    NumberValue(u64),
    StringValue(Seq<char>),
    BoolValue(bool),
    StructValue(StructView),
    ListValue(ListValueView),
}

/// Mathematical model of [`Struct`].
pub struct StructView {
    pub fields: Seq<FieldView>,
}

/// Mathematical model of [`Field`].
pub struct FieldView {
    pub key: Seq<char>,
    pub value: ValueView,
}

/// Mathematical model of [`ListValue`].
pub struct ListValueView {
    pub values: Seq<ValueView>,
}

/// The model of a value.
pub open spec fn value_view(v: Value) -> ValueView
    decreases v,
{
    ValueView {
        kind: match v.kind {
            Some(k) => Some(kind_view(k)),
            None => None,
        },
    }
}

/// The model of a kind.
pub open spec fn kind_view(k: Kind) -> KindView
    decreases k,
{
    match k {
        Kind::NullValue(n) => KindView::NullValue(n),
        Kind::NumberValue(bits) => KindView::NumberValue(bits),
        Kind::StringValue(s) => KindView::StringValue(s@),
        Kind::BoolValue(b) => KindView::BoolValue(b),
        Kind::StructValue(s) => KindView::StructValue(struct_view(s)),
        Kind::ListValue(l) => KindView::ListValue(list_view(l)),
    }
}

/// The model of a struct.
pub open spec fn struct_view(s: Struct) -> StructView
    decreases s,
{
    StructView {
        fields: Seq::new(
            s.fields@.len(),
            |i: int|
                if 0 <= i < s.fields.len() {
                    field_view(s.fields[i])
                } else {
                    arbitrary()
                },
        ),
    }
}

/// The model of a field.
pub open spec fn field_view(f: Field) -> FieldView
    decreases f,
{
    FieldView { key: f.key@, value: value_view(f.value) }
}

/// The model of a list.
pub open spec fn list_view(l: ListValue) -> ListValueView
    decreases l,
{
    ListValueView {
        values: Seq::new(
            l.values@.len(),
            |i: int|
                if 0 <= i < l.values.len() {
                    value_view(l.values[i])
                } else {
                    arbitrary()
                },
        ),
    }
}

impl View for Value {
    type V = ValueView;

    open spec fn view(&self) -> ValueView {
        value_view(*self)
    }
}

impl View for Kind {
    type V = KindView;

    open spec fn view(&self) -> KindView {
        kind_view(*self)
    }
}

impl View for Struct {
    type V = StructView;

    open spec fn view(&self) -> StructView {
        struct_view(*self)
    }
}

impl View for Field {
    type V = FieldView;

    open spec fn view(&self) -> FieldView {
        field_view(*self)
    }
}

impl View for ListValue {
    type V = ListValueView;

    open spec fn view(&self) -> ListValueView {
        list_view(*self)
    }
}

/// Copies a value.
fn clone_value(v: &Value) -> (r: Value)
    ensures
        r@ == v@,
    decreases v,
{
    Value {
        kind: match &v.kind {
            Some(k) => Some(clone_kind(k)),
            None => None,
        },
    }
}

/// Copies a kind.
fn clone_kind(k: &Kind) -> (r: Kind)
    ensures
        r@ == k@,
    decreases k,
{
    match k {
        Kind::NullValue(n) => Kind::NullValue(*n),
        Kind::NumberValue(bits) => Kind::NumberValue(*bits),
        Kind::StringValue(s) => Kind::StringValue(s.clone()),
        Kind::BoolValue(b) => Kind::BoolValue(*b),
        Kind::StructValue(s) => Kind::StructValue(clone_struct(s)),
        Kind::ListValue(l) => Kind::ListValue(clone_list(l)),
    }
}

/// Copies a struct.
fn clone_struct(s: &Struct) -> (r: Struct)
    ensures
        r@ == s@,
    decreases s,
{
    let mut fields: Vec<Field> = Vec::new();
    let mut i: usize = 0;
    while i < s.fields.len()
        invariant
            i <= s.fields.len(),
            fields@.len() == i,
            forall|j: int| 0 <= j < i ==> fields@[j]@ == s.fields@[j]@,
        decreases s.fields.len() - i,
    {
        let f = &s.fields[i];
        fields.push(Field { key: f.key.clone(), value: clone_value(&f.value) });
        i = i + 1;
    }
    let r = Struct { fields };
    assert(r@.fields =~= s@.fields);
    r
}

/// Copies a list.
fn clone_list(l: &ListValue) -> (r: ListValue)
    ensures
        r@ == l@,
    decreases l,
{
    let mut values: Vec<Value> = Vec::new();
    let mut i: usize = 0;
    while i < l.values.len()
        invariant
            i <= l.values.len(),
            values@.len() == i,
            forall|j: int| 0 <= j < i ==> values@[j]@ == l.values@[j]@,
        decreases l.values.len() - i,
    {
        values.push(clone_value(&l.values[i]));
        i = i + 1;
    }
    let r = ListValue { values };
    assert(r@.values =~= l@.values);
    r
}

impl Clone for Value {
    fn clone(&self) -> (r: Self)
        ensures
            r@ == self@,
    {
        clone_value(self)
    }
}

impl Clone for Kind {
    fn clone(&self) -> (r: Self)
        ensures
            r@ == self@,
    {
        clone_kind(self)
    }
}

impl Clone for Struct {
    fn clone(&self) -> (r: Self)
        ensures
            r@ == self@,
    {
        clone_struct(self)
    }
}

impl Clone for Field {
    fn clone(&self) -> (r: Self)
        ensures
            r@ == self@,
    {
        Field { key: self.key.clone(), value: clone_value(&self.value) }
    }
}

impl Clone for ListValue {
    fn clone(&self) -> (r: Self)
        ensures
            r@ == self@,
    {
        clone_list(self)
    }
}

} // verus!
