//! The values that a program computes.

use vstd::prelude::*;

verus! {

/// A value: one of the primitive kinds, or an instance of a declared type.
/// A floating-point value is kept as the text of its literal.
#[derive(Debug, PartialEq)]
pub enum Value {
    Bool(bool),
    Int(i64),
    Float(String),
    Char(char),
    Str(String),
    Object(ObjectInstance),
}

/// An instance of a declared type: the name of the type and the values of its
/// fields, under their names and in the order of the declaration.
#[derive(Debug, PartialEq)]
pub struct ObjectInstance {
    pub ty: String,
    pub fields: Vec<Field>,
}

/// A field of an instance.
#[derive(Debug, PartialEq)]
pub struct Field {
    pub name: String,
    pub value: Value,
}

/// What executing an instruction gives: nothing for a statement, and for an
/// expression its value, if it has one.
#[derive(Debug, PartialEq)]
pub enum InstrKind {
    Statement,
    Expression(Option<Value>),
}

/// A value over mathematical sequences.
pub enum ValueView {
    Bool(bool),
    Int(i64),
    Float(Seq<char>),
    Char(char),
    Str(Seq<char>),
    Object(ObjectView),
}

pub struct ObjectView {
    pub ty: Seq<char>,
    pub fields: Seq<FieldView>,
}

pub struct FieldView {
    pub name: Seq<char>,
    pub value: ValueView,
}

pub enum InstrKindView {
    Statement,
    Expression(Option<ValueView>),
}

/// The views of the fields of a list, in order.
pub open spec fn field_views(list: Seq<Field>) -> Seq<FieldView>
    decreases list,
{
    Seq::new(
        list.len(),
        |i: int|
            if 0 <= i < list.len() {
                list[i].model()
            } else {
                arbitrary()
            },
    )
}

/// The views of the values of a list, in order.
pub open spec fn value_views(list: Seq<Value>) -> Seq<ValueView> {
    Seq::new(list.len(), |i: int| list[i]@)
}

impl Value {
    pub open spec fn model(&self) -> ValueView
        decreases self,
    {
        match self {
            Value::Bool(b) => ValueView::Bool(*b),
            Value::Int(i) => ValueView::Int(*i),
            Value::Float(t) => ValueView::Float(t@),
            Value::Char(c) => ValueView::Char(*c),
            Value::Str(s) => ValueView::Str(s@),
            Value::Object(o) => ValueView::Object(o.model()),
        }
    }
}

impl ObjectInstance {
    pub open spec fn model(&self) -> ObjectView
        decreases self,
    {
        ObjectView { ty: self.ty@, fields: field_views(self.fields@) }
    }
}

impl Field {
    pub open spec fn model(&self) -> FieldView
        decreases self,
    {
        FieldView { name: self.name@, value: self.value.model() }
    }
}

impl View for Value {
    type V = ValueView;

    open spec fn view(&self) -> ValueView {
        self.model()
    }
}

impl View for ObjectInstance {
    type V = ObjectView;

    open spec fn view(&self) -> ObjectView {
        self.model()
    }
}

impl View for Field {
    type V = FieldView;

    open spec fn view(&self) -> FieldView {
        self.model()
    }
}

impl View for InstrKind {
    type V = InstrKindView;

    open spec fn view(&self) -> InstrKindView {
        match self {
            InstrKind::Statement => InstrKindView::Statement,
            InstrKind::Expression(Some(v)) => InstrKindView::Expression(Some(v@)),
            InstrKind::Expression(None) => InstrKindView::Expression(None),
        }
    }
}

/// A list that gains a field gains its view.
pub proof fn lemma_field_views_push(list: Seq<Field>, last: Field)
    ensures
        field_views(list.push(last)) == field_views(list).push(last@),
{
    assert(field_views(list.push(last)) =~= field_views(list).push(last@));
}

/// A list that gains a value gains its view.
pub proof fn lemma_value_views_push(list: Seq<Value>, last: Value)
    ensures
        value_views(list.push(last)) == value_views(list).push(last@),
{
    assert(value_views(list.push(last)) =~= value_views(list).push(last@));
}

impl Value {
    /// A copy of the value.
    pub fn duplicate(&self) -> (copy: Value)
        ensures
            copy@ == self@,
        decreases self,
    {
        match self {
            Value::Bool(b) => Value::Bool(*b),
            Value::Int(i) => Value::Int(*i),
            Value::Float(t) => Value::Float(t.clone()),
            Value::Char(c) => Value::Char(*c),
            Value::Str(s) => Value::Str(s.clone()),
            Value::Object(o) => {
                let mut fields: Vec<Field> = Vec::new();
                let mut i: usize = 0;
                assert(field_views(fields@) =~= field_views(o.fields@).take(0));
                while i < o.fields.len()
                    invariant
                        i <= o.fields.len(),
                        decreases_to!(self => o.fields),
                        field_views(fields@) == field_views(o.fields@).take(i as int),
                    decreases o.fields.len() - i,
                {
                    proof {
                        vstd::std_specs::vec::axiom_vec_index_decreases(o.fields, i as int);
                        lemma_field_views_push(fields@, o.fields[i as int]);
                    }
                    let field = &o.fields[i];
                    let copy = Field { name: field.name.clone(), value: field.value.duplicate() };
                    proof {
                        lemma_field_views_push(fields@, copy);
                        assert(field_views(o.fields@).take(i + 1) =~= field_views(o.fields@).take(
                            i as int,
                        ).push(copy@));
                    }
                    fields.push(copy);
                    i = i + 1;
                }
                assert(field_views(o.fields@).take(o.fields.len() as int) =~= field_views(
                    o.fields@,
                ));
                Value::Object(ObjectInstance { ty: o.ty.clone(), fields })
            },
        }
    }
}

} // verus!
