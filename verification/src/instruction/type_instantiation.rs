//! The construction of a value of a declared type from the values of its
//! fields, given in the order of the declaration.

use super::execute::{unresolved_type, wrong_count};
use super::{views, Instruction, InstructionView, TypeDec};
use crate::context::Context;
use crate::error::Error;
use crate::text::{join, push_decimal};
use crate::value::InstrKind;
use std::rc::Rc;
use vstd::prelude::*;
use vstd::string::StringExecFns;

verus! {

/// A type's name and the expressions that give its fields their values.
#[derive(Debug, PartialEq)]
pub struct TypeInstantiation {
    pub name: String,
    pub fields: Vec<Instruction>,
}

pub struct TypeInstantiationView {
    pub name: Seq<char>,
    pub fields: Seq<InstructionView>,
}

impl TypeInstantiation {
    /// An instantiation of the type `name` with no field yet.
    pub fn new(name: String) -> (inst: TypeInstantiation)
        ensures
            inst@ == (TypeInstantiationView {
                name: name@,
                fields: Seq::<InstructionView>::empty(),
            }),
    {
        let inst = TypeInstantiation { name, fields: Vec::new() };
        assert(views(inst.fields@) =~= Seq::<InstructionView>::empty());
        inst
    }

    /// Adds the expression of the next field.
    pub fn add_field(&mut self, arg: Instruction)
        ensures
            final(self)@ == (TypeInstantiationView {
                fields: old(self)@.fields.push(arg@),
                ..old(self)@
            }),
    {
        proof {
            super::lemma_views_push(self.fields@, arg);
        }
        self.fields.push(arg)
    }

    /// The name of the type.
    pub fn name(&self) -> (name: &str)
        ensures
            name@ == self@.name,
    {
        self.name.as_str()
    }

    /// The declaration of the type, which is shared with `ctx`. It is a
    /// failure that no type is declared under the name.
    pub fn get_declaration(&self, ctx: &Context) -> (found: Result<Rc<TypeDec>, Error>)
        ensures
            match found {
                Ok(dec) => ctx@.type_dec(self@.name) == Some((*dec)@),
                Err(e) => ctx@.type_dec(self@.name) is None && e@ == unresolved_type(self@.name),
            },
    {
        match ctx.get_type(self.name()) {
            Some(t) => Ok(t),
            None => Err(Error::interpreter(join("Cannot find type ", self.name()))),
        }
    }

    /// Checks that there are as many values as `type_dec` has fields. The
    /// failure gives both numbers.
    pub fn check_fields_count(&self, type_dec: &TypeDec) -> (checked: Result<(), Error>)
        ensures
            match checked {
                Ok(_) => self@.fields.len() == type_dec@.fields.len(),
                Err(e) => self@.fields.len() != type_dec@.fields.len() && e@ == wrong_count(
                    self@.name,
                    type_dec@.fields.len(),
                    self@.fields.len(),
                ),
            },
    {
        if self.fields.len() == type_dec.fields.len() {
            Ok(())
        } else {
            Err(count_error(self.name(), type_dec.fields.len(), self.fields.len()))
        }
    }

    /// An instantiation is an expression; its value is known when it is
    /// executed.
    pub fn kind(&self) -> (kind: InstrKind)
        ensures
            kind == InstrKind::Expression(None),
    {
        InstrKind::Expression(None)
    }

    /// The expressions of the fields, in order.
    pub fn fields(&self) -> (fields: &Vec<Instruction>)
        ensures
            views(fields@) == self@.fields,
    {
        &self.fields
    }
}

/// The failure of `actual` values under `name` where `expected` are declared.
pub fn count_error(name: &str, expected: usize, actual: usize) -> (err: Error)
    ensures
        err@ == wrong_count(name@, expected as nat, actual as nat),
{
    let mut msg = join("Wrong number of arguments for call to function `", name);
    msg.append("`: Expected ");
    push_decimal(&mut msg, expected as u64);
    msg.append(", got ");
    push_decimal(&mut msg, actual as u64);
    Error::interpreter(msg)
}

} // verus!
