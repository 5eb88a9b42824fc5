//! The identifier of a type: `int` for the integers, `Custom` for a type
//! declared under that name.

use crate::text::same_text;
use vstd::prelude::*;
use vstd::string::StringExecFns;

verus! {

/// Whether `id` names one of the types that need no declaration.
pub open spec fn is_primitive_name(id: Seq<char>) -> bool {
    id == "bool"@ || id == "int"@ || id == "float"@ || id == "char"@ || id == "string"@
}

/// The identifier of a type.
#[derive(Clone, Debug, PartialEq)]
pub struct TypeId {
    id: String,
}

impl View for TypeId {
    type V = Seq<char>;

    closed spec fn view(&self) -> Seq<char> {
        self.id@
    }
}

/// A type that takes a prefix in front of the names it declares.
pub trait Rename {
    /// What the value stands for, before or after a renaming.
    spec fn named(&self) -> Seq<char>;

    /// Puts `prefix` in front of the name, unless the name is that of a
    /// primitive type.
    fn prefix(&mut self, prefix: &str)
        ensures
            final(self).named() == if is_primitive_name(old(self).named()) {
                old(self).named()
            } else {
                prefix@ + old(self).named()
            },
    ;
}

impl TypeId {
    pub fn new(id: String) -> (ty: TypeId)
        ensures
            ty@ == id@,
    {
        TypeId { id }
    }

    pub fn id(&self) -> (id: &str)
        ensures
            id@ == self@,
    {
        self.id.as_str()
    }

    /// Whether this is one of `bool`, `int`, `float`, `char` and `string`.
    pub fn is_primitive(&self) -> (yes: bool)
        ensures
            yes == is_primitive_name(self@),
    {
        same_text(self.id.as_str(), "bool") || same_text(self.id.as_str(), "int") || same_text(
            self.id.as_str(),
            "float",
        ) || same_text(self.id.as_str(), "char") || same_text(self.id.as_str(), "string")
    }
}

impl From<&str> for TypeId {
    fn from(s: &str) -> (ty: TypeId)
        ensures
            ty@ == s@,
    {
        TypeId::new(String::from_str(s))
    }
}

impl vstd::std_specs::convert::FromSpecImpl<&str> for TypeId {
    open spec fn obeys_from_spec() -> bool {
        false
    }

    open spec fn from_spec(s: &str) -> TypeId {
        arbitrary()
    }
}

impl Rename for TypeId {
    open spec fn named(&self) -> Seq<char> {
        self@
    }

    fn prefix(&mut self, prefix: &str) {
        if !self.is_primitive() {
            let mut renamed = String::from_str(prefix);
            renamed.append(self.id.as_str());
            self.id = renamed;
        }
    }
}


} // verus!
