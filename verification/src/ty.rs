//! What the library reads of a type.
//!
//! Types themselves are computed by the type checker; the checkers and
//! desugarings verified here only consult a type's printed form and a few of
//! its predicates, which a `TypeInfo` carries as plain values.
use vstd::prelude::*;

verus! {

/// The printed form of a type together with the predicates that the
/// side-effect checker consults.
#[derive(Debug)]
pub struct TypeInfo {
    /// The type as it is displayed, e.g. `Int` or `(Int) => NoneType`.
    pub name: String,
    /// The type is a procedure type (`... => ...`).
    pub is_procedure: bool,
    /// The type is a mutable type (`T!`).
    pub is_mut_type: bool,
    /// The type is a reference type (`Ref(T)`, `RefMut(T)`).
    pub is_ref: bool,
    /// Values of the type can be called (subroutines and the like).
    pub is_callable: bool,
}

/// The mathematical value of a `TypeInfo`.
pub struct TypeView {
    pub name: Seq<char>,
    pub is_procedure: bool,
    pub is_mut_type: bool,
    pub is_ref: bool,
    pub is_callable: bool,
}

impl View for TypeInfo {
    type V = TypeView;

    open spec fn view(&self) -> TypeView {
        TypeView {
            name: self.name@,
            is_procedure: self.is_procedure,
            is_mut_type: self.is_mut_type,
            is_ref: self.is_ref,
            is_callable: self.is_callable,
        }
    }
}

/// The view of a plain type printed as `name`.
pub open spec fn plain_view(name: Seq<char>) -> TypeView {
    TypeView { name, is_procedure: false, is_mut_type: false, is_ref: false, is_callable: false }
}

impl Clone for TypeInfo {
    fn clone(&self) -> (t: Self)
        ensures
            t == *self,
    {
        TypeInfo {
            name: self.name.clone(),
            is_procedure: self.is_procedure,
            is_mut_type: self.is_mut_type,
            is_ref: self.is_ref,
            is_callable: self.is_callable,
        }
    }
}

impl TypeInfo {
    /// A type with the given printed form and none of the three properties.
    pub fn plain(name: String) -> (t: Self)
        ensures
            t@ == plain_view(name@),
    {
        TypeInfo { name, is_procedure: false, is_mut_type: false, is_ref: false, is_callable: false }
    }

    /// A function type (callable, without side effects) with the given
    /// printed form.
    pub fn function(name: String) -> (t: Self)
        ensures
            t.name == name,
            !t.is_procedure,
            !t.is_mut_type,
            !t.is_ref,
            t.is_callable,
    {
        TypeInfo { name, is_procedure: false, is_mut_type: false, is_ref: false, is_callable: true }
    }

    /// A procedure type with the given printed form.
    pub fn procedure(name: String) -> (t: Self)
        ensures
            t.name == name,
            t.is_procedure,
            !t.is_mut_type,
            !t.is_ref,
            t.is_callable,
    {
        TypeInfo { name, is_procedure: true, is_mut_type: false, is_ref: false, is_callable: true }
    }

    /// A mutable type with the given printed form.
    pub fn mutable(name: String) -> (t: Self)
        ensures
            t.name == name,
            !t.is_procedure,
            t.is_mut_type,
            !t.is_ref,
            !t.is_callable,
    {
        TypeInfo { name, is_procedure: false, is_mut_type: true, is_ref: false, is_callable: false }
    }

    /// The type `NoneType` of statements such as definitions.
    pub fn none() -> (t: Self)
        ensures
            t@ == plain_view("NoneType"@),
    {
        TypeInfo::plain(String::from_str("NoneType"))
    }

    /// The type `Failure` given to expressions whose type could not be
    /// determined (such as an empty block).
    pub fn failure() -> (t: Self)
        ensures
            t@ == plain_view("Failure"@),
    {
        TypeInfo::plain(String::from_str("Failure"))
    }
}

impl TypeInfo {
    /// Whether two types are the same: same printed form and properties.
    pub fn is_same(&self, other: &TypeInfo) -> (b: bool)
        ensures
            b == (self@ == other@),
    {
        crate::strutil::str_eq(self.name.as_str(), other.name.as_str())
            && self.is_procedure == other.is_procedure && self.is_mut_type == other.is_mut_type
            && self.is_ref == other.is_ref && self.is_callable == other.is_callable
    }
}

} // verus!
