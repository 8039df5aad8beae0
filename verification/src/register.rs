//! Registration of names in scopes: parameters, and the rule for module
//! names.
use vstd::prelude::*;

use crate::context::Context;
use crate::error::{CompileError, CompileErrors, Location};
use crate::hir::{NonDefaultParamSignature, ParamBinding, VarInfo};
use crate::strutil::str_eq;
use crate::ty::TypeInfo;

verus! {

/// Whether a character has the Unicode `White_Space` property: the control
/// characters from tab to carriage return, space, next line, no-break space,
/// ogham space mark, the spaces from en quad to hair space, the line and
/// paragraph separators, narrow no-break space, medium mathematical space
/// and ideographic space.
pub open spec fn is_white_space(c: char) -> bool {
    let n = c as u32;
    ||| 0x09 <= n <= 0x0D
    ||| n == 0x20
    ||| n == 0x85
    ||| n == 0xA0
    ||| n == 0x1680
    ||| 0x2000 <= n <= 0x200A
    ||| n == 0x2028
    ||| n == 0x2029
    ||| n == 0x202F
    ||| n == 0x205F
    ||| n == 0x3000
}

/// `char::is_whitespace` of std, which its documentation defines as the
/// Unicode `White_Space` property; the contract lists the code points that
/// carry it.
#[verifier::external_body]
pub(crate) fn char_is_whitespace(c: char) -> (b: bool)
    ensures
        b == is_white_space(c),
{
    c.is_whitespace()
}

/// The first parameter entry of `ps` named `name`, if any.
pub open spec fn first_param(ps: Seq<(Option<String>, VarInfo)>, name: Seq<char>) -> Option<VarInfo>
    decreases ps.len(),
{
    if ps.len() == 0 {
        None
    } else if ps[0].0 matches Some(n) && n@ == name {
        Some(ps[0].1)
    } else {
        first_param(ps.skip(1), name)
    }
}

/// What is registered under `name` as seen from `c`: its first parameter of
/// that name; for a constant, else what the enclosing scopes register.
pub open spec fn registered_info_of(c: Context, name: Seq<char>, is_const: bool) -> Option<VarInfo>
    decreases c,
{
    match first_param(c.params@, name) {
        Some(vi) => Some(vi),
        None => if is_const {
            match c.outer {
                Some(o) => registered_info_of(*o, name, is_const),
                None => None,
            }
        } else {
            None
        },
    }
}

/// The scope `d` levels out from `c` (`c` itself at 0), if there is one.
pub open spec fn enclosing_scope(c: Context, d: nat) -> Option<Context>
    decreases d,
{
    if d == 0 {
        Some(c)
    } else {
        match c.outer {
            Some(o) => enclosing_scope(*o, (d - 1) as nat),
            None => None,
        }
    }
}

/// Whether the parameter entry `p` is named `name`.
pub open spec fn is_named(p: (Option<String>, VarInfo), name: Seq<char>) -> bool {
    p.0 matches Some(n) && n@ == name
}

/// `first_param` finds the entry of the first parameter named `name`: it
/// gives the record of an entry so named, and no earlier entry is so named;
/// it gives nothing exactly when no entry is so named.
pub proof fn lemma_first_param_is_first(ps: Seq<(Option<String>, VarInfo)>, name: Seq<char>)
    ensures
        match first_param(ps, name) {
            Some(vi) => exists|i: int|
                0 <= i < ps.len() && is_named(#[trigger] ps[i], name) && ps[i].1
                    == vi && forall|j: int|
                    0 <= j < i ==> !is_named(#[trigger] ps[j], name),
            None => forall|i: int| 0 <= i < ps.len() ==> !is_named(#[trigger] ps[i], name),
        },
    decreases ps.len(),
{
    if ps.len() > 0 {
        let rest = ps.skip(1);
        lemma_first_param_is_first(rest, name);
        if is_named(ps[0], name) {
            assert(is_named(ps[0], name));
        } else {
            match first_param(rest, name) {
                Some(vi) => {
                    let i = choose|i: int|
                        0 <= i < rest.len() && is_named(#[trigger] rest[i], name)
                            && rest[i].1 == vi && forall|j: int|
                            0 <= j < i ==> !is_named(#[trigger] rest[j], name);
                    assert(ps[i + 1] == rest[i]);
                    assert forall|j: int| 0 <= j < i + 1 implies !is_named(#[trigger] ps[j], name) by {
                        if j > 0 {
                            assert(ps[j] == rest[j - 1]);
                        }
                    }
                },
                None => {
                    assert forall|i: int| 0 <= i < ps.len() implies !is_named(#[trigger] ps[i], name) by {
                        if i > 0 {
                            assert(ps[i] == rest[i - 1]);
                        }
                    }
                },
            }
        }
    }
}

/// A constant is looked up outward through every enclosing scope: when the
/// scope `d` levels out registers `name` and no nearer one does, that
/// scope's first parameter so named is what is registered. Anything else is
/// looked up in the scope itself only.
pub proof fn lemma_constants_found_in_any_enclosing_scope(c: Context, name: Seq<char>, d: nat)
    requires
        enclosing_scope(c, d) matches Some(a) && first_param(a.params@, name) is Some,
        forall|e: nat| #![trigger enclosing_scope(c, e)]
            e < d ==> (enclosing_scope(c, e) matches Some(x) ==> first_param(x.params@, name) is None),
    ensures
        registered_info_of(c, name, true) == first_param(enclosing_scope(c, d)->Some_0.params@, name),
        registered_info_of(c, name, false) == first_param(c.params@, name),
    decreases d,
{
    if d > 0 {
        assert(enclosing_scope(c, 0) == Some(c));
        let o = *c.outer->Some_0;
        assert forall|e: nat| #![trigger enclosing_scope(o, e)]
            e < (d - 1) as nat implies (enclosing_scope(o, e) matches Some(x) ==> first_param(
                x.params@,
                name,
            ) is None) by {
            assert(enclosing_scope(c, e + 1) == enclosing_scope(o, e));
        }
        assert(enclosing_scope(c, d) == enclosing_scope(o, (d - 1) as nat));
        lemma_constants_found_in_any_enclosing_scope(o, name, (d - 1) as nat);
    }
}

/// Nothing is registered under a constant name that no scope, from this
/// one outward, has a parameter of.
pub proof fn lemma_unregistered_constant(c: Context, name: Seq<char>)
    requires
        forall|e: nat| #![trigger enclosing_scope(c, e)]
            enclosing_scope(c, e) matches Some(x) ==> first_param(x.params@, name) is None,
    ensures
        registered_info_of(c, name, true) is None,
    decreases c,
{
    assert(enclosing_scope(c, 0) == Some(c));
    if let Some(o) = c.outer {
        assert forall|e: nat| #![trigger enclosing_scope(*o, e)]
            (enclosing_scope(*o, e) matches Some(x) ==> first_param(x.params@, name) is None) by {
            assert(enclosing_scope(c, e + 1) == enclosing_scope(*o, e));
        }
        lemma_unregistered_constant(*o, name);
    }
}

/// The record of a parameter of the scope named `ctx_name`, of type `t`: a
/// variable private to that scope.
pub open spec fn assigned_param_info(ctx_name: String, t: TypeInfo) -> VarInfo {
    VarInfo { t, is_public: false, def_namespace: ctx_name, is_parameter: true, py_name: None }
}

/// The type that instantiating a parameter's type gave, whether or not it
/// raised errors.
pub open spec fn instantiated_t(spec: Result<TypeInfo, (TypeInfo, CompileErrors)>) -> TypeInfo {
    match spec {
        Ok(t) => t,
        Err((t, _)) => t,
    }
}

/// The errors that instantiating a parameter's type raised.
pub open spec fn instantiation_errs(spec: Result<TypeInfo, (TypeInfo, CompileErrors)>) -> Seq<crate::error::ErrorView> {
    match spec {
        Ok(_) => Seq::empty(),
        Err((_, es)) => es@,
    }
}

impl Context {
    /// The first parameter of this scope named `name`.
    fn find_param(&self, name: &str) -> (r: Option<&VarInfo>)
        ensures
            match r {
                Some(vi) => first_param(self.params@, name@) == Some(*vi),
                None => first_param(self.params@, name@) is None,
            },
    {
        let mut i: usize = 0;
        assert(self.params@.skip(0) == self.params@);
        while i < self.params.len()
            invariant
                i <= self.params@.len(),
                first_param(self.params@, name@) == first_param(self.params@.skip(i as int), name@),
            decreases self.params.len() - i,
        {
            proof {
                let rest = self.params@.skip(i as int);
                assert(rest[0] == self.params@[i as int]);
                assert(rest.skip(1) == self.params@.skip(i as int + 1));
            }
            let hit = match &self.params[i].0 {
                Some(n) => str_eq(n.as_str(), name),
                None => false,
            };
            if hit {
                return Some(&self.params[i].1);
            }
            i += 1;
        }
        None
    }

    /// What is registered under `name` in this scope, looking into the
    /// enclosing scopes too for a constant (`is_const`). Only parameters
    /// are held by this model of a scope.
    pub fn registered_info(&self, name: &str, is_const: bool) -> (r: Option<&VarInfo>)
        ensures
            match r {
                Some(vi) => registered_info_of(*self, name@, is_const) == Some(*vi),
                None => registered_info_of(*self, name@, is_const) is None,
            },
        decreases *self,
    {
        match self.find_param(name) {
            Some(vi) => Some(vi),
            None => if is_const {
                match &self.outer {
                    Some(o) => o.registered_info(name, is_const),
                    None => None,
                }
            } else {
                None
            },
        }
    }

    /// Registers a non-default parameter `sig` of this scope. `spec` is what
    /// instantiating its type gave (for a variadic parameter, the type of
    /// the container that collects the arguments; for `self`, together
    /// with the errors of checking it against the class). A name already
    /// registered here is refused with a reassignment error (at an unknown
    /// location, the signature carrying none) and nothing changes, except a
    /// plain `_` (a `ref _` or `ref! _` is refused too); otherwise the
    /// parameter is recorded (a pattern other than a name under `_`), `sig`
    /// gets its record, and the errors of the instantiation, if any, are
    /// returned.
    pub fn assign_param(
        &mut self,
        sig: &mut NonDefaultParamSignature,
        spec: Result<TypeInfo, (TypeInfo, CompileErrors)>,
    ) -> (r: Result<(), CompileErrors>)
        ensures
            ({
                let refused = match old(sig).name {
                    Some(n) => registered_info_of(*old(self), n@, crate::hir::is_const_name(n@)) is Some
                        && (n@ != "_"@ || old(sig).binding != ParamBinding::Value),
                    None => false,
                };
                let vi = assigned_param_info(old(self).name, instantiated_t(spec));
                if refused {
                    &&& r is Err
                    &&& r->Err_0@ == seq![crate::lower_error::reassign_view(
                        0,
                        Location::Unknown,
                        old(self).name@,
                        old(sig).name->Some_0@,
                    )]
                    &&& *final(self) == *old(self)
                    &&& *final(sig) == *old(sig)
                } else {
                    &&& final(self).name == old(self).name
                    &&& final(self).kind == old(self).kind
                    &&& final(self).outer == old(self).outer
                    &&& final(self).params_spec == old(self).params_spec
                    &&& final(self).higher_order_caller == old(self).higher_order_caller
                    &&& final(self).params@.len() == old(self).params@.len() + 1
                    &&& final(self).params@.drop_last() == old(self).params@
                    &&& final(self).params@.last().0 matches Some(n) && n@ == match old(sig).name {
                        Some(m) => m@,
                        None => "_"@,
                    }
                    &&& final(self).params@.last().1 == vi
                    &&& final(sig).name == old(sig).name
                    &&& final(sig).binding == old(sig).binding
                    &&& final(sig).t_spec == old(sig).t_spec
                    &&& final(sig).vi == vi
                    &&& (r is Ok <==> instantiation_errs(spec).len() == 0)
                    &&& (r matches Err(es) ==> es@ == instantiation_errs(spec))
                }
            }),
    {
        let refused = match &sig.name {
            Some(n) => {
                let is_const = n.as_str().unicode_len() > 0 && crate::hir::char_is_uppercase(
                    n.as_str().get_char(0),
                );
                self.registered_info(n.as_str(), is_const).is_some() && (!str_eq(n.as_str(), "_")
                    || sig.binding != ParamBinding::Value)
            },
            None => false,
        };
        if refused {
            let n = match &sig.name {
                Some(n) => n.as_str(),
                None => "_",
            };
            let e = CompileError::reassign_error(0, Location::Unknown, self.name.clone(), n);
            return Err(CompileErrors::single(e));
        }
        let (t, errs) = match spec {
            Ok(t) => (t, CompileErrors::empty()),
            Err((t, es)) => (t, es),
        };
        let vi = VarInfo {
            t,
            is_public: false,
            def_namespace: self.name.clone(),
            is_parameter: true,
            py_name: None,
        };
        let entry_name = match &sig.name {
            Some(n) => n.clone(),
            None => String::from_str("_"),
        };
        sig.vi = vi.clone();
        self.params.push((Some(entry_name), vi));
        if errs.is_empty() {
            Ok(())
        } else {
            Err(errs)
        }
    }
}

/// A module name is not empty, does not start with `/`, and neither starts
/// nor ends with white space (trimming leaves it unchanged).
pub open spec fn is_valid_mod_name(name: Seq<char>) -> bool {
    &&& name.len() > 0
    &&& name[0] != '/'
    &&& !is_white_space(name[0])
    &&& !is_white_space(name.last())
}

/// Whether `name` can name a module.
pub fn valid_mod_name(name: &str) -> (b: bool)
    ensures
        b == is_valid_mod_name(name@),
{
    let n = name.unicode_len();
    if n == 0 {
        return false;
    }
    let first = name.get_char(0);
    let last = name.get_char(n - 1);
    first != '/' && !char_is_whitespace(first) && !char_is_whitespace(last)
}

} // verus!
