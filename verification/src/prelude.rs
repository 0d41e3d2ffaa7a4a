//! The resolver: an angle unit, and a memo of the functions that were
//! resolved so far.

use vstd::prelude::*;
use vstd::hash_map::StringHashMap;
use crate::catalog::{
    binary_named, lemma_binary_named, lemma_unary_named, resolve_binary, resolve_unary,
    spec_resolve_binary, spec_resolve_unary, unary_named,
};
use crate::entry::{BinaryCall, BinaryFuncInfo, UnaryCall, UnaryFuncInfo};
use crate::funcs::{BinaryFunc, UnaryFunc};
use crate::unit::Unit;

verus! {

/// What a [`Prelude`] holds, as mathematical values.
#[verifier::ext_equal]
pub struct PreludeState {
    /// The unit of angles, fixed when the prelude is made.
    pub angle_unit: Unit,
    /// The unary functions resolved so far, by name.
    pub unary: Map<Seq<char>, UnaryFuncInfo>,
    /// The binary functions resolved so far, by name.
    pub binary: Map<Seq<char>, BinaryFuncInfo>,
}

impl PreludeState {
    /// The state of a new prelude: nothing is resolved yet.
    pub open spec fn fresh(angle_unit: Unit) -> PreludeState {
        PreludeState { angle_unit, unary: Map::empty(), binary: Map::empty() }
    }

    /// Every remembered entry is the catalog's entry for its name.
    pub open spec fn wf(self) -> bool {
        &&& forall|name: Seq<char>| #[trigger]
            self.unary.contains_key(name) ==> spec_resolve_unary(name) == Some(self.unary[name])
        &&& forall|name: Seq<char>| #[trigger]
            self.binary.contains_key(name) ==> spec_resolve_binary(name) == Some(
                self.binary[name],
            )
    }

    /// What a call of the unary function `name` is to compute, if there is
    /// such a function.
    pub open spec fn unary_call(self, name: Seq<char>) -> Option<UnaryCall> {
        match spec_resolve_unary(name) {
            Some(info) => Some(info.spec_call(self.angle_unit)),
            None => None,
        }
    }

    /// The state after a call of the unary function `name`: the function is
    /// remembered, if there is such a function.
    pub open spec fn after_unary_call(self, name: Seq<char>) -> PreludeState {
        match spec_resolve_unary(name) {
            Some(info) => PreludeState { unary: self.unary.insert(name, info), ..self },
            None => self,
        }
    }

    /// What a call of the binary function `name` is to compute, if there is
    /// such a function.
    pub open spec fn binary_call(self, name: Seq<char>) -> Option<BinaryCall> {
        match spec_resolve_binary(name) {
            Some(info) => Some(info.spec_call(self.angle_unit)),
            None => None,
        }
    }

    /// The state after a call of the binary function `name`: the function is
    /// remembered, if there is such a function.
    pub open spec fn after_binary_call(self, name: Seq<char>) -> PreludeState {
        match spec_resolve_binary(name) {
            Some(info) => PreludeState { binary: self.binary.insert(name, info), ..self },
            None => self,
        }
    }
}

/// Resolves the names of built-in functions for one evaluation session.
///
/// The angle unit is chosen when the prelude is made and never changes. Each
/// function is searched in the catalog once, when it is first called, and
/// remembered from then on.
pub struct Prelude {
    angle_unit: Unit,
    unary: StringHashMap<UnaryFuncInfo>,
    binary: StringHashMap<BinaryFuncInfo>,
}

impl View for Prelude {
    type V = PreludeState;

    closed spec fn view(&self) -> PreludeState {
        PreludeState { angle_unit: self.angle_unit, unary: self.unary@, binary: self.binary@ }
    }
}

impl Prelude {
    /// What is remembered is what the catalog holds.
    #[verifier::type_invariant]
    spec fn remembers_the_catalog(self) -> bool {
        self@.wf()
    }

    /// A prelude for angles in `angle_unit`, with nothing resolved yet.
    pub fn new(angle_unit: Unit) -> (prelude: Self)
        ensures
            prelude@ == PreludeState::fresh(angle_unit),
            prelude@.wf(),
    {
        Prelude { angle_unit, unary: StringHashMap::new(), binary: StringHashMap::new() }
    }

    /// Remembers `func_info` as the unary function `name`.
    fn remember_unary(&mut self, name: &str, func_info: UnaryFuncInfo)
        requires
            spec_resolve_unary(name@) == Some(func_info),
        ensures
            final(self)@ == (PreludeState {
                unary: old(self)@.unary.insert(name@, func_info),
                ..old(self)@
            }),
    {
        proof {
            use_type_invariant(&*self);
        }
        // The memo is taken out while it grows, so that what is left behind
        // is well-formed at every moment.
        let mut unary = StringHashMap::new();
        core::mem::swap(&mut self.unary, &mut unary);
        unary.insert(name.to_string(), func_info);
        self.unary = unary;
    }

    /// Remembers `func_info` as the binary function `name`.
    fn remember_binary(&mut self, name: &str, func_info: BinaryFuncInfo)
        requires
            spec_resolve_binary(name@) == Some(func_info),
        ensures
            final(self)@ == (PreludeState {
                binary: old(self)@.binary.insert(name@, func_info),
                ..old(self)@
            }),
    {
        proof {
            use_type_invariant(&*self);
        }
        // The memo is taken out while it grows, so that what is left behind
        // is well-formed at every moment.
        let mut binary = StringHashMap::new();
        core::mem::swap(&mut self.binary, &mut binary);
        binary.insert(name.to_string(), func_info);
        self.binary = binary;
    }

    /// Resolves the unary function `name` and says what a call of it is to
    /// compute; `None` where there is no such function.
    ///
    /// A function that was called before is taken from the memo; another is
    /// searched in the catalog and remembered.
    pub fn call_unary_func(&mut self, name: &str) -> (call: Option<UnaryCall>)
        ensures
            call == old(self)@.unary_call(name@),
            final(self)@ == old(self)@.after_unary_call(name@),
            old(self)@.wf(),
            final(self)@.wf(),
    {
        proof {
            use_type_invariant(&*self);
        }
        if let Some(func_info) = self.unary.get(name) {
            Some(func_info.call(&self.angle_unit))
        } else {
            if let Some(func_info) = resolve_unary(name) {
                let value = func_info.call(&self.angle_unit);
                self.remember_unary(name, func_info);
                return Some(value);
            }
            None
        }
    }

    /// Resolves the binary function `name` and says what a call of it is to
    /// compute; `None` where there is no such function.
    ///
    /// A function that was called before is taken from the memo; another is
    /// searched in the catalog and remembered.
    pub fn call_binary_func(&mut self, name: &str) -> (call: Option<BinaryCall>)
        ensures
            call == old(self)@.binary_call(name@),
            final(self)@ == old(self)@.after_binary_call(name@),
            old(self)@.wf(),
            final(self)@.wf(),
    {
        proof {
            use_type_invariant(&*self);
        }
        if let Some(func_info) = self.binary.get(name) {
            Some(func_info.call(&self.angle_unit))
        } else {
            if let Some(func_info) = resolve_binary(name) {
                let value = func_info.call(&self.angle_unit);
                self.remember_binary(name, func_info);
                return Some(value);
            }
            None
        }
    }
}

/// Every function of the catalog resolves under its name, to itself and to
/// the conversions of its group, whatever has been remembered.
pub proof fn lemma_catalog_names_resolve(state: PreludeState, unary: UnaryFunc, binary: BinaryFunc)
    ensures
        state.unary_call(unary.name()) == Some(
            UnaryFuncInfo { func: unary, func_type: unary.func_type() }.spec_call(state.angle_unit),
        ),
        state.binary_call(binary.name()) == Some(
            BinaryFuncInfo { func: binary, func_type: binary.func_type() }.spec_call(
                state.angle_unit,
            ),
        ),
{
    lemma_unary_named(unary, unary.name());
    lemma_binary_named(binary, binary.name());
}

/// A name that no function of the catalog carries resolves to nothing, and
/// the call leaves the state as it was.
pub proof fn lemma_unknown_names_are_absent(state: PreludeState, name: Seq<char>)
    ensures
        (forall|f: UnaryFunc| f.name() != name) ==> state.unary_call(name) is None
            && state.after_unary_call(name) == state,
        (forall|f: BinaryFunc| f.name() != name) ==> state.binary_call(name) is None
            && state.after_binary_call(name) == state,
{
    if let Some(f) = unary_named(name) {
        lemma_unary_named(f, name);
    }
    if let Some(f) = binary_named(name) {
        lemma_binary_named(f, name);
    }
}

/// The memo is transparent: two preludes with the same angle unit give the
/// same answer for a name, whatever each has remembered.
pub proof fn lemma_memo_is_transparent(one: PreludeState, other: PreludeState, name: Seq<char>)
    requires
        one.angle_unit == other.angle_unit,
    ensures
        one.unary_call(name) == other.unary_call(name),
        one.binary_call(name) == other.binary_call(name),
{
}

/// A second call of a name gives what the first call gave, and changes
/// nothing any more.
pub proof fn lemma_second_call_agrees(state: PreludeState, name: Seq<char>)
    ensures
        state.after_unary_call(name).unary_call(name) == state.unary_call(name),
        state.after_unary_call(name).after_unary_call(name) == state.after_unary_call(name),
        state.after_binary_call(name).binary_call(name) == state.binary_call(name),
        state.after_binary_call(name).after_binary_call(name) == state.after_binary_call(name),
{
    assert(state.after_unary_call(name).after_unary_call(name) =~= state.after_unary_call(name));
    assert(state.after_binary_call(name).after_binary_call(name) =~= state.after_binary_call(
        name,
    ));
}

/// A call of a remembered name is answered by the remembered entry and
/// leaves the state as it was.
pub proof fn lemma_remembered_names(state: PreludeState, name: Seq<char>)
    requires
        state.wf(),
    ensures
        state.unary.contains_key(name) ==> state.unary_call(name) == Some(
            state.unary[name].spec_call(state.angle_unit),
        ) && state.after_unary_call(name) == state,
        state.binary.contains_key(name) ==> state.binary_call(name) == Some(
            state.binary[name].spec_call(state.angle_unit),
        ) && state.after_binary_call(name) == state,
{
    if state.unary.contains_key(name) {
        assert(state.after_unary_call(name) =~= state);
    }
    if state.binary.contains_key(name) {
        assert(state.after_binary_call(name) =~= state);
    }
}

/// A call never changes the angle unit, never touches the memo of the other
/// arity, and never forgets or alters an entry: the memo only grows, by the
/// name that was called, and stays well-formed.
pub proof fn lemma_calls_only_add(state: PreludeState, name: Seq<char>)
    requires
        state.wf(),
    ensures
        state.after_unary_call(name).wf(),
        state.after_unary_call(name).angle_unit == state.angle_unit,
        state.after_unary_call(name).binary == state.binary,
        state.unary.submap_of(state.after_unary_call(name).unary),
        state.after_unary_call(name).unary.dom() == if state.unary_call(name) is Some {
            state.unary.dom().insert(name)
        } else {
            state.unary.dom()
        },
        state.after_binary_call(name).wf(),
        state.after_binary_call(name).angle_unit == state.angle_unit,
        state.after_binary_call(name).unary == state.unary,
        state.binary.submap_of(state.after_binary_call(name).binary),
        state.after_binary_call(name).binary.dom() == if state.binary_call(name) is Some {
            state.binary.dom().insert(name)
        } else {
            state.binary.dom()
        },
{
}

} // verus!
