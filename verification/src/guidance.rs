//! The two tables that tie guided types to a C program: the guidance oracle,
//! which answers what type a declaration is meant to have, and the overrides
//! that recognizers record for the result types of calls they replaced.

use vstd::prelude::*;
use std::collections::HashMap;
use crate::c_ast::CDeclId;
use crate::c_ast::CTypeId;
use crate::guided::guided_as;
use crate::guided::option_view;
use crate::guided::GuidedType;
use crate::guided::GuidedTypeView;

verus! {

/// The mathematical value of a [`ParsedGuidance`]: the answers, each for the
/// identity of its declaration.
pub struct GuidanceView {
    pub answers: Map<CDeclId, GuidedTypeView>,
}

impl GuidanceView {
    /// The guidance for `decl`: `None` where there is none, and then the
    /// literal C type applies.
    pub open spec fn answer(self, decl: CDeclId) -> Option<GuidedTypeView> {
        if self.answers.contains_key(decl) {
            Some(self.answers[decl])
        } else {
            None
        }
    }

    /// Whether `decl` is guided to the type with the canonical text `name`.
    pub open spec fn guides(self, decl: CDeclId, name: Seq<char>) -> bool {
        guided_as(self.answer(decl), name)
    }
}

/// The guidance oracle of one translation pass. Its answers are fixed when a
/// query is made: asking again for the same declaration gives the same answer.
#[derive(Debug)]
pub struct ParsedGuidance {
    pub decl_types: HashMap<usize, GuidedType>,
}

impl View for ParsedGuidance {
    type V = GuidanceView;

    open spec fn view(&self) -> GuidanceView {
        GuidanceView {
            answers: Map::new(
                |decl: CDeclId| self.decl_types@.contains_key(decl.0),
                |decl: CDeclId| self.decl_types@[decl.0]@,
            ),
        }
    }
}

impl ParsedGuidance {
    /// An oracle without guidance for any declaration.
    pub fn new() -> (r: ParsedGuidance)
        ensures
            forall|decl: CDeclId| r@.answer(decl) is None,
    {
        ParsedGuidance { decl_types: HashMap::new() }
    }

    /// Sets or removes the guidance for one declaration. The guidance for
    /// every other declaration stays as it is.
    pub fn set_decl_type(&mut self, decl: CDeclId, guided: Option<GuidedType>)
        ensures
            final(self)@.answer(decl) == option_view(guided),
            forall|other: CDeclId|
                other != decl ==> #[trigger] final(self)@.answer(other) == old(self)@.answer(other),
    {
        broadcast use vstd::std_specs::hash::group_hash_axioms;

        match guided {
            Some(g) => {
                self.decl_types.insert(decl.0, g);
            },
            None => {
                self.decl_types.remove(&decl.0);
            },
        }
    }

    /// The guidance for `decl`.
    pub fn query_decl_type(&self, decl: CDeclId) -> (r: Option<GuidedType>)
        ensures
            option_view(r) == self@.answer(decl),
    {
        broadcast use vstd::std_specs::hash::group_hash_axioms;

        match self.decl_types.get(&decl.0) {
            Some(g) => Some(g.duplicate()),
            None => None,
        }
    }

    /// Whether `decl` is guided to the type with the canonical text `name`.
    pub fn is_guided_as(&self, decl: CDeclId, name: &str) -> (r: bool)
        ensures
            r == self@.guides(decl, name@),
    {
        broadcast use vstd::std_specs::hash::group_hash_axioms;

        match self.decl_types.get(&decl.0) {
            Some(g) => g.is_named(name),
            None => false,
        }
    }
}

/// The overrides of result types: for the type of a replaced call, the guided
/// type that applies in place of the literal C type.
#[derive(Debug)]
pub struct TypeOverrides {
    pub table: HashMap<u64, GuidedType>,
}

impl View for TypeOverrides {
    type V = Map<CTypeId, GuidedTypeView>;

    open spec fn view(&self) -> Map<CTypeId, GuidedTypeView> {
        Map::new(
            |ty: CTypeId| self.table@.contains_key(ty.0),
            |ty: CTypeId| self.table@[ty.0]@,
        )
    }
}

impl TypeOverrides {
    /// A table without overrides.
    pub fn new() -> (r: TypeOverrides)
        ensures
            r@ == Map::<CTypeId, GuidedTypeView>::empty(),
    {
        let r = TypeOverrides { table: HashMap::new() };
        assert(r@ =~= Map::<CTypeId, GuidedTypeView>::empty());
        r
    }

    /// Records that `guided` applies to `ty`, in place of what was recorded
    /// for it before.
    pub fn insert(&mut self, ty: CTypeId, guided: GuidedType)
        ensures
            final(self)@ == old(self)@.insert(ty, guided@),
    {
        broadcast use vstd::std_specs::hash::group_hash_axioms;

        self.table.insert(ty.0, guided);
        assert(self@ =~= old(self)@.insert(ty, guided@));
    }

    /// The override recorded for `ty`.
    pub fn get(&self, ty: CTypeId) -> (r: Option<&GuidedType>)
        ensures
            match r {
                Some(g) => self@.dom().contains(ty) && self@[ty] == g@,
                None => !self@.dom().contains(ty),
            },
    {
        broadcast use vstd::std_specs::hash::group_hash_axioms;

        self.table.get(&ty.0)
    }

    /// Whether nothing is overridden.
    pub fn is_empty(&self) -> (r: bool)
        ensures
            r == (self@ == Map::<CTypeId, GuidedTypeView>::empty()),
    {
        broadcast use vstd::std_specs::hash::group_hash_axioms;

        let r = self.table.is_empty();
        proof {
            if r {
                assert(self@ =~= Map::<CTypeId, GuidedTypeView>::empty());
            } else {
                let k = choose|k: u64| self.table@.contains_key(k);
                assert(self@.dom().contains(CTypeId(k)));
            }
        }
        r
    }
}

} // verus!
