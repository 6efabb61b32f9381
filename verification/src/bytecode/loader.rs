//! Registry of loaded modules, used to resolve imports.
use vstd::prelude::*;

use crate::names::NameMap;

verus! {

/// Loaded modules by name.
pub struct ModuleLoader {
    modules: NameMap<usize>,
}

impl ModuleLoader {
    /// The map from module names to module ids.
    pub closed spec fn loaded(&self) -> Map<Seq<char>, usize> {
        self.modules.view()
    }

    pub fn new() -> (l: Self)
        ensures
            l.loaded() == Map::<Seq<char>, usize>::empty(),
    {
        ModuleLoader { modules: NameMap::new() }
    }

    /// Records that module `name` was loaded with id `module_id`, replacing
    /// an earlier record of that name.
    pub fn register_loaded(&mut self, name: &str, module_id: usize)
        ensures
            final(self).loaded() == old(self).loaded().insert(name@, module_id),
    {
        self.modules.insert(name, module_id);
    }

    /// The id of loaded module `name`, if it was registered.
    pub fn find_loaded(&self, name: &str) -> (r: Option<usize>)
        ensures
            r == (if self.loaded().contains_key(name@) {
                Some(self.loaded()[name@])
            } else {
                None
            }),
    {
        match self.modules.get(name) {
            Some(id) => Some(*id),
            None => None,
        }
    }
}

/// After registering `name` with `id`, looking `name` up gives `id`, and
/// every other name gives what it gave before.
pub proof fn lemma_register_then_find(
    before: Map<Seq<char>, usize>,
    name: Seq<char>,
    id: usize,
    other: Seq<char>,
)
    requires
        other != name,
    ensures
        before.insert(name, id).contains_key(name),
        before.insert(name, id)[name] == id,
        before.insert(name, id).contains_key(other) == before.contains_key(other),
        before.contains_key(other) ==> before.insert(name, id)[other] == before[other],
{
}

/// The loader's map after registering `regs` in order from `m`.
pub open spec fn registered(m: Map<Seq<char>, usize>, regs: Seq<(Seq<char>, usize)>) -> Map<
    Seq<char>,
    usize,
>
    decreases regs.len(),
{
    if regs.len() == 0 {
        m
    } else {
        registered(m, regs.drop_last()).insert(regs.last().0, regs.last().1)
    }
}

/// The last registration of `q` among `regs`, if any.
pub open spec fn last_registration(regs: Seq<(Seq<char>, usize)>, q: Seq<char>) -> Option<usize>
    decreases regs.len(),
{
    if regs.len() == 0 {
        None
    } else if regs.last().0 == q {
        Some(regs.last().1)
    } else {
        last_registration(regs.drop_last(), q)
    }
}

/// After a fresh loader registers `regs` in order, looking up `q` gives
/// the id of the last registration of `q`, and nothing where `q` was never
/// registered.
pub proof fn lemma_registrations_then_find(regs: Seq<(Seq<char>, usize)>, q: Seq<char>)
    ensures
        registered(Map::empty(), regs).contains_key(q) == (last_registration(regs, q) is Some),
        last_registration(regs, q) matches Some(id) ==> registered(Map::empty(), regs)[q] == id,
    decreases regs.len(),
{
    if regs.len() > 0 {
        lemma_registrations_then_find(regs.drop_last(), q);
    }
}

} // verus!
