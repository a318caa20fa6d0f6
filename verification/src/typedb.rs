//! Game types: identifiers, the type database and fittings.

use vstd::prelude::*;
use std::collections::BTreeMap;
use vstd::std_specs::iter::IteratorSpec;

verus! {

/// Identifier of a type of the game: a hull, a module, a skill or an implant.
pub type TypeID = i32;

/// A trained level of a skill.
pub type SkillLevel = i8;

/// The keys of a map in the order in which the map yields them. A `BTreeMap` yields its
/// keys in ascending order.
pub open spec fn key_order(m: &BTreeMap<TypeID, i64>) -> Seq<TypeID> {
    vstd::std_specs::btree::into_iter_keys(vstd::std_specs::btree::spec_keys_iter(m))
}


/// The keys of a map, in the map's own order.
pub fn keys_of(m: &BTreeMap<TypeID, i64>) -> (v: Vec<TypeID>)
    ensures
        v@ == key_order(m),
        v@.no_duplicates(),
        v@.to_set() == m@.dom(),
{
    broadcast use vstd::std_specs::btree::group_btree_axioms;
    let mut v: Vec<TypeID> = Vec::new();
    let keys = m.keys();
    let ghost all = keys.remaining();
    for k in it: keys
        invariant
            v@ == it.seq().take(it.index()).unref(),
            it.seq() == all,
    {
        v.push(*k);
    }
    assert(v@ == all.unref());
    proof {
        assert forall|i: int, j: int| 0 <= i < v@.len() && 0 <= j < v@.len() && i != j implies v@[i]
            != v@[j] by {
            assert(all[i] != all[j]);
        }
    }
    v
}

/// One skill that a type asks of its pilot, with the level needed.
#[derive(Debug, Clone, Copy, PartialEq, Eq, Structural)]
pub struct SkillRequirement {
    pub skill: TypeID,
    pub level: SkillLevel,
}

/// What the type database holds of one type.
#[derive(Debug, Clone)]
pub struct TypeInfo {
    pub name: String,
    pub skill_requirements: Vec<SkillRequirement>,
}

/// The known types, by identifier.
#[derive(Debug, Clone)]
pub struct TypeDB {
    pub types: BTreeMap<TypeID, TypeInfo>,
}

/// A lookup in the type database that found nothing.
#[derive(Debug, Clone, Copy, PartialEq, Eq, Structural)]
pub enum FitError {
    /// The hull of the fitting is no known type.
    UnknownHull(TypeID),
    /// A fitted module is no known type.
    UnknownModule(TypeID),
}

impl TypeDB {
    /// The database has an entry for `id`.
    pub open spec fn knows(&self, id: TypeID) -> bool {
        self.types@.contains_key(id)
    }

    /// The entry of a known type.
    pub open spec fn info(&self, id: TypeID) -> TypeInfo
        recommends
            self.knows(id),
    {
        self.types@[id]
    }

    /// Looks a type up.
    pub fn get(&self, id: TypeID) -> (r: Option<&TypeInfo>)
        ensures
            match r {
                Some(t) => self.knows(id) && *t == self.info(id),
                None => !self.knows(id),
            },
    {
        broadcast use vstd::std_specs::btree::group_btree_axioms;
        self.types.get(&id)
    }
}

/// How many of `id` a map of quantities holds; none where it has no entry.
pub open spec fn count_in(quantities: Map<TypeID, i64>, id: TypeID) -> i64 {
    if quantities.contains_key(id) {
        quantities[id]
    } else {
        0
    }
}

/// A hull with what is fitted to it and what lies in its cargo hold.
#[derive(Debug, Clone)]
pub struct Fitting {
    pub hull: TypeID,
    pub modules: BTreeMap<TypeID, i64>,
    pub cargo: BTreeMap<TypeID, i64>,
}

impl Fitting {
    /// How many modules of a type are fitted.
    pub fn fitted(&self, id: TypeID) -> (n: i64)
        ensures
            n == count_in(self.modules@, id),
    {
        broadcast use vstd::std_specs::btree::group_btree_axioms;
        match self.modules.get(&id) {
            Some(n) => *n,
            None => 0,
        }
    }
}

/// The identifiers of the types that the fleet's rules name.
#[derive(Debug, Clone, Copy, PartialEq, Eq, Structural)]
pub struct KnownTypes {
    pub nestor: TypeID,
    pub oneiros: TypeID,
    pub megathron: TypeID,
    pub apocalypse_navy_issue: TypeID,
    pub kronos: TypeID,
    pub nightmare: TypeID,
    pub paladin: TypeID,
    pub vindicator: TypeID,
    pub bastion_module: TypeID,
    pub neutron_blaster_cannon_ii: TypeID,
    pub mega_pulse_laser_ii: TypeID,
    pub em_armor_compensation: TypeID,
    pub thermal_armor_compensation: TypeID,
    pub kinetic_armor_compensation: TypeID,
    pub explosive_armor_compensation: TypeID,
    pub hull_upgrades: TypeID,
    pub mechanics: TypeID,
    pub em_806: TypeID,
    pub amulet_alpha: TypeID,
    pub amulet_beta: TypeID,
    pub amulet_delta: TypeID,
    pub amulet_epsilon: TypeID,
    pub amulet_gamma: TypeID,
}

} // verus!
