//! Pilot skills and the skill tiers of each hull.

use vstd::prelude::*;
use std::collections::BTreeMap;
use crate::typedb::{SkillLevel, TypeID};

verus! {

/// The trained skills of a pilot. A skill without an entry is at level 0.
#[derive(Debug, Clone)]
pub struct Skills {
    pub levels: BTreeMap<TypeID, SkillLevel>,
}

/// The level at which a map of trained levels holds a skill.
pub open spec fn level_in(levels: Map<TypeID, SkillLevel>, skill: TypeID) -> SkillLevel {
    if levels.contains_key(skill) {
        levels[skill]
    } else {
        0
    }
}

impl Skills {
    /// The pilot's level in a skill.
    pub open spec fn level_of(&self, skill: TypeID) -> SkillLevel {
        level_in(self.levels@, skill)
    }

    /// The pilot's level in a skill, 0 where it was never trained.
    pub fn get(&self, skill: TypeID) -> (level: SkillLevel)
        ensures
            level == self.level_of(skill),
    {
        broadcast use vstd::std_specs::btree::group_btree_axioms;
        match self.levels.get(&skill) {
            Some(l) => *l,
            None => 0,
        }
    }
}

/// The tiers of skill that a hull's table asks for, lowest first.
#[derive(Debug, Clone, Copy, PartialEq, Eq, Structural)]
pub enum SkillTier {
    Min,
    Elite,
    Gold,
}

/// The level that each tier asks of one skill; a tier may ask nothing.
#[derive(Debug, Clone, Copy, PartialEq, Eq, Structural)]
pub struct SkillTiers {
    pub min: Option<SkillLevel>,
    pub elite: Option<SkillLevel>,
    pub gold: Option<SkillLevel>,
}

impl SkillTiers {
    /// The level asked at a tier.
    pub open spec fn at(&self, tier: SkillTier) -> Option<SkillLevel> {
        match tier {
            SkillTier::Min => self.min,
            SkillTier::Elite => self.elite,
            SkillTier::Gold => self.gold,
        }
    }

    /// The level asked at a tier.
    pub fn get(&self, tier: SkillTier) -> (level: Option<SkillLevel>)
        ensures
            level == self.at(tier),
    {
        match tier {
            SkillTier::Min => self.min,
            SkillTier::Elite => self.elite,
            SkillTier::Gold => self.gold,
        }
    }
}

/// One line of a hull's table: a skill and what each tier asks of it.
#[derive(Debug, Clone, Copy)]
pub struct TieredRequirement {
    pub skill: TypeID,
    pub tiers: SkillTiers,
}

/// The skill table of one hull, found by the hull's name.
#[derive(Debug, Clone)]
pub struct ShipRequirements {
    pub ship: String,
    pub skills: Vec<TieredRequirement>,
}

/// The skill tables of all hulls that have one.
#[derive(Debug, Clone)]
pub struct SkillData {
    pub requirements: Vec<ShipRequirements>,
}

/// The position of the first table at or after `from` that belongs to the named hull.
pub open spec fn first_table(tables: Seq<ShipRequirements>, ship: Seq<char>, from: int) -> Option<
    int,
>
    decreases tables.len() - from,
{
    if from < 0 || from >= tables.len() {
        None
    } else if tables[from].ship@ == ship {
        Some(from)
    } else {
        first_table(tables, ship, from + 1)
    }
}

/// Every line of the table that asks something at `tier` is met by the trained levels.
pub open spec fn meets_tier(
    levels: Map<TypeID, SkillLevel>,
    table: Seq<TieredRequirement>,
    tier: SkillTier,
) -> bool {
    forall|i: int|
        0 <= i < table.len() ==> match (#[trigger] table[i]).tiers.at(tier) {
            Some(need) => level_in(levels, table[i].skill) >= need,
            None => true,
        }
}

impl SkillData {
    /// The table of the named hull, if it has one.
    pub open spec fn table_of(&self, ship: Seq<char>) -> Option<Seq<TieredRequirement>> {
        match first_table(self.requirements@, ship, 0) {
            Some(i) => Some(self.requirements@[i].skills@),
            None => None,
        }
    }

    /// Finds the table of the named hull.
    pub fn find(&self, ship: &str) -> (r: Option<&ShipRequirements>)
        ensures
            match r {
                Some(t) => self.table_of(ship@) == Some(t.skills@),
                None => self.table_of(ship@) is None,
            },
    {
        let mut i: usize = 0;
        while i < self.requirements.len()
            invariant
                i <= self.requirements@.len(),
                first_table(self.requirements@, ship@, 0) == first_table(
                    self.requirements@,
                    ship@,
                    i as int,
                ),
            decreases self.requirements@.len() - i,
        {
            if crate::text::same_text(self.requirements[i].ship.as_str(), ship) {
                return Some(&self.requirements[i]);
            }
            i += 1;
        }
        None
    }
}

/// Whether the pilot meets every line of a table at a tier.
pub fn table_met(skills: &Skills, table: &Vec<TieredRequirement>, tier: SkillTier) -> (r: bool)
    ensures
        r == meets_tier(skills.levels@, table@, tier),
{
    let mut i: usize = 0;
    while i < table.len()
        invariant
            i <= table@.len(),
            forall|k: int|
                0 <= k < i ==> match (#[trigger] table@[k]).tiers.at(tier) {
                    Some(need) => level_in(skills.levels@, table@[k].skill) >= need,
                    None => true,
                },
        decreases table@.len() - i,
    {
        match table[i].tiers.get(tier) {
            Some(need) => {
                if skills.get(table[i].skill) < need {
                    return false;
                }
            },
            None => {},
        }
        i += 1;
    }
    true
}

} // verus!
