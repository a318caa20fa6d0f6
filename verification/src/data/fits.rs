//! Doctrine fits and the difference between a fitting and the closest of them.

use vstd::prelude::*;
use std::collections::BTreeMap;
use crate::typedb::TypeID;

verus! {

/// A reference fit. Its name carries its tier and its role.
#[derive(Debug, Clone)]
pub struct DoctrineFit {
    pub name: String,
}

/// What a fitting lacks, has too much of, or has swapped, against a doctrine fit.
#[derive(Debug, Clone)]
pub struct FitDiff {
    pub module_missing: BTreeMap<TypeID, i64>,
    pub module_extra: BTreeMap<TypeID, i64>,
    pub cargo_missing: BTreeMap<TypeID, i64>,
    pub module_upgraded: BTreeMap<TypeID, BTreeMap<TypeID, i64>>,
    pub module_downgraded: BTreeMap<TypeID, BTreeMap<TypeID, i64>>,
}

/// Swapped modules as mathematical maps: for each expected module, what stands in its place.
pub open spec fn swaps(m: Map<TypeID, BTreeMap<TypeID, i64>>) -> Map<TypeID, Map<TypeID, i64>> {
    m.map_values(|inner: BTreeMap<TypeID, i64>| inner@)
}

/// A diff against a doctrine fit as mathematical maps.
pub struct DiffView {
    pub missing: Map<TypeID, i64>,
    pub extra: Map<TypeID, i64>,
    pub cargo_missing: Map<TypeID, i64>,
    pub upgraded: Map<TypeID, Map<TypeID, i64>>,
    pub downgraded: Map<TypeID, Map<TypeID, i64>>,
}

impl View for FitDiff {
    type V = DiffView;

    open spec fn view(&self) -> DiffView {
        DiffView {
            missing: self.module_missing@,
            extra: self.module_extra@,
            cargo_missing: self.cargo_missing@,
            upgraded: swaps(self.module_upgraded@),
            downgraded: swaps(self.module_downgraded@),
        }
    }
}

/// Calls `BTreeMap::append`: every entry of `from` moves into `into`, where it replaces
/// an entry of the same key, and `from` is left empty.
#[verifier::external_body]
fn move_entries(
    into: &mut BTreeMap<TypeID, BTreeMap<TypeID, i64>>,
    from: &mut BTreeMap<TypeID, BTreeMap<TypeID, i64>>,
)
    ensures
        final(into)@ == old(into)@.union_prefer_right(old(from)@),
        final(from)@.is_empty(),
{
    into.append(from);
}

impl FitDiff {
    /// Counts every upgrade as a downgrade: an upgrade replaces a downgrade of the same
    /// module, and no upgrade is left.
    pub fn count_upgrades_as_downgrades(&mut self)
        ensures
            final(self)@ == (DiffView {
                upgraded: Map::empty(),
                downgraded: old(self)@.downgraded.union_prefer_right(old(self)@.upgraded),
                ..old(self)@
            }),
    {
        move_entries(&mut self.module_downgraded, &mut self.module_upgraded);
        assert(swaps(self.module_upgraded@) =~= Map::<TypeID, Map<TypeID, i64>>::empty());
        assert(swaps(self.module_downgraded@) =~= swaps(
            old(self).module_downgraded@,
        ).union_prefer_right(swaps(old(self).module_upgraded@)));
    }
}

} // verus!
