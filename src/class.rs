//! Classifications: rock groups and subgroups, metal families.

use vstd::prelude::*;

verus! {

/// Rock groups by formation.
#[derive(Clone, Copy, Debug, PartialEq, Eq, Structural)]
pub enum GroupRock {
    /// Formed by compaction of sediment at the bottom of rivers, seas and
    /// oceans, and by destruction and weathering of rocks on land.
    Sedimentary,
    /// Formed from magmatic melt as it cools and solidifies.
    Igneous,
    /// Formed from other rocks under temperature, pressure and fluids.
    Metamorphic,
}

/// Subgroups of igneous rocks.
#[derive(Clone, Copy, Debug, PartialEq, Eq, Structural)]
pub enum SubgroupIgneous {
    /// Intrusive (plutonic): magma solidified deep in the earth.
    Intrusive,
    /// Extrusive (effusive, volcanic): lava solidified on the surface.
    Extrusive,
}

/// Subgroups of sedimentary rocks.
#[derive(Clone, Copy, Debug, PartialEq, Eq, Structural)]
pub enum SubgroupSedimentary {
    /// Formed by the activity of animals and plants.
    Biogenic,
    /// Formed by chemical precipitation from water or by its evaporation.
    Chemogenic,
    /// Formed by weathering, volcanism, tectonic and man-made activity.
    Clastic,
}

/// Families of metals.
#[derive(Clone, Copy, Debug, PartialEq, Eq, Structural)]
pub enum GroupMetal {
    Alkali,
    AlkalineEarth,
    Transition,
    PostTransition,
}

/// The classification of a rock: its group, with the subgroup that the
/// igneous and sedimentary groups require. Metamorphic rocks have none.
#[derive(Clone, Copy, Debug, PartialEq, Eq, Structural)]
pub enum RockClass {
    Sedimentary(SubgroupSedimentary),
    Igneous(SubgroupIgneous),
    Metamorphic,
}

impl RockClass {
    /// The group of this classification.
    pub open spec fn spec_group(self) -> GroupRock {
        match self {
            RockClass::Sedimentary(_) => GroupRock::Sedimentary,
            RockClass::Igneous(_) => GroupRock::Igneous,
            RockClass::Metamorphic => GroupRock::Metamorphic,
        }
    }

    pub fn group(&self) -> (r: GroupRock)
        ensures
            r == self.spec_group(),
    {
        match self {
            RockClass::Sedimentary(_) => GroupRock::Sedimentary,
            RockClass::Igneous(_) => GroupRock::Igneous,
            RockClass::Metamorphic => GroupRock::Metamorphic,
        }
    }
}

} // verus!
