use vstd::prelude::*;

verus! {

/// The sizes a pig comes in.
#[derive(Clone, Copy, Debug, PartialEq, Eq, Structural)]
pub enum PigSize {
    Small,
    Big,
}

/// The radius, in pixels, of a pig of each size.
pub open spec fn pig_radius(s: PigSize) -> u32 {
    match s {
        PigSize::Small => 18,
        PigSize::Big => 28,
    }
}

/// The health a fresh pig of each size starts with.
pub open spec fn pig_max_health(s: PigSize) -> u32 {
    match s {
        PigSize::Small => 40,
        PigSize::Big => 80,
    }
}

impl PigSize {
    /// The radius, in pixels, of a pig of this size.
    pub fn radius(&self) -> (r: u32)
        ensures
            r == pig_radius(*self),
    {
        match self {
            PigSize::Small => 18,
            PigSize::Big => 28,
        }
    }

    /// The health a fresh pig of this size starts with.
    pub fn max_health(&self) -> (h: u32)
        ensures
            h == pig_max_health(*self),
    {
        match self {
            PigSize::Small => 40,
            PigSize::Big => 80,
        }
    }
}

/// A big pig is larger and tougher than a small one: radius 18 and health 40
/// for a small pig, radius 28 and health 80 for a big one.
pub proof fn lemma_pig_table()
    ensures
        pig_radius(PigSize::Small) == 18,
        pig_radius(PigSize::Big) == 28,
        pig_max_health(PigSize::Small) == 40,
        pig_max_health(PigSize::Big) == 80,
{
}

} // verus!
