//! The kinds of towers and enemies, and how a tower picks its target.
use vstd::prelude::*;

verus! {

#[derive(Debug, Clone, Copy, PartialEq, Eq, Structural)]
pub enum TowerKind {
    Basic,
    Sniper,
    Rapid,
    Cannon,
    Tesla,
    Frost,
}

#[derive(Debug, Clone, Copy, PartialEq, Eq, Structural)]
pub enum EnemyKind {
    Runner,
    Tank,
    Swarm,
    Shielded,
    Healer,
    Sneak,
}

#[derive(Debug, Clone, Copy, PartialEq, Eq, Structural)]
pub enum TargetMode {
    Primeiro,
    Ultimo,
    MaisForte,
    MaisFraco,
    MaisRapido,
    MaisLento,
    MaisPerigoso,
    MaisCurador,
}

/// The position of a mode in the cycle in which the modes are offered.
pub open spec fn target_mode_rank(m: TargetMode) -> int {
    match m {
        TargetMode::Primeiro => 0,
        TargetMode::Ultimo => 1,
        TargetMode::MaisForte => 2,
        TargetMode::MaisFraco => 3,
        TargetMode::MaisRapido => 4,
        TargetMode::MaisLento => 5,
        TargetMode::MaisPerigoso => 6,
        TargetMode::MaisCurador => 7,
    }
}

impl TargetMode {
    /// The mode that follows this one in the cycle of eight modes.
    pub fn next(self) -> (r: TargetMode)
        ensures
            target_mode_rank(r) == (target_mode_rank(self) + 1) % 8,
    {
        match self {
            TargetMode::Primeiro => TargetMode::Ultimo,
            TargetMode::Ultimo => TargetMode::MaisForte,
            TargetMode::MaisForte => TargetMode::MaisFraco,
            TargetMode::MaisFraco => TargetMode::MaisRapido,
            TargetMode::MaisRapido => TargetMode::MaisLento,
            TargetMode::MaisLento => TargetMode::MaisPerigoso,
            TargetMode::MaisPerigoso => TargetMode::MaisCurador,
            TargetMode::MaisCurador => TargetMode::Primeiro,
        }
    }
}

/// The rank of a mode determines it.
pub proof fn lemma_target_mode_rank_injective(a: TargetMode, b: TargetMode)
    ensures
        target_mode_rank(a) == target_mode_rank(b) ==> a == b,
{
}


proof fn lemma_mode_steps(modes: Seq<TargetMode>, k: int)
    requires
        modes.len() == 9,
        0 <= k <= 8,
        forall|k: int|
            0 <= k < 8 ==> target_mode_rank(#[trigger] modes[k + 1]) == (target_mode_rank(modes[k])
                + 1) % 8,
    ensures
        target_mode_rank(modes[k]) == (target_mode_rank(modes[0]) + k) % 8,
    decreases k,
{
    if k > 0 {
        lemma_mode_steps(modes, k - 1);
        assert(target_mode_rank(modes[(k - 1) + 1]) == (target_mode_rank(modes[k - 1]) + 1) % 8);
    }
}

/// Stepping through the target modes comes back to the first after eight
/// steps and not before: `modes[k + 1]` is what `next` gives after
/// `modes[k]`.
pub proof fn lemma_target_mode_cycle(modes: Seq<TargetMode>)
    requires
        modes.len() == 9,
        forall|k: int|
            0 <= k < 8 ==> target_mode_rank(#[trigger] modes[k + 1]) == (target_mode_rank(modes[k])
                + 1) % 8,
    ensures
        modes[8] == modes[0],
        forall|k: int| 0 < k < 8 ==> #[trigger] modes[k] != modes[0],
{
    assert forall|k: int| 0 <= k <= 8 implies target_mode_rank(#[trigger] modes[k]) == (
    target_mode_rank(modes[0]) + k) % 8 by {
        lemma_mode_steps(modes, k);
    }
    lemma_target_mode_rank_injective(modes[8], modes[0]);
    assert forall|k: int| 0 < k < 8 implies #[trigger] modes[k] != modes[0] by {
        assert(target_mode_rank(modes[k]) == (target_mode_rank(modes[0]) + k) % 8);
    }
}

} // verus!
