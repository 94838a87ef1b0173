//! Sampling density of the wire paths traced for each coil type.

use vstd::prelude::*;
use crate::types::CoilType;

verus! {

/// Node count of a Rodin star winding: at least five, raised to the next odd
/// number so that the skip-two star is one continuous wire.
pub open spec fn rodin_node_count(turns: u32) -> int {
    let m = if turns >= 5 { turns as int } else { 5 };
    if m % 2 == 0 {
        m + 1
    } else {
        m
    }
}

/// Straight segments a coil's wire path is sampled into: 180 per turn (240
/// per Rodin node), with a floor per coil type.
pub open spec fn path_segment_count(coil: CoilType, turns: u32) -> int {
    let per_turn = 180 * turns;
    match coil {
        CoilType::Solenoid | CoilType::FlatSpiral => if per_turn >= 20 {
            per_turn
        } else {
            20
        },
        CoilType::Toroid | CoilType::ToroidPoloidal => if per_turn >= 36 {
            per_turn
        } else {
            36
        },
        CoilType::Rodin => {
            let n = 240 * rodin_node_count(turns);
            if n >= 240 {
                n
            } else {
                240
            }
        },
    }
}

/// Whether the sample count of this coil fits the `u32` it is computed in.
pub open spec fn path_count_fits(coil: CoilType, turns: u32) -> bool {
    match coil {
        CoilType::Rodin => 240 * rodin_node_count(turns) <= u32::MAX,
        _ => 180 * turns <= u32::MAX,
    }
}

/// Node count of a Rodin star winding with `turns` requested.
pub fn rodin_nodes(turns: u32) -> (r: u32)
    ensures
        r == rodin_node_count(turns),
{
    let m = if turns >= 5 {
        turns
    } else {
        5
    };
    if m % 2 == 0 {
        m + 1
    } else {
        m
    }
}

/// The number of straight segments the coil's wire path is sampled into
/// (the path has one more point than that).
pub fn path_segments(coil: CoilType, turns: u32) -> (r: u32)
    requires
        path_count_fits(coil, turns),
    ensures
        r == path_segment_count(coil, turns),
{
    match coil {
        CoilType::Solenoid | CoilType::FlatSpiral => {
            let n = turns * 180;
            if n >= 20 {
                n
            } else {
                20
            }
        },
        CoilType::Toroid | CoilType::ToroidPoloidal => {
            let n = turns * 180;
            if n >= 36 {
                n
            } else {
                36
            }
        },
        CoilType::Rodin => {
            let n = rodin_nodes(turns) * 240;
            if n >= 240 {
                n
            } else {
                240
            }
        },
    }
}

/// The Rodin node count is odd, at least five, and at most one more than the
/// turns asked for (when that is five or more).
pub proof fn lemma_rodin_nodes_odd(turns: u32)
    ensures
        rodin_node_count(turns) % 2 == 1,
        rodin_node_count(turns) >= 5,
        rodin_node_count(turns) >= turns,
        turns >= 5 ==> rodin_node_count(turns) <= turns + 1,
        turns <= 5 ==> rodin_node_count(turns) == 5,
        turns >= 5 && turns % 2 == 1 ==> rodin_node_count(turns) == turns,
        turns >= 5 && turns % 2 == 0 ==> rodin_node_count(turns) == turns + 1,
{
}

/// Every coil but the Rodin star is sampled at 180 segments per turn, never
/// fewer than 20 (solenoid, flat spiral) or 36 (both toroids); so each extra
/// turn adds 180 segments.  A Rodin star gets 240 segments per node.
pub proof fn lemma_path_segments(coil: CoilType, turns: u32)
    ensures
        coil != CoilType::Rodin && turns >= 1 ==> path_segment_count(coil, turns) == 180 * turns,
        (coil == CoilType::Solenoid || coil == CoilType::FlatSpiral) && turns == 0
            ==> path_segment_count(coil, turns) == 20,
        (coil == CoilType::Toroid || coil == CoilType::ToroidPoloidal) && turns == 0
            ==> path_segment_count(coil, turns) == 36,
        coil != CoilType::Rodin && 1 <= turns < u32::MAX ==> path_segment_count(
            coil,
            (turns + 1) as u32,
        ) == path_segment_count(coil, turns) + 180,
        coil == CoilType::Rodin ==> path_segment_count(coil, turns) == 240 * rodin_node_count(
            turns,
        ),
{
}

} // verus!
