//! Control rods and the rod bank: categories, worths, positions, single
//! and group movement, and the total inserted worth that feeds the
//! reactivity model.

use vstd::prelude::*;

verus! {

use crate::fx::{SCALE, fmul, clip, mul_fx, clamp_fx, lemma_fmul_fits};
use crate::params::{WORTH_MAX, UNITS_MAX, GRID_SIZE};

/// Category of a control rod.
#[derive(Clone, Copy, Debug, PartialEq, Eq, Structural)]
pub enum RodType {
    /// Manually driven control rod.
    Manual,
    /// Rod driven by the automatic power regulator.
    Automatic,
    /// Shortened absorber rod.
    Shortened,
    /// Emergency-protection rod, normally fully withdrawn.
    Emergency,
}

/// Original layout channel-type label of a rod; finer-grained than the
/// category (two labels share the Automatic category).
#[derive(Clone, Copy, Debug, PartialEq, Eq, Structural)]
pub enum RodLabel {
    /// Manual control rod channel.
    Rr,
    /// Automatic regulator channel.
    Ar,
    /// Local automatic regulator channel.
    Lar,
    /// Shortened absorber channel.
    Usp,
    /// Emergency protection channel.
    Az,
}

/// State of a control rod. `position` runs from 0 (fully inserted) to
/// [`SCALE`] (fully withdrawn); `worth` is the reactivity the rod removes
/// when fully inserted.
#[derive(Clone, Copy, Debug)]
pub struct ControlRod {
    /// Stable index of the rod.
    pub id: usize,
    /// Grid column.
    pub grid_x: i32,
    /// Grid row.
    pub grid_y: i32,
    /// Physical x position from core center, fixed-point cm.
    pub x: i64,
    /// Physical y position from core center, fixed-point cm.
    pub y: i64,
    /// Insertion position: 0 = fully inserted, `SCALE` = fully withdrawn.
    pub position: i64,
    /// Category of the rod.
    pub rod_type: RodType,
    /// Reactivity worth when fully inserted.
    pub worth: i64,
    /// Original layout channel-type label.
    pub channel_type: RodLabel,
}

/// A rod in a well-formed state.
pub open spec fn wf_rod(r: ControlRod) -> bool {
    &&& 0 <= r.position <= SCALE
    &&& 0 <= r.worth <= WORTH_MAX
    &&& 0 <= r.grid_x < GRID_SIZE
    &&& 0 <= r.grid_y < GRID_SIZE
}

/// A well-formed rod bank: every rod well-formed, and few enough rods
/// that worth sums stay within machine range.
pub open spec fn wf_rods(s: Seq<ControlRod>) -> bool {
    &&& s.len() <= UNITS_MAX
    &&& forall|i: int| 0 <= i < s.len() ==> wf_rod(#[trigger] s[i])
}

/// The same rod with a new position.
pub open spec fn rod_with_position(r: ControlRod, position: int) -> ControlRod {
    ControlRod {
        id: r.id,
        grid_x: r.grid_x,
        grid_y: r.grid_y,
        x: r.x,
        y: r.y,
        position: position as i64,
        rod_type: r.rod_type,
        worth: r.worth,
        channel_type: r.channel_type,
    }
}

/// Reactivity worth inserted by a rod at `position`:
/// `worth * (1 - position)`.
pub open spec fn spec_rod_worth(position: int, max_worth: int) -> int {
    fmul(max_worth, SCALE - position)
}

/// Reactivity worth inserted by a rod at `rod_position` out of
/// `max_worth` (see [`spec_rod_worth`]): full worth when fully inserted,
/// zero when fully withdrawn.
pub fn calc_rod_worth(rod_position: i64, max_worth: i64) -> (r: i64)
    requires
        0 <= rod_position <= SCALE,
        0 <= max_worth <= SCALE,
    ensures
        r as int == spec_rod_worth(rod_position as int, max_worth as int),
        0 <= r <= max_worth,
{
    proof {
        lemma_fmul_fits(max_worth as int, SCALE - rod_position, SCALE as int, SCALE as int);
        assert(0 <= max_worth as int * (SCALE - rod_position)
            <= max_worth as int * (SCALE as int)) by (nonlinear_arith)
            requires
                0 <= max_worth,
                0 <= SCALE - rod_position <= SCALE,
        ;
        crate::fx::lemma_tdiv_abs(max_worth as int * (SCALE - rod_position), SCALE as int);
        crate::fx::lemma_div_le(max_worth as int * (SCALE - rod_position),
            max_worth as int * (SCALE as int), SCALE as int);
        vstd::arithmetic::div_mod::lemma_div_by_multiple(max_worth as int, SCALE as int);
    }
    mul_fx(max_worth, SCALE - rod_position)
}

/// Total inserted worth of a rod bank: the sum over all rods of
/// `worth * (1 - position)`.
pub open spec fn spec_total_worth(s: Seq<ControlRod>) -> int
    decreases s.len(),
{
    if s.len() == 0 {
        0
    } else {
        spec_total_worth(s.drop_last()) + spec_rod_worth(s.last().position as int,
            s.last().worth as int)
    }
}

/// Total inserted worth of the rod bank (see [`spec_total_worth`]).
pub fn calculate_total_rod_worth(rods: &Vec<ControlRod>) -> (r: i64)
    requires
        wf_rods(rods@),
    ensures
        r as int == spec_total_worth(rods@),
        0 <= r <= 20_000_000_000,
{
    let mut acc: i64 = 0;
    let mut i: usize = 0;
    proof {
        assert(rods@.take(0) =~= Seq::<ControlRod>::empty());
    }
    while i < rods.len()
        invariant
            0 <= i <= rods.len(),
            wf_rods(rods@),
            acc as int == spec_total_worth(rods@.take(i as int)),
            0 <= acc <= i * WORTH_MAX,
        decreases rods.len() - i,
    {
        let rod = &rods[i];
        let w: i64 = calc_rod_worth(rod.position, rod.worth);
        proof {
            assert(rods@.take(i + 1).drop_last() =~= rods@.take(i as int));
            assert(rods@.take(i + 1).last() == rods@[i as int]);
            assert((i + 1) * WORTH_MAX == i * WORTH_MAX + WORTH_MAX) by (nonlinear_arith);
            assert(i * WORTH_MAX <= UNITS_MAX * WORTH_MAX) by (nonlinear_arith)
                requires
                    0 <= i <= UNITS_MAX,
            ;
        }
        acc = acc + w;
        i = i + 1;
    }
    proof {
        assert(rods@.take(rods@.len() as int) =~= rods@);
        assert(i * WORTH_MAX <= UNITS_MAX * WORTH_MAX) by (nonlinear_arith)
            requires
                0 <= i <= UNITS_MAX,
        ;
    }
    acc
}

/// Move one rod (addressed by index) to a clamped position; an unknown
/// index is a no-op.
pub fn move_rod_in_bank(rods: &mut Vec<ControlRod>, rod_id: usize, new_position: i64)
    requires
        wf_rods(old(rods)@),
    ensures
        wf_rods(final(rods)@),
        final(rods)@.len() == old(rods)@.len(),
        rod_id < final(rods)@.len() ==> final(rods)@ == old(rods)@.update(rod_id as int,
            rod_with_position(old(rods)@[rod_id as int], clip(new_position as int, 0,
            SCALE as int))),
        rod_id >= final(rods)@.len() ==> final(rods)@ == old(rods)@,
{
    if rod_id < rods.len() {
        let p: i64 = clamp_fx(new_position, 0, SCALE);
        let old_rod = &rods[rod_id];
        let updated = ControlRod {
            id: old_rod.id,
            grid_x: old_rod.grid_x,
            grid_y: old_rod.grid_y,
            x: old_rod.x,
            y: old_rod.y,
            position: p,
            rod_type: old_rod.rod_type,
            worth: old_rod.worth,
            channel_type: old_rod.channel_type,
        };
        rods.set(rod_id, updated);
        proof {
            assert(forall|i: int| 0 <= i < rods@.len() ==> wf_rod(#[trigger] rods@[i]));
        }
    }
}

/// Every rod of the given category moved to the clamped position, the
/// others untouched.
pub open spec fn spec_group_moved(s: Seq<ControlRod>, rod_type: RodType, p: int) -> Seq<
    ControlRod> {
    Seq::new(s.len(), |i: int| if s[i].rod_type == rod_type {
        rod_with_position(s[i], p)
    } else {
        s[i]
    })
}

/// Move all rods of a category to a clamped position.
pub fn move_rod_group_in_bank(rods: &mut Vec<ControlRod>, rod_type: RodType, new_position: i64)
    requires
        wf_rods(old(rods)@),
    ensures
        wf_rods(final(rods)@),
        final(rods)@ == spec_group_moved(old(rods)@, rod_type, clip(new_position as int, 0,
            SCALE as int)),
{
    let p: i64 = clamp_fx(new_position, 0, SCALE);
    let ghost orig = rods@;
    let mut i: usize = 0;
    while i < rods.len()
        invariant
            0 <= i <= rods@.len(),
            rods@.len() == orig.len(),
            wf_rods(orig),
            0 <= p <= SCALE,
            p as int == clip(new_position as int, 0, SCALE as int),
            forall|j: int| 0 <= j < i ==> rods@[j] == spec_group_moved(orig, rod_type,
                p as int)[j],
            forall|j: int| i <= j < rods@.len() ==> rods@[j] == orig[j],
        decreases rods@.len() - i,
    {
        if rods[i].rod_type == rod_type {
            let old_rod = &rods[i];
            let updated = ControlRod {
                id: old_rod.id,
                grid_x: old_rod.grid_x,
                grid_y: old_rod.grid_y,
                x: old_rod.x,
                y: old_rod.y,
                position: p,
                rod_type: old_rod.rod_type,
                worth: old_rod.worth,
                channel_type: old_rod.channel_type,
            };
            rods.set(i, updated);
        }
        i = i + 1;
    }
    proof {
        assert(rods@ =~= spec_group_moved(orig, rod_type, p as int));
        assert(forall|j: int| 0 <= j < rods@.len() ==> wf_rod(#[trigger] rods@[j]));
    }
}

/// Every rod of the given layout label moved to the clamped position.
pub open spec fn spec_label_moved(s: Seq<ControlRod>, label: RodLabel, p: int) -> Seq<
    ControlRod> {
    Seq::new(s.len(), |i: int| if s[i].channel_type == label {
        rod_with_position(s[i], p)
    } else {
        s[i]
    })
}

/// Move all rods of an original layout channel-type label to a clamped
/// position; finer-grained than category movement.
pub fn move_rod_label_in_bank(rods: &mut Vec<ControlRod>, label: RodLabel, new_position: i64)
    requires
        wf_rods(old(rods)@),
    ensures
        wf_rods(final(rods)@),
        final(rods)@ == spec_label_moved(old(rods)@, label, clip(new_position as int, 0,
            SCALE as int)),
{
    let p: i64 = clamp_fx(new_position, 0, SCALE);
    let ghost orig = rods@;
    let mut i: usize = 0;
    while i < rods.len()
        invariant
            0 <= i <= rods@.len(),
            rods@.len() == orig.len(),
            wf_rods(orig),
            0 <= p <= SCALE,
            p as int == clip(new_position as int, 0, SCALE as int),
            forall|j: int| 0 <= j < i ==> rods@[j] == spec_label_moved(orig, label, p as int)[j],
            forall|j: int| i <= j < rods@.len() ==> rods@[j] == orig[j],
        decreases rods@.len() - i,
    {
        if rods[i].channel_type == label {
            let old_rod = &rods[i];
            let updated = ControlRod {
                id: old_rod.id,
                grid_x: old_rod.grid_x,
                grid_y: old_rod.grid_y,
                x: old_rod.x,
                y: old_rod.y,
                position: p,
                rod_type: old_rod.rod_type,
                worth: old_rod.worth,
                channel_type: old_rod.channel_type,
            };
            rods.set(i, updated);
        }
        i = i + 1;
    }
    proof {
        assert(rods@ =~= spec_label_moved(orig, label, p as int));
        assert(forall|j: int| 0 <= j < rods@.len() ==> wf_rod(#[trigger] rods@[j]));
    }
}

/// Index of the first rod at the given grid position, searching from
/// `i`; the length when there is none.
pub open spec fn spec_first_rod_at(s: Seq<ControlRod>, gx: int, gy: int, i: int) -> int
    decreases s.len() - i when 0 <= i <= s.len()
{
    if i >= s.len() {
        s.len() as int
    } else if s[i].grid_x == gx && s[i].grid_y == gy {
        i
    } else {
        spec_first_rod_at(s, gx, gy, i + 1)
    }
}

/// Move the rod at a grid position to a clamped position. Returns whether
/// a rod was found there; only the first rod found is moved.
pub fn move_rod_at_grid(rods: &mut Vec<ControlRod>, grid_x: i32, grid_y: i32,
    new_position: i64) -> (found: bool)
    requires
        wf_rods(old(rods)@),
    ensures
        wf_rods(final(rods)@),
        final(rods)@.len() == old(rods)@.len(),
        ({ let idx = spec_first_rod_at(old(rods)@, grid_x as int, grid_y as int, 0);
           &&& found <==> idx < old(rods)@.len()
           &&& found ==> final(rods)@ == old(rods)@.update(idx, rod_with_position(old(rods)@[idx],
               clip(new_position as int, 0, SCALE as int)))
           &&& !found ==> final(rods)@ == old(rods)@
        }),
{
    let ghost orig = rods@;
    let n: usize = rods.len();
    let mut i: usize = 0;
    let mut found_idx: usize = n;
    while i < n
        invariant
            0 <= i <= n,
            n == rods@.len(),
            rods@ == orig,
            found_idx == n || found_idx < i,
            found_idx == n ==> spec_first_rod_at(orig, grid_x as int, grid_y as int, 0)
                == spec_first_rod_at(orig, grid_x as int, grid_y as int, i as int),
            found_idx < n ==> found_idx as int == spec_first_rod_at(orig, grid_x as int,
                grid_y as int, 0),
        decreases n - i,
    {
        if found_idx == n && rods[i].grid_x == grid_x && rods[i].grid_y == grid_y {
            proof {
                assert(spec_first_rod_at(orig, grid_x as int, grid_y as int, i as int)
                    == i as int);
            }
            found_idx = i;
        } else if found_idx == n {
            proof {
                assert(spec_first_rod_at(orig, grid_x as int, grid_y as int, i as int)
                    == spec_first_rod_at(orig, grid_x as int, grid_y as int, i + 1));
            }
        }
        i = i + 1;
    }
    proof {
        if found_idx == n {
            assert(spec_first_rod_at(orig, grid_x as int, grid_y as int, n as int)
                == orig.len() as int);
        }
    }
    if found_idx < n {
        let p: i64 = clamp_fx(new_position, 0, SCALE);
        let old_rod = &rods[found_idx];
        let updated = ControlRod {
            id: old_rod.id,
            grid_x: old_rod.grid_x,
            grid_y: old_rod.grid_y,
            x: old_rod.x,
            y: old_rod.y,
            position: p,
            rod_type: old_rod.rod_type,
            worth: old_rod.worth,
            channel_type: old_rod.channel_type,
        };
        rods.set(found_idx, updated);
        proof {
            assert(forall|j: int| 0 <= j < rods@.len() ==> wf_rod(#[trigger] rods@[j]));
        }
        true
    } else {
        false
    }
}

/// Every rod forced to position 0 (fully inserted), as the emergency
/// shutdown does.
pub open spec fn spec_all_inserted(s: Seq<ControlRod>) -> Seq<ControlRod> {
    Seq::new(s.len(), |i: int| rod_with_position(s[i], 0))
}

/// Force every rod fully in (the emergency shutdown insertion).
pub fn insert_all_rods(rods: &mut Vec<ControlRod>)
    requires
        wf_rods(old(rods)@),
    ensures
        wf_rods(final(rods)@),
        final(rods)@ == spec_all_inserted(old(rods)@),
        forall|i: int| 0 <= i < final(rods)@.len() ==> #[trigger] final(rods)@[i].position == 0,
{
    let ghost orig = rods@;
    let mut i: usize = 0;
    while i < rods.len()
        invariant
            0 <= i <= rods@.len(),
            rods@.len() == orig.len(),
            wf_rods(orig),
            forall|j: int| 0 <= j < i ==> rods@[j] == spec_all_inserted(orig)[j],
            forall|j: int| i <= j < rods@.len() ==> rods@[j] == orig[j],
        decreases rods@.len() - i,
    {
        let old_rod = &rods[i];
        let updated = ControlRod {
            id: old_rod.id,
            grid_x: old_rod.grid_x,
            grid_y: old_rod.grid_y,
            x: old_rod.x,
            y: old_rod.y,
            position: 0,
            rod_type: old_rod.rod_type,
            worth: old_rod.worth,
            channel_type: old_rod.channel_type,
        };
        rods.set(i, updated);
        i = i + 1;
    }
    proof {
        assert(rods@ =~= spec_all_inserted(orig));
        assert(forall|j: int| 0 <= j < rods@.len() ==> wf_rod(#[trigger] rods@[j]));
    }
}


/// Every automatic rod shifted by `delta` (positive = withdraw), each
/// clamped to its travel range; other categories untouched.
pub open spec fn spec_shift_automatic(s: Seq<ControlRod>, delta: int) -> Seq<ControlRod> {
    Seq::new(s.len(), |i: int| if s[i].rod_type == RodType::Automatic {
        rod_with_position(s[i], clip(s[i].position + delta, 0, SCALE as int))
    } else {
        s[i]
    })
}

/// Shift every automatic rod by `delta`, clamped to its travel range
/// (the regulator's actuation).
pub fn shift_automatic_rods(rods: &mut Vec<ControlRod>, delta: i64)
    requires
        wf_rods(old(rods)@),
        -SCALE <= delta <= SCALE,
    ensures
        wf_rods(final(rods)@),
        final(rods)@ == spec_shift_automatic(old(rods)@, delta as int),
{
    let ghost orig = rods@;
    let mut i: usize = 0;
    while i < rods.len()
        invariant
            0 <= i <= rods@.len(),
            rods@.len() == orig.len(),
            wf_rods(orig),
            -SCALE <= delta <= SCALE,
            forall|j: int| 0 <= j < i ==> rods@[j] == spec_shift_automatic(orig,
                delta as int)[j],
            forall|j: int| i <= j < rods@.len() ==> rods@[j] == orig[j],
        decreases rods@.len() - i,
    {
        proof {
            assert(rods@[i as int] == orig[i as int]);
            assert(wf_rod(orig[i as int]));
        }
        if matches!(rods[i].rod_type, RodType::Automatic) {
            let old_rod = &rods[i];
            let p: i64 = clamp_fx(old_rod.position + delta, 0, SCALE);
            let updated = ControlRod {
                id: old_rod.id,
                grid_x: old_rod.grid_x,
                grid_y: old_rod.grid_y,
                x: old_rod.x,
                y: old_rod.y,
                position: p,
                rod_type: old_rod.rod_type,
                worth: old_rod.worth,
                channel_type: old_rod.channel_type,
            };
            rods.set(i, updated);
        }
        i = i + 1;
    }
    proof {
        assert(rods@ =~= spec_shift_automatic(orig, delta as int));
        assert(forall|j: int| 0 <= j < rods@.len() ==> wf_rod(#[trigger] rods@[j]));
    }
}

} // verus!
