//! Dispatch sizing: how many work groups cover an extent of output cells,
//! and the coverage guarantees of that count. A dispatch issues
//! `group_count(rows, tile) * group_count(words_per_row, tile)` work groups;
//! the lemmas below state that this covers every output cell, and covers it
//! exactly (no out-of-bounds invocation) when the tile size divides both
//! extents — the condition session construction enforces.

use vstd::prelude::*;

verus! {

/// Work groups of `local_size` cells needed to cover `extent` cells:
/// ceiling division.
pub open spec fn spec_group_count(extent: nat, local_size: nat) -> nat
    recommends
        local_size > 0,
{
    if extent % local_size == 0 {
        extent / local_size
    } else {
        extent / local_size + 1
    }
}

/// Ceiling division of `extent` by `local_size`, the work-group count of one
/// dispatch axis.
pub fn group_count(extent: usize, local_size: usize) -> (r: usize)
    requires
        local_size > 0,
    ensures
        r == spec_group_count(extent as nat, local_size as nat),
{
    if extent % local_size == 0 {
        extent / local_size
    } else {
        proof {
            vstd::arithmetic::div_mod::lemma_div_is_ordered_by_denominator(
                extent as int,
                2,
                local_size as int,
            );
        }
        extent / local_size + 1
    }
}

/// The dispatched groups cover every cell, and overshoot by less than one
/// tile: `extent <= groups * local_size < extent + local_size`.
pub proof fn lemma_groups_cover(extent: nat, local_size: nat)
    requires
        local_size > 0,
    ensures
        spec_group_count(extent, local_size) * local_size >= extent,
        spec_group_count(extent, local_size) * local_size < extent + local_size,
{
    vstd::arithmetic::div_mod::lemma_fundamental_div_mod(extent as int, local_size as int);
    vstd::arithmetic::div_mod::lemma_mod_bound(extent as int, local_size as int);
    let q = extent / local_size;
    assert(q * local_size == local_size * q) by (nonlinear_arith);
    assert((q + 1) * local_size == local_size * q + local_size) by (nonlinear_arith);
}

/// Exact coverage: when the tile size divides the extent, the dispatch
/// issues exactly one invocation per cell and none beyond.
pub proof fn lemma_groups_cover_exactly(extent: nat, local_size: nat)
    requires
        local_size > 0,
        extent % local_size == 0,
    ensures
        spec_group_count(extent, local_size) * local_size == extent,
{
    vstd::arithmetic::div_mod::lemma_fundamental_div_mod(extent as int, local_size as int);
    let q = extent / local_size;
    assert(q * local_size == local_size * q) by (nonlinear_arith);
}

/// Work-group counts of one compute dispatch over a plane of `rows` output
/// rows of `word_stride` output words each: groups on the row axis, groups
/// on the word axis, and a depth of one.
pub fn dispatch_group_counts(
    rows: usize,
    word_stride: usize,
    local_size_x: usize,
    local_size_y: usize,
) -> (r: (usize, usize, usize))
    requires
        local_size_x > 0,
        local_size_y > 0,
    ensures
        r.0 == spec_group_count(rows as nat, local_size_y as nat),
        r.1 == spec_group_count(word_stride as nat, local_size_x as nat),
        r.2 == 1,
{
    let x_groups = group_count(rows, local_size_y);
    let y_groups = group_count(word_stride, local_size_x);
    (x_groups, y_groups, 1)
}

} // verus!
