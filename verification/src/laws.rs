//! Properties of the page that span its operations.

use vstd::prelude::*;
use crate::filters::without_groups;
use crate::state::{lemma_toggled_at, toggled};
use crate::view_model::{
    RatioGroup, ResolutionGroup, ratio_cell_disabled, ratio_group_members,
    resolution_group_members, resolution_group_order,
};
use crate::wallhaven::{AspectRatio, Resolution, is_landscape_ratio, is_portrait_ratio};

verus! {

/// A value that occurs in a sequence has a first occurrence.
proof fn lemma_first_occurrence<A>(rs: Seq<A>, x: A)
    requires
        rs.contains(x),
    ensures
        exists|i: int| 0 <= i < rs.len() && rs[i] == x && forall|j: int| 0 <= j < i ==> rs[j] != x,
    decreases rs.len(),
{
    let d = rs.drop_last();
    if d.contains(x) {
        lemma_first_occurrence(d, x);
        let i = choose|i: int| 0 <= i < d.len() && d[i] == x && forall|j: int| 0 <= j < i ==> d[j] != x;
        assert(rs[i] == x);
        assert forall|j: int| 0 <= j < i implies rs[j] != x by {
            assert(rs[j] == d[j]);
        }
    } else {
        let k = choose|k: int| 0 <= k < rs.len() && rs[k] == x;
        if k < rs.len() - 1 {
            assert(d[k] == x);
        }
        let l = rs.len() - 1;
        assert forall|j: int| 0 <= j < l implies rs[j] != x by {
            assert(rs[j] == d[j]);
        }
        assert(rs[l] == x);
    }
}

/// Toggling a value in a selection without repeats flips whether the value
/// is selected, leaves every other value as it was, and keeps the selection
/// without repeats.
pub proof fn law_toggle_flips<A>(rs: Seq<A>, x: A)
    requires
        rs.no_duplicates(),
    ensures
        toggled(rs, x).no_duplicates(),
        toggled(rs, x).contains(x) == !rs.contains(x),
        forall|y: A| y != x ==> (#[trigger] toggled(rs, x).contains(y) == rs.contains(y)),
{
    if rs.contains(x) {
        lemma_first_occurrence(rs, x);
        let i = choose|i: int| 0 <= i < rs.len() && rs[i] == x && forall|j: int| 0 <= j < i ==> rs[j] != x;
        let r = rs.remove(i);
        assert(r.len() == rs.len() - 1);
        assert forall|a: int, b: int| 0 <= a < b < r.len() implies r[a] != r[b] by {
            let a0 = if a < i { a } else { a + 1 };
            let b0 = if b < i { b } else { b + 1 };
            assert(r[a] == rs[a0] && r[b] == rs[b0]);
        }
        assert(!r.contains(x)) by {
            if r.contains(x) {
                let m = choose|m: int| 0 <= m < r.len() && r[m] == x;
                let m0 = if m < i { m } else { m + 1 };
                assert(rs[m0] == x && m0 != i);
            }
        }
        assert forall|y: A| y != x implies (#[trigger] r.contains(y) == rs.contains(y)) by {
            if rs.contains(y) {
                let m = choose|m: int| 0 <= m < rs.len() && rs[m] == y;
                assert(m != i);
                let m1 = if m < i { m } else { m - 1 };
                assert(r[m1] == y);
            }
            if r.contains(y) {
                let m = choose|m: int| 0 <= m < r.len() && r[m] == y;
                let m0 = if m < i { m } else { m + 1 };
                assert(rs[m0] == y);
            }
        }
    } else {
        let r = rs.push(x);
        assert forall|a: int, b: int| 0 <= a < b < r.len() implies r[a] != r[b] by {
            if b == rs.len() {
                assert(r[a] == rs[a]);
            } else {
                assert(r[a] == rs[a] && r[b] == rs[b]);
            }
        }
        assert(r[rs.len() as int] == x);
        assert forall|y: A| y != x implies (#[trigger] r.contains(y) == rs.contains(y)) by {
            if rs.contains(y) {
                let m = choose|m: int| 0 <= m < rs.len() && rs[m] == y;
                assert(r[m] == y);
            }
            if r.contains(y) {
                let m = choose|m: int| 0 <= m < r.len() && r[m] == y;
                if m < rs.len() {
                    assert(rs[m] == y);
                }
            }
        }
    }
}

/// Toggling a value that is not selected, then toggling it again, gives the
/// selection back as it was.
pub proof fn law_toggle_twice<A>(rs: Seq<A>, x: A)
    requires
        !rs.contains(x),
    ensures
        toggled(toggled(rs, x), x) == rs,
{
    let r = rs.push(x);
    assert forall|j: int| 0 <= j < rs.len() implies r[j] != x by {
        assert(r[j] == rs[j]);
    }
    lemma_toggled_at(r, x, rs.len() as int);
    assert(r.remove(rs.len() as int) =~= rs);
}

/// With "all landscape" on, no wide or ultrawide ratio stays selected; with
/// "all portrait" on, no portrait ratio stays selected.
pub proof fn law_group_options_exclude_their_ratios(rs: Seq<AspectRatio>, landscape: bool, portrait: bool)
    ensures
        forall|i: int|
            0 <= i < without_groups(rs, landscape, portrait).len() ==> (landscape
                ==> !is_landscape_ratio(#[trigger] without_groups(rs, landscape, portrait)[i]))
                && (portrait ==> !is_portrait_ratio(without_groups(rs, landscape, portrait)[i])),
    decreases rs.len(),
{
    if rs.len() > 0 {
        let d = rs.drop_last();
        law_group_options_exclude_their_ratios(d, landscape, portrait);
        let r = without_groups(d, landscape, portrait);
        let w = without_groups(rs, landscape, portrait);
        let x = rs.last();
        if !((landscape && is_landscape_ratio(x)) || (portrait && is_portrait_ratio(x))) {
            assert(w == r.push(x));
            assert forall|i: int| 0 <= i < w.len() implies (landscape ==> !is_landscape_ratio(
                #[trigger] w[i],
            )) && (portrait ==> !is_portrait_ratio(w[i])) by {
                if i < r.len() {
                    assert(w[i] == r[i]);
                } else {
                    assert(w[i] == x);
                }
            }
        } else {
            assert(w == r);
        }
    }
}

/// In the ratio picker the wide and ultrawide columns are disabled by "all
/// landscape", the portrait column by "all portrait", and every column by
/// "all ratios".
pub proof fn law_ratio_columns_follow_group_options(
    g: RatioGroup,
    i: int,
    all: bool,
    landscape: bool,
    portrait: bool,
)
    requires
        0 <= i < ratio_group_members(g).len(),
    ensures
        ratio_cell_disabled(all, landscape, portrait, ratio_group_members(g)[i]) == (all || (
        landscape && (g == RatioGroup::Wide || g == RatioGroup::Ultrawide)) || (portrait && g
            == RatioGroup::Portrait)),
{
}

/// The column of the resolution picker that holds a resolution.
pub open spec fn resolution_column(r: Resolution) -> ResolutionGroup {
    match r {
        Resolution::R2560x1080 | Resolution::R2560x1440U | Resolution::R3840x1600 => ResolutionGroup::Ultrawide,
        Resolution::R1280x720 | Resolution::R1600x900 | Resolution::R1920x1080 | Resolution::R2560x1440
        | Resolution::R3840x2160 => ResolutionGroup::Wide16x9,
        Resolution::R1280x800 | Resolution::R1600x1000 | Resolution::R1920x1200 | Resolution::R2560x1600
        | Resolution::R3840x2400 => ResolutionGroup::Wide16x10,
        Resolution::R1280x960 | Resolution::R1600x1200_4_3 | Resolution::R1920x1440
        | Resolution::R2560x1920 | Resolution::R3840x2880 => ResolutionGroup::Standard4x3,
        _ => ResolutionGroup::Standard5x4,
    }
}

/// Every resolution but `Any` has a cell in exactly one column of the
/// resolution picker, and in it exactly once; `Any` has none.
pub proof fn law_each_resolution_in_one_column(r: Resolution, g: ResolutionGroup)
    ensures
        resolution_group_order().contains(g),
        r != Resolution::Any ==> resolution_group_members(resolution_column(r)).contains(r),
        resolution_group_members(g).contains(r) ==> r != Resolution::Any && g == resolution_column(r),
        resolution_group_members(g).no_duplicates(),
{
    let o = resolution_group_order();
    assert(o[0] == ResolutionGroup::Ultrawide && o[1] == ResolutionGroup::Wide16x9 && o[2]
        == ResolutionGroup::Wide16x10 && o[3] == ResolutionGroup::Standard4x3 && o[4]
        == ResolutionGroup::Standard5x4);
    let m = resolution_group_members(g);
    let c = resolution_group_members(resolution_column(r));
    if r != Resolution::Any {
        assert(exists|i: int| 0 <= i < c.len() && c[i] == r) by {
            assert(c[0] == r || c[1] == r || c[2] == r || (c.len() == 5 && (c[3] == r || c[4] == r)));
        }
    }
    if m.contains(r) {
        let i = choose|i: int| 0 <= i < m.len() && m[i] == r;
        assert(0 <= i < m.len() && m[i] == r);
    }
}

} // verus!
