//! The explicit track count resolver: how many explicit tracks a
//! `repeat()`-bearing template list produces for one axis, given the
//! container's available space.

use crate::geometry::AbsoluteAxis;
use crate::numeric::{ceil_div, div_ceil, floor_div, opt_int};
use crate::style::{
    NonRepeatedTrackSizingFunction, Style, TrackSizingFunction, PARENT_BOUND, RESOLVED_BOUND,
};
use vstd::arithmetic::div_mod::{lemma_div_basics, lemma_div_is_ordered_by_denominator,
    lemma_div_pos_is_pos};
use vstd::prelude::*;
use vstd::pervasive::unreached;

verus! {

/// Bound on the inner content-box size of a well-formed style: the outer
/// size less two resolved padding and border sums.
pub const INNER_BOUND: i64 = 50_000_000_000;

/// Bound on the definite space of a full template (at most `u16::MAX`
/// resolved values).
pub const SPACE_BOUND: i64 = 100_000_000_000_000_000;

/// How many entries of the template are automatic repetitions.
pub open spec fn spec_count_auto_repeats(t: Seq<TrackSizingFunction>) -> int
    decreases t.len(),
{
    if t.len() == 0 {
        0
    } else {
        spec_count_auto_repeats(t.drop_last()) + if t.last().spec_is_auto_repetition() {
            1int
        } else {
            0int
        }
    }
}

/// Whether every sizing function of the entry has a fixed component.
pub open spec fn spec_entry_all_fixed(e: TrackSizingFunction) -> bool {
    match e {
        TrackSizingFunction::Single(s) => s.spec_has_fixed_component(),
        TrackSizingFunction::AutoRepeat(_, group) => forall|j: int|
            0 <= j < group@.len() ==> (#[trigger] group@[j]).spec_has_fixed_component(),
    }
}

/// Whether every sizing function of the template, inside and outside the
/// repeated groups, has a fixed component.
pub open spec fn spec_all_fixed(t: Seq<TrackSizingFunction>) -> bool {
    forall|i: int| 0 <= i < t.len() ==> spec_entry_all_fixed(#[trigger] t[i])
}

/// A template is valid when it has no automatic repetition, or exactly one
/// while every sizing function of the template has a fixed component.
pub open spec fn spec_template_is_valid(t: Seq<TrackSizingFunction>) -> bool {
    spec_count_auto_repeats(t) == 0 || (spec_count_auto_repeats(t) == 1 && spec_all_fixed(t))
}

/// The repeated group of the first automatic repetition of the template
/// (empty when there is none).
pub open spec fn spec_first_group(t: Seq<TrackSizingFunction>) -> Seq<
    NonRepeatedTrackSizingFunction,
>
    decreases t.len(),
{
    if t.len() == 0 {
        Seq::empty()
    } else {
        match t[0] {
            TrackSizingFunction::AutoRepeat(_, group) => group@,
            TrackSizingFunction::Single(_) => spec_first_group(t.drop_first()),
        }
    }
}

/// The smaller of two optional values, when the first is present.
pub open spec fn spec_opt_min(a: Option<int>, b: Option<int>) -> Option<int> {
    match (a, b) {
        (Some(x), Some(y)) => Some(if x <= y { x } else { y }),
        (Some(x), None) => Some(x),
        (None, _) => None,
    }
}

/// `a`, or `b` when `a` is absent.
pub open spec fn spec_opt_or(a: Option<int>, b: Option<int>) -> Option<int> {
    match a {
        Some(_) => a,
        None => b,
    }
}

/// The outer box size governing repetition for the axis: the minimum of the
/// preferred and maximum sizes when both are definite, else whichever of the
/// maximum and minimum sizes is definite (maximum preferred), else
/// indefinite.
pub open spec fn spec_outer_size(style: Style, axis: AbsoluteAxis) -> Option<int> {
    let s = style.size.spec_get_abs(axis).spec_into_option();
    let mx = style.max_size.spec_get_abs(axis).spec_into_option();
    let mn = style.min_size.spec_get_abs(axis).spec_into_option();
    spec_opt_or(spec_opt_or(spec_opt_min(s, mx), mx), mn)
}

/// Whether the outer size came from the preferred or maximum size, so that
/// the repetition count rounds down; a size governed only by the minimum
/// size rounds up.
pub open spec fn spec_size_is_maximum(style: Style, axis: AbsoluteAxis) -> bool {
    style.size.spec_get_abs(axis).spec_into_option() is Some
        || style.max_size.spec_get_abs(axis).spec_into_option() is Some
}

/// The inner content-box size: the outer size less the resolved padding and
/// border sums of the axis.
pub open spec fn spec_inner_size(style: Style, axis: AbsoluteAxis) -> Option<int> {
    match spec_outer_size(style, axis) {
        Some(outer) => Some(
            outer - style.padding.spec_resolved_axis_sum(axis, Some(outer))
                - style.border.spec_resolved_axis_sum(axis, Some(outer)),
        ),
        None => None,
    }
}

/// The definite space of one track while counting repetitions.
///
/// Both the maximum-oriented and the minimum-oriented candidate deliberately
/// read the max sizing function (the minimum-oriented candidate should come
/// from the min sizing function; flooring by the true minimum would change
/// the resolved counts, so the quirk is kept and pinned by the regression
/// tests). A sizing function whose max component has no definite value
/// counts as zero here; the resolver's precondition rules that case out.
pub open spec fn spec_track_definite_value(
    def: NonRepeatedTrackSizingFunction,
    parent: int,
) -> int {
    match def.max.spec_definite_value(Some(parent)) {
        Some(v) => v,
        None => 0,
    }
}

/// The definite space of the non-repeating entries of the template.
pub open spec fn spec_sum_single_definites(t: Seq<TrackSizingFunction>, parent: int) -> int
    decreases t.len(),
{
    if t.len() == 0 {
        0
    } else {
        spec_sum_single_definites(t.drop_last(), parent) + match t.last() {
            TrackSizingFunction::Single(s) => spec_track_definite_value(s, parent),
            TrackSizingFunction::AutoRepeat(_, _) => 0,
        }
    }
}

/// The definite space of one repetition of the group.
pub open spec fn spec_sum_group_definites(
    g: Seq<NonRepeatedTrackSizingFunction>,
    parent: int,
) -> int
    decreases g.len(),
{
    if g.len() == 0 {
        0
    } else {
        spec_sum_group_definites(g.drop_last(), parent) + spec_track_definite_value(
            g.last(),
            parent,
        )
    }
}

/// The gap of the axis resolved against the inner size.
pub open spec fn spec_gap_size(style: Style, axis: AbsoluteAxis, inner: int) -> int {
    style.gap.spec_get_abs(axis).spec_resolve_or_zero(Some(inner))
}

/// The number of repetitions of the sole repeated group, for a valid
/// template with a non-empty group.
///
/// With an indefinite container the group repeats once. Otherwise the first
/// repetition is special-cased (its gap count depends on the non-repeating
/// entries); when it alone meets or exceeds the inner size the count is
/// floored at one. Otherwise the remaining space is divided by the cost of
/// one additional repetition — rounding down when the size is a maximum
/// constraint, up when it is a minimum one. A repetition whose cost is not
/// positive cannot change what fits, so the degenerate division is guarded
/// and the group then repeats once.
pub open spec fn spec_num_repetitions(style: Style, axis: AbsoluteAxis) -> int {
    let template = style.spec_grid_template_tracks(axis);
    let group = spec_first_group(template);
    match spec_inner_size(style, axis) {
        None => 1,
        Some(inner) => {
            let gap: int = spec_gap_size(style, axis, inner);
            let non_rep_space: int = spec_sum_single_definites(template, inner);
            let per_rep_space: int = spec_sum_group_definites(group, inner);
            let first_total: int = non_rep_space + per_rep_space + (template.len() as int - 1
                + group.len() as int - 1) * gap;
            if first_total > inner {
                1
            } else {
                let cost: int = per_rep_space + group.len() as int * gap;
                if cost <= 0 {
                    1
                } else if spec_size_is_maximum(style, axis) {
                    (inner - first_total) / cost + 1
                } else {
                    div_ceil(inner - first_total, cost) + 1
                }
            }
        },
    }
}

/// The number of explicit tracks the template of the axis produces.
///
/// An empty or invalid template, or one whose sole repeated group is empty,
/// produces zero tracks; a template without repetition produces one track
/// per entry; otherwise the non-repeating entries plus the repeated group
/// expanded [`spec_num_repetitions`] times.
pub open spec fn spec_explicit_track_count(style: Style, axis: AbsoluteAxis) -> int {
    let template = style.spec_grid_template_tracks(axis);
    if template.len() == 0 {
        0
    } else if !spec_template_is_valid(template) {
        0
    } else if spec_count_auto_repeats(template) == 0 {
        template.len() as int
    } else {
        let group = spec_first_group(template);
        if group.len() == 0 {
            0
        } else {
            (template.len() as int - 1) + group.len() as int * spec_num_repetitions(style, axis)
        }
    }
}

/// Whether every sizing function the repetition arithmetic will resolve has
/// a definite max component. Only a template that is about to have its
/// repetition count resolved against a definite container is constrained;
/// the resolver requires this because its definite-value helper has no
/// fallback for a content-based or flexible max component.
pub open spec fn spec_repetition_resolvable(style: Style, axis: AbsoluteAxis) -> bool {
    let template = style.spec_grid_template_tracks(axis);
    let group = spec_first_group(template);
    (template.len() > 0 && spec_count_auto_repeats(template) == 1 && spec_all_fixed(template)
        && group.len() > 0 && spec_inner_size(style, axis) is Some) ==> {
        &&& forall|i: int|
            0 <= i < template.len() ==> match #[trigger] template[i] {
                TrackSizingFunction::Single(s) => s.max.spec_is_fixed(),
                TrackSizingFunction::AutoRepeat(_, _) => true,
            }
        &&& forall|j: int| 0 <= j < group.len() ==> (#[trigger] group[j]).max.spec_is_fixed()
    }
}

/// The definite space of one track: both candidates read the max sizing
/// function (see [`spec_track_definite_value`]).
fn track_definite_value(def: &NonRepeatedTrackSizingFunction, parent: i64) -> (r: i64)
    requires
        def.wf(),
        def.max.spec_is_fixed(),
        -PARENT_BOUND <= parent <= PARENT_BOUND,
    ensures
        r as int == spec_track_definite_value(*def, parent as int),
        -RESOLVED_BOUND <= r <= RESOLVED_BOUND,
{
    let max_size: Option<i64> = def.max.definite_value(Some(parent));
    let min_size: Option<i64> = def.max.definite_value(Some(parent));
    match (max_size, min_size) {
        (Some(mx), Some(mn)) => if mx <= mn {
            mx
        } else {
            mn
        },
        (Some(mx), None) => mx,
        (None, Some(mn)) => mn,
        (None, None) => unreached(),
    }
}

/// Whether every sizing function of the entry has a fixed component.
fn entry_all_fixed(entry: &TrackSizingFunction) -> (r: bool)
    ensures
        r == spec_entry_all_fixed(*entry),
{
    match entry {
        TrackSizingFunction::Single(s) => s.has_fixed_component(),
        TrackSizingFunction::AutoRepeat(_, group) => {
            let m = group.len();
            let mut j: usize = 0;
            let mut ok: bool = true;
            while j < m
                invariant
                    j <= m,
                    m == group@.len(),
                    ok <==> (forall|k: int|
                        0 <= k < j ==> (#[trigger] group@[k]).spec_has_fixed_component()),
                decreases m - j,
            {
                if !group[j].has_fixed_component() {
                    ok = false;
                }
                j += 1;
            }
            ok
        },
    }
}

/// If no entry of the template is an automatic repetition, the count of
/// automatic repetitions is zero.
pub proof fn lemma_no_repeats_count_zero(t: Seq<TrackSizingFunction>)
    requires
        forall|i: int| 0 <= i < t.len() ==> !(#[trigger] t[i]).spec_is_auto_repetition(),
    ensures
        spec_count_auto_repeats(t) == 0,
    decreases t.len(),
{
    if t.len() > 0 {
        lemma_no_repeats_count_zero(t.drop_last());
    }
}

/// The first automatic repetition of the template determines
/// [`spec_first_group`].
pub proof fn lemma_first_group_at(t: Seq<TrackSizingFunction>, k: int)
    requires
        0 <= k < t.len(),
        forall|i: int| 0 <= i < k ==> !(#[trigger] t[i]).spec_is_auto_repetition(),
        t[k].spec_is_auto_repetition(),
    ensures
        match t[k] {
            TrackSizingFunction::AutoRepeat(_, group) => spec_first_group(t) == group@,
            TrackSizingFunction::Single(_) => false,
        },
    decreases k,
{
    if k > 0 {
        lemma_first_group_at(t.drop_first(), k - 1);
    }
}

/// The number of repetitions of the sole repeated group against a definite
/// inner size (see [`spec_num_repetitions`]).
#[verifier::loop_isolation(false)]
#[verifier::rlimit(60)]
fn resolve_repetition_count(
    style: &Style,
    axis: AbsoluteAxis,
    template: &Vec<TrackSizingFunction>,
    group: &Vec<NonRepeatedTrackSizingFunction>,
    inner: i64,
    size_is_maximum: bool,
) -> (reps: i64)
    requires
        style.wf(),
        template@ == style.spec_grid_template_tracks(axis),
        1 <= template@.len() <= u16::MAX,
        forall|i: int| 0 <= i < template@.len() ==> (#[trigger] template@[i]).wf(),
        forall|i: int|
            0 <= i < template@.len() ==> match #[trigger] template@[i] {
                TrackSizingFunction::Single(s) => s.max.spec_is_fixed(),
                TrackSizingFunction::AutoRepeat(_, _) => true,
            },
        group@ == spec_first_group(template@),
        1 <= group@.len() <= u16::MAX,
        forall|j: int| 0 <= j < group@.len() ==> (#[trigger] group@[j]).wf(),
        forall|j: int| 0 <= j < group@.len() ==> (#[trigger] group@[j]).max.spec_is_fixed(),
        spec_inner_size(*style, axis) == Some(inner as int),
        -INNER_BOUND <= inner <= INNER_BOUND,
        size_is_maximum == spec_size_is_maximum(*style, axis),
    ensures
        reps as int == spec_num_repetitions(*style, axis),
        1 <= reps,
{
    let n: usize = template.len();
    let ghost tseq = template@;
    let repetition_track_count: usize = group.len();

    // Definite space of the non-repeating entries.
    let mut non_rep_space: i64 = 0;
    let mut i: usize = 0;
    while i < n
        invariant
            i <= n,
            non_rep_space as int == spec_sum_single_definites(
                tseq.take(i as int),
                inner as int,
            ),
            -(i as int) * RESOLVED_BOUND <= non_rep_space <= (i as int) * RESOLVED_BOUND,
        decreases n - i,
    {
        match &template[i] {
            TrackSizingFunction::Single(s) => {
                let v: i64 = track_definite_value(s, inner);
                proof {
                    assert((i as int + 1) * RESOLVED_BOUND == i as int * RESOLVED_BOUND
                        + RESOLVED_BOUND) by (nonlinear_arith);
                }
                non_rep_space += v;
            },
            TrackSizingFunction::AutoRepeat(_, _) => {
                proof {
                    assert((i as int + 1) * RESOLVED_BOUND >= i as int * RESOLVED_BOUND)
                        by (nonlinear_arith);
                }
            },
        }
        proof {
            assert(tseq.take(i as int + 1).drop_last() =~= tseq.take(i as int));
        }
        i += 1;
    }
    proof {
        assert(tseq.take(n as int) =~= tseq);
        assert(n as int * RESOLVED_BOUND <= SPACE_BOUND) by (nonlinear_arith)
            requires
                n <= u16::MAX,
        ;
    }
    // The resolved gap of the axis.
    let gap_size: i64 = style.gap.get_abs(axis).resolve_or_zero(Some(inner));
    // Definite space of a single repetition of the group.
    let m: usize = repetition_track_count;
    let ghost gseq = group@;
    let mut per_rep_space: i64 = 0;
    let mut j: usize = 0;
    while j < m
        invariant
            j <= m,
            per_rep_space as int == spec_sum_group_definites(
                gseq.take(j as int),
                inner as int,
            ),
            -(j as int) * RESOLVED_BOUND <= per_rep_space <= (j as int) * RESOLVED_BOUND,
        decreases m - j,
    {
        let v: i64 = track_definite_value(&group[j], inner);
        proof {
            assert((j as int + 1) * RESOLVED_BOUND == j as int * RESOLVED_BOUND
                + RESOLVED_BOUND) by (nonlinear_arith);
        }
        per_rep_space += v;
        proof {
            assert(gseq.take(j as int + 1).drop_last() =~= gseq.take(j as int));
        }
        j += 1;
    }
    proof {
        assert(gseq.take(m as int) =~= gseq);
        assert(m as int * RESOLVED_BOUND <= SPACE_BOUND) by (nonlinear_arith)
            requires
                m <= u16::MAX,
        ;
    }
    // The first repetition together with the non-repeating entries;
    // its gap count depends on the combined track count.
    let combined_gaps: i64 = (n as i64 - 1) + (m as i64 - 1);
    proof {
        assert(0 <= combined_gaps as int * gap_size as int <= 140_000_000_000_000_000
            || -140_000_000_000_000_000 <= combined_gaps as int * gap_size as int <= 0)
            by (nonlinear_arith)
            requires
                0 <= combined_gaps <= 140_000,
                -RESOLVED_BOUND <= gap_size <= RESOLVED_BOUND,
        ;
    }
    let first_repetition_space: i64 = non_rep_space + per_rep_space + combined_gaps
        * gap_size;
    if first_repetition_space > inner {
        // The first repetition already overflows: floored at one.
        1
    } else {
        proof {
            assert(0 <= m as int * gap_size as int <= 100_000_000_000_000_000
                || -100_000_000_000_000_000 <= m as int * gap_size as int <= 0)
                by (nonlinear_arith)
                requires
                    0 < m <= u16::MAX,
                    -RESOLVED_BOUND <= gap_size <= RESOLVED_BOUND,
            ;
        }
        let per_repetition_gaps: i64 = (m as i64) * gap_size;
        let per_repetition_space: i64 = per_rep_space + per_repetition_gaps;
        if per_repetition_space <= 0 {
            // Additional repetitions of non-positive cost cannot
            // change what fits; the group repeats once.
            1
        } else {
            let remaining: i64 = inner - first_repetition_space;
            let fit: i64 = if size_is_maximum {
                // The largest count that does not overflow.
                floor_div(remaining, per_repetition_space)
            } else {
                // The smallest count that reaches the minimum.
                ceil_div(remaining, per_repetition_space)
            };
            proof {
                lemma_div_pos_is_pos(remaining as int, per_repetition_space as int);
                lemma_div_pos_is_pos(
                    remaining as int + per_repetition_space as int - 1,
                    per_repetition_space as int,
                );
                lemma_div_is_ordered_by_denominator(
                    remaining as int,
                    1,
                    per_repetition_space as int,
                );
                lemma_div_is_ordered_by_denominator(
                    remaining as int + per_repetition_space as int - 1,
                    1,
                    per_repetition_space as int,
                );
                lemma_div_basics(remaining as int);
                lemma_div_basics(remaining as int + per_repetition_space as int - 1);
            }
            fit + 1
        }
    }

}

/// Compute the number of explicit tracks the template of the axis produces,
/// given the container's available space.
///
/// Callers must pass a style whose repetition arithmetic is definite
/// ([`spec_repetition_resolvable`]) and whose resulting count fits the
/// return type.
#[verifier::loop_isolation(false)]
#[verifier::rlimit(60)]
pub fn compute_explicit_grid_size_in_axis(style: &Style, axis: AbsoluteAxis) -> (count: u16)
    requires
        style.wf(),
        spec_repetition_resolvable(*style, axis),
        spec_explicit_track_count(*style, axis) <= u16::MAX,
    ensures
        count as int == spec_explicit_track_count(*style, axis),
{
    let template: &Vec<TrackSizingFunction> = style.grid_template_tracks(axis);
    let n: usize = template.len();
    let ghost tseq = template@;

    // An empty template trivially has zero explicit tracks.
    if n == 0 {
        return 0;
    }
    // Count the automatic repetitions and check the fixed components.
    let mut auto_repetition_count: usize = 0;
    let mut all_defs_fixed: bool = true;
    let mut i: usize = 0;
    while i < n
        invariant
            i <= n,
            auto_repetition_count == spec_count_auto_repeats(tseq.take(i as int)),
            auto_repetition_count <= i,
            all_defs_fixed <==> (forall|k: int| 0 <= k < i ==> spec_entry_all_fixed(#[trigger] tseq[k])),
        decreases n - i,
    {
        if template[i].is_auto_repetition() {
            auto_repetition_count += 1;
        }
        if !entry_all_fixed(&template[i]) {
            all_defs_fixed = false;
        }
        proof {
            assert(tseq.take(i as int + 1).drop_last() =~= tseq.take(i as int));
        }
        i += 1;
    }
    proof {
        assert(tseq.take(n as int) =~= tseq);
    }
    // A template with several repetitions, or one that mixes repetition with
    // non-fixed sizing functions, is disregarded entirely.
    let template_is_valid = auto_repetition_count == 0 || (auto_repetition_count == 1
        && all_defs_fixed);
    if !template_is_valid {
        return 0;
    }
    // Without repetition each entry is one track.
    if auto_repetition_count == 0 {
        return n as u16;
    }
    // Find the sole repeated group.
    let mut gidx: usize = 0;
    let mut found: bool = false;
    let mut i: usize = 0;
    while i < n
        invariant
            i <= n,
            found ==> gidx < i && tseq[gidx as int].spec_is_auto_repetition() && (forall|k: int|
                0 <= k < gidx ==> !(#[trigger] tseq[k]).spec_is_auto_repetition()),
            !found ==> forall|k: int| 0 <= k < i ==> !(#[trigger] tseq[k]).spec_is_auto_repetition(),
        decreases n - i,
    {
        if !found && template[i].is_auto_repetition() {
            found = true;
            gidx = i;
        }
        i += 1;
    }
    proof {
        if !found {
            lemma_no_repeats_count_zero(tseq);
        }
        lemma_first_group_at(tseq, gidx as int);
    }
    let group: &Vec<NonRepeatedTrackSizingFunction> = match &template[gidx] {
        TrackSizingFunction::AutoRepeat(_, g) => g,
        TrackSizingFunction::Single(_) => unreached(),
    };
    let repetition_track_count: usize = group.len();
    // An empty repeated group makes the whole template invalid.
    if repetition_track_count == 0 {
        return 0;
    }
    // Determine the outer box size governing the repetition.
    let style_size = style.size.get_abs(axis).into_option();
    let style_min_size = style.min_size.get_abs(axis).into_option();
    let style_max_size = style.max_size.get_abs(axis).into_option();
    let outer_container_size: Option<i64> = match (style_size, style_max_size) {
        (Some(s), Some(mx)) => Some(if s <= mx { s } else { mx }),
        (Some(s), None) => Some(s),
        (None, Some(mx)) => Some(mx),
        (None, None) => style_min_size,
    };
    let size_is_maximum = style_size.is_some() || style_max_size.is_some();
    // Subtract both resolved padding and border sums to get the content box.
    let inner_container_size: Option<i64> = match outer_container_size {
        Some(outer) => {
            let padding_sum = style.padding.resolved_axis_sum(axis, Some(outer));
            let border_sum = style.border.resolved_axis_sum(axis, Some(outer));
            Some(outer - padding_sum - border_sum)
        },
        None => None,
    };
    proof {
        assert(opt_int(inner_container_size) == spec_inner_size(*style, axis));
        assert(match inner_container_size {
            Some(ic) => -INNER_BOUND <= ic <= INNER_BOUND,
            None => true,
        });
        assert(forall|k: int| 0 <= k < tseq.len() ==> (#[trigger] tseq[k]).wf());
    }
    let num_repetitions: i64 = match inner_container_size {
        None => 1,
        Some(inner) => resolve_repetition_count(
            style,
            axis,
            template,
            group,
            inner,
            size_is_maximum,
        ),
    };
    proof {
        assert(num_repetitions as int == spec_num_repetitions(*style, axis));
        // The requested count fits in `u16`, so the repetition count does too.
        assert(num_repetitions <= u16::MAX) by (nonlinear_arith)
            requires
                1 <= num_repetitions,
                1 <= repetition_track_count <= u16::MAX,
                (n as int - 1) + repetition_track_count as int * num_repetitions as int
                    <= u16::MAX,
                n >= 1,
        ;
        assert(repetition_track_count as int * num_repetitions as int <= 0x1_0000_0000)
            by (nonlinear_arith)
            requires
                1 <= num_repetitions <= u16::MAX,
                1 <= repetition_track_count <= u16::MAX,
        ;
    }
    let total: i64 = (n as i64 - 1) + (repetition_track_count as i64) * num_repetitions;
    total as u16
}

} // verus!
