//! Laws relating the resolver and the initializer, stated over their models
//! and proved once for every input.

use crate::geometry::AbsoluteAxis;
use crate::initializer::{
    lemma_all_singles_count_prefix, lemma_count_nonneg, lemma_count_take_le,
    lemma_count_take_step, lemma_no_repeats_prefix, spec_auto_offset, spec_entry_seq,
    spec_explicit_prefix, spec_implicit_seq, spec_template_count_prefix,
    spec_template_has_repeat, spec_track_list,
};
use crate::resolver::{
    lemma_first_group_at, lemma_no_repeats_count_zero,
    spec_count_auto_repeats, spec_explicit_track_count, spec_first_group, spec_gap_size,
    spec_inner_size, spec_num_repetitions, spec_sum_group_definites,
    spec_sum_single_definites,
};
use crate::style::{
    Dimension, LengthPercentage, MaxTrackSizingFunction, NonRepeatedTrackSizingFunction, Rect,
    Style, TrackSizingFunction,
};
use crate::track::{spec_collapse, GridTrack, GridTrackKind, TrackCounts};
use vstd::arithmetic::div_mod::{lemma_div_is_ordered, lemma_div_pos_is_pos};
use vstd::prelude::*;

verus! {

/// Whether an explicit track count is one the resolver can produce for this
/// template: zero always qualifies; without repetition the count is one
/// track per entry; with repetition the template has exactly one repeated
/// group, that group is non-empty, and the count covers the non-repeating
/// entries.
pub open spec fn spec_counts_match_template(explicit: int, t: Seq<TrackSizingFunction>) -> bool {
    if explicit == 0 {
        true
    } else if spec_count_auto_repeats(t) == 0 {
        explicit == t.len()
    } else {
        &&& spec_count_auto_repeats(t) == 1
        &&& spec_first_group(t).len() > 0
        &&& explicit >= t.len() - 1
    }
}

/// The first `i` template entries emit a non-negative number of tracks and
/// twice as many sequence entries.
pub proof fn lemma_explicit_prefix_len(
    t: Seq<TrackSizingFunction>,
    i: int,
    total: int,
    gap: LengthPercentage,
    has: spec_fn(int) -> bool,
    base: int,
)
    requires
        0 <= i <= t.len(),
    ensures
        spec_template_count_prefix(t, i, total) >= 0,
        spec_explicit_prefix(t, i, total, gap, has, base).len() == 2 * spec_template_count_prefix(
            t,
            i,
            total,
        ),
    decreases i,
{
    if i > 0 {
        lemma_explicit_prefix_len(t, i - 1, total, gap, has, base);
    }
}

/// A template with at most one automatic repetition has no second one.
pub proof fn lemma_unique_repeat(t: Seq<TrackSizingFunction>, k: int)
    requires
        spec_count_auto_repeats(t) <= 1,
        0 <= k < t.len(),
        t[k].spec_is_auto_repetition(),
    ensures
        forall|j: int|
            0 <= j < t.len() && j != k ==> !(#[trigger] t[j]).spec_is_auto_repetition(),
{
    assert forall|j: int|
        0 <= j < t.len() && j != k implies !(#[trigger] t[j]).spec_is_auto_repetition() by {
        if t[j].spec_is_auto_repetition() {
            let lo = if j < k {
                j
            } else {
                k
            };
            let hi = if j < k {
                k
            } else {
                j
            };
            lemma_count_take_step(t, lo);
            lemma_count_take_step(t, hi);
            lemma_count_nonneg(t.take(lo));
            lemma_count_take_le(t, lo + 1, hi);
            lemma_count_take_le(t, hi + 1, t.len() as int);
            assert(t.take(t.len() as int) =~= t);
        }
    }
}

/// With the sole automatic repetition at `k` (non-empty group) and single
/// tracks elsewhere, the first `i` entries emit `i` tracks up to the
/// repetition and `i - 1 + total` from there on.
pub proof fn lemma_count_prefix_one_repeat(
    t: Seq<TrackSizingFunction>,
    i: int,
    total: int,
    k: int,
)
    requires
        0 <= i <= t.len(),
        0 <= k < t.len(),
        match t[k] {
            TrackSizingFunction::AutoRepeat(_, g) => g@.len() > 0,
            TrackSizingFunction::Single(_) => false,
        },
        forall|j: int|
            0 <= j < t.len() && j != k ==> !(#[trigger] t[j]).spec_is_auto_repetition(),
        total >= 0,
    ensures
        spec_template_count_prefix(t, i, total) == if i <= k {
            i
        } else {
            i - 1 + total
        },
    decreases i,
{
    if i > 0 {
        lemma_count_prefix_one_repeat(t, i - 1, total, k);
    }
}

/// The explicit section of the track list emits exactly `explicit` tracks
/// whenever the explicit count is one the template can produce.
pub proof fn lemma_count_prefix_matches(explicit: int, t: Seq<TrackSizingFunction>, total: int)
    requires
        spec_counts_match_template(explicit, t),
        explicit > 0,
        total == explicit - (t.len() - 1),
    ensures
        spec_template_count_prefix(t, t.len() as int, total) == explicit,
{
    if spec_count_auto_repeats(t) == 0 {
        assert(t.take(t.len() as int) =~= t);
        lemma_no_repeats_prefix(t, t.len() as int);
        lemma_all_singles_count_prefix(t, t.len() as int, total);
    } else {
        if !spec_template_has_repeat(t) {
            lemma_no_repeats_count_zero(t);
        }
        let k = choose|k: int|
            0 <= k < t.len() && (#[trigger] t[k]).spec_is_auto_repetition();
        lemma_unique_repeat(t, k);
        lemma_first_group_at(t, k);
        lemma_count_prefix_one_repeat(t, t.len() as int, total, k);
    }
}

/// The produced track sequence length is exactly `2 * (negative_implicit +
/// explicit + positive_implicit) + 1`, whenever the explicit count is one
/// the template can produce.
pub proof fn lemma_track_list_length(
    counts: TrackCounts,
    template: Seq<TrackSizingFunction>,
    auto: Seq<NonRepeatedTrackSizingFunction>,
    gap: LengthPercentage,
    has: spec_fn(int) -> bool,
)
    requires
        spec_counts_match_template(counts.explicit as int, template),
    ensures
        spec_track_list(counts, template, auto, gap, has).len() == 2 * counts.spec_len() + 1,
{
    let neg = counts.negative_implicit as int;
    let total = counts.explicit as int - (template.len() as int - 1);
    lemma_explicit_prefix_len(template, template.len() as int, total, gap, has, neg);
    if counts.explicit > 0 {
        lemma_count_prefix_matches(counts.explicit as int, template, total);
    }
}

/// Within the explicit section, each pair starts with a track and ends with
/// a gutter; collapsing does not change an entry's kind.
pub proof fn lemma_explicit_prefix_parity(
    t: Seq<TrackSizingFunction>,
    i: int,
    total: int,
    gap: LengthPercentage,
    has: spec_fn(int) -> bool,
    base: int,
)
    requires
        0 <= i <= t.len(),
    ensures
        forall|k: int|
            0 <= k < spec_explicit_prefix(t, i, total, gap, has, base).len() ==> (
            #[trigger] spec_explicit_prefix(t, i, total, gap, has, base)[k]).kind == (if k % 2
                == 0 {
                GridTrackKind::Track
            } else {
                GridTrackKind::Gutter
            }),
    decreases i,
{
    if i > 0 {
        lemma_explicit_prefix_parity(t, i - 1, total, gap, has, base);
        lemma_explicit_prefix_len(t, i - 1, total, gap, has, base);
        let prev = spec_explicit_prefix(t, i - 1, total, gap, has, base);
        let entry = spec_entry_seq(
            t[i - 1],
            total,
            gap,
            has,
            base + spec_template_count_prefix(t, i - 1, total),
        );
        assert forall|k: int|
            0 <= k < spec_explicit_prefix(t, i, total, gap, has, base).len() implies (
        #[trigger] spec_explicit_prefix(t, i, total, gap, has, base)[k]).kind == (if k % 2 == 0 {
            GridTrackKind::Track
        } else {
            GridTrackKind::Gutter
        }) by {
            if k < prev.len() {
                assert(spec_explicit_prefix(t, i, total, gap, has, base)[k] == prev[k]);
            } else {
                assert(spec_explicit_prefix(t, i, total, gap, has, base)[k] == entry[k
                    - prev.len()]);
            }
        }
    }
}

/// The produced track sequence has odd length, alternates gutters and
/// tracks starting and ending with a gutter, and its first and last entries
/// are always collapsed — for every input combination.
pub proof fn lemma_track_list_structure(
    counts: TrackCounts,
    template: Seq<TrackSizingFunction>,
    auto: Seq<NonRepeatedTrackSizingFunction>,
    gap: LengthPercentage,
    has: spec_fn(int) -> bool,
)
    ensures
        spec_track_list(counts, template, auto, gap, has).len() % 2 == 1,
        spec_track_list(counts, template, auto, gap, has).len() >= 1,
        forall|k: int|
            0 <= k < spec_track_list(counts, template, auto, gap, has).len() ==> (
            #[trigger] spec_track_list(counts, template, auto, gap, has)[k]).kind == (if k % 2
                == 0 {
                GridTrackKind::Gutter
            } else {
                GridTrackKind::Track
            }),
        spec_track_list(counts, template, auto, gap, has)[0].collapsed,
        spec_track_list(counts, template, auto, gap, has).last().collapsed,
{
    let neg = counts.negative_implicit as int;
    let pos = counts.positive_implicit as int;
    let total = counts.explicit as int - (template.len() as int - 1);
    let t0 = seq![crate::track::spec_gutter(gap)];
    let a = spec_implicit_seq(neg, auto, spec_auto_offset(auto.len() as int, neg), gap);
    let b = if counts.explicit > 0 {
        spec_explicit_prefix(template, template.len() as int, total, gap, has, neg)
    } else {
        Seq::<GridTrack>::empty()
    };
    let c = spec_implicit_seq(pos, auto, 0, gap);
    let body = t0 + a + b + c;
    lemma_explicit_prefix_len(template, template.len() as int, total, gap, has, neg);
    lemma_explicit_prefix_parity(template, template.len() as int, total, gap, has, neg);
    assert(a.len() == 2 * neg);
    assert(c.len() == 2 * pos);
    assert(b.len() % 2 == 0);
    assert forall|k: int| 0 <= k < body.len() implies (#[trigger] body[k]).kind == (if k % 2
        == 0 {
        GridTrackKind::Gutter
    } else {
        GridTrackKind::Track
    }) by {
        if k == 0 {
            assert(body[k] == t0[0]);
        } else if k < 1 + a.len() {
            assert(body[k] == a[k - 1]);
        } else if k < 1 + a.len() + b.len() {
            assert(body[k] == b[k - 1 - a.len()]);
        } else {
            assert(body[k] == c[k - 1 - a.len() - b.len()]);
        }
    }
    let with_first = body.update(0, spec_collapse(body[0]));
    let full = with_first.update(with_first.len() - 1, spec_collapse(with_first.last()));
    assert(full == spec_track_list(counts, template, auto, gap, has));
    assert forall|k: int| 0 <= k < full.len() implies (#[trigger] full[k]).kind == (if k % 2
        == 0 {
        GridTrackKind::Gutter
    } else {
        GridTrackKind::Track
    }) by {
        assert(full[k].kind == body[k].kind);
    }
}

/// The resolved repetition count is never less than one: the declared
/// pattern always repeats at least once.
pub proof fn lemma_num_repetitions_at_least_one(style: Style, axis: AbsoluteAxis)
    ensures
        spec_num_repetitions(style, axis) >= 1,
{
    let template = style.spec_grid_template_tracks(axis);
    let group = spec_first_group(template);
    match spec_inner_size(style, axis) {
        None => {},
        Some(inner) => {
            let gap = spec_gap_size(style, axis, inner);
            let non_rep_space = spec_sum_single_definites(template, inner);
            let per_rep_space = spec_sum_group_definites(group, inner);
            let first_total = non_rep_space + per_rep_space + (template.len() as int - 1
                + group.len() as int - 1) * gap;
            if first_total > inner {
            } else {
                let cost = per_rep_space + group.len() as int * gap;
                if cost <= 0 {
                } else {
                    lemma_div_pos_is_pos(inner - first_total, cost);
                    lemma_div_pos_is_pos(inner - first_total + cost - 1, cost);
                }
            }
        },
    }
}

/// Whenever any repetition exists and the resolver produced a non-zero
/// count, that count is at least the repeated group's length: never fewer
/// than one full repetition.
pub proof fn lemma_full_repetition(style: Style, axis: AbsoluteAxis)
    ensures
        spec_template_has_repeat(style.spec_grid_template_tracks(axis))
            && spec_explicit_track_count(style, axis) > 0 ==> spec_explicit_track_count(
            style,
            axis,
        ) >= spec_first_group(style.spec_grid_template_tracks(axis)).len(),
{
    let t = style.spec_grid_template_tracks(axis);
    if spec_template_has_repeat(t) && spec_explicit_track_count(style, axis) > 0 {
        let k = choose|k: int| 0 <= k < t.len() && (#[trigger] t[k]).spec_is_auto_repetition();
        lemma_count_take_step(t, k);
        lemma_count_nonneg(t.take(k));
        lemma_count_take_le(t, k + 1, t.len() as int);
        assert(t.take(t.len() as int) =~= t);
        lemma_num_repetitions_at_least_one(style, axis);
        let g = spec_first_group(t);
        assert(g.len() as int * spec_num_repetitions(style, axis) >= g.len() as int)
            by (nonlinear_arith)
            requires
                spec_num_repetitions(style, axis) >= 1,
                g.len() >= 0,
        ;
    }
}

/// The count the resolver produces always matches its template
/// ([`spec_counts_match_template`]): the initializer's length invariant
/// holds for every count obtained from the resolver.
pub proof fn lemma_resolver_counts_consistent(style: Style, axis: AbsoluteAxis)
    ensures
        spec_counts_match_template(
            spec_explicit_track_count(style, axis),
            style.spec_grid_template_tracks(axis),
        ),
{
    let t = style.spec_grid_template_tracks(axis);
    let c = spec_explicit_track_count(style, axis);
    if c != 0 && spec_count_auto_repeats(t) != 0 {
        lemma_num_repetitions_at_least_one(style, axis);
        let g = spec_first_group(t);
        assert(g.len() as int * spec_num_repetitions(style, axis) >= 0) by (nonlinear_arith)
            requires
                spec_num_repetitions(style, axis) >= 1,
                g.len() >= 0,
        ;
    }
}

/// A count that matches the template satisfies the initializer's
/// template-shape preconditions.
pub proof fn lemma_counts_match_initializer_ready(explicit: int, t: Seq<TrackSizingFunction>)
    requires
        spec_counts_match_template(explicit, t),
    ensures
        explicit > 0 ==> spec_count_auto_repeats(t) <= 1,
        explicit > 0 && spec_template_has_repeat(t) ==> explicit + 1 >= t.len(),
{
    if explicit > 0 && spec_template_has_repeat(t) {
        let k = choose|k: int| 0 <= k < t.len() && (#[trigger] t[k]).spec_is_auto_repetition();
        lemma_count_take_step(t, k);
        lemma_count_nonneg(t.take(k));
        lemma_count_take_le(t, k + 1, t.len() as int);
        assert(t.take(t.len() as int) =~= t);
    }
}

/// Whether a sizing pair's max component is an absolute length, so that its
/// definite value does not depend on the container.
pub open spec fn spec_absolute_max(nr: NonRepeatedTrackSizingFunction) -> bool {
    nr.max matches MaxTrackSizingFunction::Fixed(LengthPercentage::Length(_))
}

/// Whether every sizing function of the template, inside and outside the
/// repeated groups, has an absolute-length max component.
pub open spec fn spec_template_absolute(t: Seq<TrackSizingFunction>) -> bool {
    forall|i: int|
        0 <= i < t.len() ==> match #[trigger] t[i] {
            TrackSizingFunction::Single(s) => spec_absolute_max(s),
            TrackSizingFunction::AutoRepeat(_, g) => forall|j: int|
                0 <= j < g@.len() ==> spec_absolute_max(#[trigger] g@[j]),
        }
}

/// Whether every edge of the rect is an absolute length.
pub open spec fn spec_rect_absolute(r: Rect) -> bool {
    &&& r.left matches LengthPercentage::Length(_)
    &&& r.right matches LengthPercentage::Length(_)
    &&& r.top matches LengthPercentage::Length(_)
    &&& r.bottom matches LengthPercentage::Length(_)
}

/// The definite space of absolute-length single entries does not depend on
/// the parent size.
proof fn lemma_sum_singles_absolute(t: Seq<TrackSizingFunction>, parent_a: int, parent_b: int)
    requires
        spec_template_absolute(t),
    ensures
        spec_sum_single_definites(t, parent_a) == spec_sum_single_definites(t, parent_b),
    decreases t.len(),
{
    if t.len() > 0 {
        assert(forall|i: int| 0 <= i < t.drop_last().len() ==> t.drop_last()[i] == t[i]);
        lemma_sum_singles_absolute(t.drop_last(), parent_a, parent_b);
    }
}

/// The definite space of an absolute-length group does not depend on the
/// parent size.
proof fn lemma_sum_group_absolute(g: Seq<NonRepeatedTrackSizingFunction>, parent_a: int, parent_b: int)
    requires
        forall|j: int| 0 <= j < g.len() ==> spec_absolute_max(#[trigger] g[j]),
    ensures
        spec_sum_group_definites(g, parent_a) == spec_sum_group_definites(g, parent_b),
    decreases g.len(),
{
    if g.len() > 0 {
        assert(forall|j: int| 0 <= j < g.drop_last().len() ==> g.drop_last()[j] == g[j]);
        lemma_sum_group_absolute(g.drop_last(), parent_a, parent_b);
    }
}

/// Common requirements of the monotonicity laws: the two styles share one
/// absolute-length template, gap, padding and border. The restriction to
/// absolute lengths is necessary, not convenient: a percentage gap or track
/// resolves by flooring division per container, and the flooring loss can
/// make a slightly larger container fit one repetition fewer.
pub open spec fn spec_monotonic_pair(style1: Style, style2: Style, axis: AbsoluteAxis) -> bool {
    &&& style1.wf()
    &&& style2.wf()
    &&& style1.spec_grid_template_tracks(axis) == style2.spec_grid_template_tracks(axis)
    &&& style1.padding == style2.padding
    &&& style1.border == style2.border
    &&& style1.gap == style2.gap
    &&& spec_template_absolute(style1.spec_grid_template_tracks(axis))
    &&& style1.gap.spec_get_abs(axis) matches LengthPercentage::Length(_)
    &&& spec_rect_absolute(style1.padding)
    &&& spec_rect_absolute(style1.border)
}

/// With one absolute-length template resolved against two definite inner
/// sizes under the same rounding direction, the larger inner size never
/// yields fewer explicit tracks.
proof fn lemma_count_monotonic_in_inner_size(style1: Style, style2: Style, axis: AbsoluteAxis)
    requires
        spec_monotonic_pair(style1, style2, axis),
        spec_inner_size(style1, axis) is Some,
        spec_inner_size(style2, axis) is Some,
        spec_inner_size(style1, axis)->Some_0 <= spec_inner_size(style2, axis)->Some_0,
        crate::resolver::spec_size_is_maximum(style1, axis) == crate::resolver::spec_size_is_maximum(
            style2,
            axis,
        ),
    ensures
        spec_explicit_track_count(style1, axis) <= spec_explicit_track_count(style2, axis),
{
    let t = style1.spec_grid_template_tracks(axis);
    if t.len() == 0 {
    } else if spec_count_auto_repeats(t) != 1 || !crate::resolver::spec_all_fixed(t) {
    } else {
        let g = spec_first_group(t);
        if g.len() == 0 {
        } else {
            // The sole repeated group is absolute, via its entry.
            if !spec_template_has_repeat(t) {
                lemma_no_repeats_count_zero(t);
            }
            let k = choose|k: int|
                0 <= k < t.len() && (#[trigger] t[k]).spec_is_auto_repetition();
            lemma_unique_repeat(t, k);
            lemma_first_group_at(t, k);
            let inner1 = spec_inner_size(style1, axis)->Some_0;
            let inner2 = spec_inner_size(style2, axis)->Some_0;
            let gap = spec_gap_size(style1, axis, inner1);
            assert(spec_gap_size(style2, axis, inner2) == gap);
            assert(gap >= 0);
            lemma_sum_singles_absolute(t, inner1, inner2);
            lemma_sum_group_absolute(g, inner1, inner2);
            let non_rep_space = spec_sum_single_definites(t, inner1);
            let per_rep_space = spec_sum_group_definites(g, inner1);
            let first_total = non_rep_space + per_rep_space + (t.len() as int - 1 + g.len() as int
                - 1) * gap;
            let cost = per_rep_space + g.len() as int * gap;
            let r1 = spec_num_repetitions(style1, axis);
            let r2 = spec_num_repetitions(style2, axis);
            lemma_num_repetitions_at_least_one(style1, axis);
            lemma_num_repetitions_at_least_one(style2, axis);
            if first_total > inner2 {
                assert(r1 == 1 && r2 == 1);
            } else if first_total > inner1 {
                assert(r1 == 1);
            } else if cost <= 0 {
                assert(r1 == 1 && r2 == 1);
            } else {
                if crate::resolver::spec_size_is_maximum(style1, axis) {
                    lemma_div_is_ordered(inner1 - first_total, inner2 - first_total, cost);
                } else {
                    lemma_div_is_ordered(
                        inner1 - first_total + cost - 1,
                        inner2 - first_total + cost - 1,
                        cost,
                    );
                }
                assert(r1 <= r2);
            }
            assert(g.len() as int * r1 <= g.len() as int * r2) by (nonlinear_arith)
                requires
                    r1 <= r2,
                    g.len() >= 0,
            ;
        }
    }
}

/// For a fixed template whose repeated tracks, gap, padding and border are
/// absolute lengths, and a definite preferred size with no maximum size,
/// the explicit track count is non-decreasing in the container size: the
/// floor-rounded repetition resolution is monotone.
#[verifier::rlimit(60)]
pub proof fn lemma_explicit_count_monotonic(
    style1: Style,
    style2: Style,
    axis: AbsoluteAxis,
    s1: i64,
    s2: i64,
)
    requires
        spec_monotonic_pair(style1, style2, axis),
        style1.size.spec_get_abs(axis) == Dimension::Length(s1),
        style2.size.spec_get_abs(axis) == Dimension::Length(s2),
        s1 <= s2,
        style1.max_size.spec_get_abs(axis) == Dimension::Auto,
        style2.max_size.spec_get_abs(axis) == Dimension::Auto,
    ensures
        spec_explicit_track_count(style1, axis) <= spec_explicit_track_count(style2, axis),
{
    assert(spec_inner_size(style1, axis) is Some);
    assert(spec_inner_size(style2, axis) is Some);
    lemma_count_monotonic_in_inner_size(style1, style2, axis);
}

/// The minimum-governed counterpart: with only a definite minimum size,
/// the ceiling-rounded repetition resolution is monotone as well.
#[verifier::rlimit(60)]
pub proof fn lemma_explicit_count_monotonic_min_size(
    style1: Style,
    style2: Style,
    axis: AbsoluteAxis,
    s1: i64,
    s2: i64,
)
    requires
        spec_monotonic_pair(style1, style2, axis),
        style1.size.spec_get_abs(axis) == Dimension::Auto,
        style2.size.spec_get_abs(axis) == Dimension::Auto,
        style1.max_size.spec_get_abs(axis) == Dimension::Auto,
        style2.max_size.spec_get_abs(axis) == Dimension::Auto,
        style1.min_size.spec_get_abs(axis) == Dimension::Length(s1),
        style2.min_size.spec_get_abs(axis) == Dimension::Length(s2),
        s1 <= s2,
    ensures
        spec_explicit_track_count(style1, axis) <= spec_explicit_track_count(style2, axis),
{
    assert(spec_inner_size(style1, axis) is Some);
    assert(spec_inner_size(style2, axis) is Some);
    lemma_count_monotonic_in_inner_size(style1, style2, axis);
}

} // verus!
