//! The track list initializer: rewrites a caller-owned sequence into the
//! ordered list of negative-implicit, explicit and positive-implicit tracks,
//! each alternating with gutters, with collapse flags resolved.

use crate::resolver::spec_count_auto_repeats;
use crate::style::{
    GridTrackRepetition, LengthPercentage, NonRepeatedTrackSizingFunction, TrackSizingFunction,
};
use crate::track::{spec_collapse, spec_gutter, spec_track, GridTrack, TrackCounts};
use vstd::prelude::*;

verus! {

/// Which tracks hold at least one placed item, by absolute track index.
///
/// The initializer consults this to collapse `AutoFit` tracks that would
/// otherwise be empty. Implementations must be deterministic: the runtime
/// answer is the spec-level answer.
pub trait ItemPresence {
    /// Whether the track at `index` holds at least one placed item.
    spec fn spec_has_items(&self, index: int) -> bool;

    /// Whether the track at `index` holds at least one placed item.
    fn has_items(&self, index: usize) -> (b: bool)
        ensures
            b == self.spec_has_items(index as int),
    ;
}

/// An item-presence source with no items anywhere.
pub struct NoItems;

impl ItemPresence for NoItems {
    open spec fn spec_has_items(&self, index: int) -> bool {
        false
    }

    fn has_items(&self, index: usize) -> (b: bool) {
        false
    }
}

/// An item-presence source backed by a table of flags, one per absolute
/// track index; indices past the table hold no items.
pub struct ItemTable {
    pub occupied: Vec<bool>,
}

impl ItemPresence for ItemTable {
    open spec fn spec_has_items(&self, index: int) -> bool {
        0 <= index < self.occupied@.len() && self.occupied@[index]
    }

    fn has_items(&self, index: usize) -> (b: bool) {
        index < self.occupied.len() && self.occupied[index]
    }
}

/// The phase offset the negative-implicit tracks start cycling the
/// auto-tracks list at, keeping their cyclic phase consistent with the
/// positive-implicit tracks, as if the pattern extended continuously
/// backward from the explicit region.
pub open spec fn spec_auto_offset(auto_len: int, negative_implicit: int) -> int {
    if auto_len == 0 || negative_implicit == 0 {
        0
    } else if auto_len >= negative_implicit {
        auto_len % negative_implicit
    } else {
        negative_implicit % auto_len
    }
}

/// The sizing pair of the `i`-th generated implicit track: cycling the
/// auto-tracks list from `offset`, or an automatic pair when the list is
/// empty.
pub open spec fn spec_implicit_track_def(
    auto: Seq<NonRepeatedTrackSizingFunction>,
    offset: int,
    i: int,
) -> NonRepeatedTrackSizingFunction {
    if auto.len() == 0 {
        NonRepeatedTrackSizingFunction {
            min: crate::style::MinTrackSizingFunction::Auto,
            max: crate::style::MaxTrackSizingFunction::Auto,
        }
    } else {
        auto[(offset + i) % (auto.len() as int)]
    }
}

/// `count` implicit tracks, each followed by a gutter sized to `gap`.
pub open spec fn spec_implicit_seq(
    count: int,
    auto: Seq<NonRepeatedTrackSizingFunction>,
    offset: int,
    gap: LengthPercentage,
) -> Seq<GridTrack> {
    Seq::new(
        (2 * count) as nat,
        |k: int|
            if k % 2 == 0 {
                spec_track(spec_implicit_track_def(auto, offset, k / 2))
            } else {
                spec_gutter(gap)
            },
    )
}

/// The tracks and gutters of one automatic repetition entry expanded `total`
/// times by cycling its group; an `AutoFit` track with no items at its
/// absolute index is collapsed together with its following gutter. An empty
/// group expands to nothing.
pub open spec fn spec_repeat_seq(
    kind: GridTrackRepetition,
    group: Seq<NonRepeatedTrackSizingFunction>,
    total: int,
    gap: LengthPercentage,
    has: spec_fn(int) -> bool,
    base: int,
) -> Seq<GridTrack> {
    if group.len() == 0 {
        Seq::empty()
    } else {
        Seq::new(
            (2 * (if total >= 0 {
                total
            } else {
                0
            })) as nat,
            |k: int|
                {
                    let entry = if k % 2 == 0 {
                        spec_track(group[(k / 2) % (group.len() as int)])
                    } else {
                        spec_gutter(gap)
                    };
                    if kind == GridTrackRepetition::AutoFit && has(base + k / 2) == false {
                        spec_collapse(entry)
                    } else {
                        entry
                    }
                },
    )
    }
}

/// How many tracks one template entry emits: one for a single track, the
/// repetition total for a repeated group (none when the group is empty).
pub open spec fn spec_entry_track_count(e: TrackSizingFunction, total: int) -> int {
    match e {
        TrackSizingFunction::Single(_) => 1,
        TrackSizingFunction::AutoRepeat(_, group) => if group@.len() == 0 || total < 0 {
            0
        } else {
            total
        },
    }
}

/// The tracks and gutters one template entry emits, starting at absolute
/// track index `base`.
pub open spec fn spec_entry_seq(
    e: TrackSizingFunction,
    total: int,
    gap: LengthPercentage,
    has: spec_fn(int) -> bool,
    base: int,
) -> Seq<GridTrack> {
    match e {
        TrackSizingFunction::Single(s) => seq![spec_track(s), spec_gutter(gap)],
        TrackSizingFunction::AutoRepeat(kind, group) => spec_repeat_seq(
            kind,
            group@,
            total,
            gap,
            has,
            base,
        ),
    }
}

/// How many tracks the first `i` template entries emit.
pub open spec fn spec_template_count_prefix(t: Seq<TrackSizingFunction>, i: int, total: int) -> int
    decreases i,
{
    if i <= 0 {
        0
    } else {
        spec_template_count_prefix(t, i - 1, total) + spec_entry_track_count(t[i - 1], total)
    }
}

/// The tracks and gutters the first `i` template entries emit, threading the
/// absolute track index from `base`.
pub open spec fn spec_explicit_prefix(
    t: Seq<TrackSizingFunction>,
    i: int,
    total: int,
    gap: LengthPercentage,
    has: spec_fn(int) -> bool,
    base: int,
) -> Seq<GridTrack>
    decreases i,
{
    if i <= 0 {
        Seq::empty()
    } else {
        spec_explicit_prefix(t, i - 1, total, gap, has, base) + spec_entry_seq(
            t[i - 1],
            total,
            gap,
            has,
            base + spec_template_count_prefix(t, i - 1, total),
        )
    }
}

/// Whether the template holds an automatic repetition entry.
pub open spec fn spec_template_has_repeat(t: Seq<TrackSizingFunction>) -> bool {
    exists|i: int| 0 <= i < t.len() && (#[trigger] t[i]).spec_is_auto_repetition()
}

/// The complete track sequence the initializer produces: a leading gutter,
/// the negative-implicit tracks (phase-shifted), the expanded explicit
/// template (skipped entirely when the explicit count is zero), the
/// positive-implicit tracks, and the two boundary entries force-collapsed.
pub open spec fn spec_track_list(
    counts: TrackCounts,
    template: Seq<TrackSizingFunction>,
    auto: Seq<NonRepeatedTrackSizingFunction>,
    gap: LengthPercentage,
    has: spec_fn(int) -> bool,
) -> Seq<GridTrack> {
    let neg = counts.negative_implicit as int;
    let pos = counts.positive_implicit as int;
    let total = counts.explicit as int - (template.len() as int - 1);
    let body = seq![spec_gutter(gap)] + spec_implicit_seq(
        neg,
        auto,
        spec_auto_offset(auto.len() as int, neg),
        gap,
    ) + (if counts.explicit > 0 {
        spec_explicit_prefix(template, template.len() as int, total, gap, has, neg)
    } else {
        Seq::empty()
    }) + spec_implicit_seq(pos, auto, 0, gap);
    let with_first = body.update(0, spec_collapse(body[0]));
    with_first.update(with_first.len() - 1, spec_collapse(with_first.last()))
}

/// Append `count` implicit tracks, each followed by a gutter, cycling the
/// auto-tracks list from `offset` (an empty list yields automatic pairs).
pub fn create_implicit_tracks(
    tracks: &mut Vec<GridTrack>,
    count: u16,
    auto_tracks: &Vec<NonRepeatedTrackSizingFunction>,
    offset: usize,
    gap: LengthPercentage,
)
    requires
        offset == 0 || offset < auto_tracks@.len(),
    ensures
        final(tracks)@ == old(tracks)@ + spec_implicit_seq(
            count as int,
            auto_tracks@,
            offset as int,
            gap,
        ),
{
    let ghost pre = tracks@;
    let len: usize = auto_tracks.len();
    let mut cursor: usize = offset;
    let mut i: usize = 0;
    proof {
        if len > 0 {
            vstd::arithmetic::div_mod::lemma_small_mod(offset as nat, len as nat);
        }
    }
    while i < count as usize
        invariant
            i <= count as usize,
            len == auto_tracks@.len(),
            offset == 0 || offset < len,
            len > 0 ==> cursor as int == (offset + i) % (len as int) && cursor < len,
            len == 0 ==> cursor == offset,
            tracks@ == pre + spec_implicit_seq(i as int, auto_tracks@, offset as int, gap),
        decreases count as usize - i,
    {
        let track_def: NonRepeatedTrackSizingFunction = if len == 0 {
            NonRepeatedTrackSizingFunction::auto()
        } else {
            let d = auto_tracks[cursor];
            proof {
                vstd::arithmetic::div_mod::lemma_add_mod_noop(
                    offset as int + i as int,
                    1,
                    len as int,
                );
                if len == 1 {
                    vstd::arithmetic::div_mod::lemma_mod_self_0(len as int);
                } else {
                    vstd::arithmetic::div_mod::lemma_small_mod(1, len as nat);
                }
                if cursor + 1 == len {
                    vstd::arithmetic::div_mod::lemma_mod_self_0(len as int);
                } else {
                    vstd::arithmetic::div_mod::lemma_small_mod((cursor + 1) as nat, len as nat);
                }
            }
            cursor = if cursor + 1 == len {
                0
            } else {
                cursor + 1
            };
            d
        };
        tracks.push(GridTrack::new(track_def.min_sizing_function(), track_def.max_sizing_function()));
        tracks.push(GridTrack::gutter(gap));
        proof {
            assert(tracks@ =~= pre + spec_implicit_seq(
                i as int + 1,
                auto_tracks@,
                offset as int,
                gap,
            ));
        }
        i += 1;
    }
}

/// One template entry extends the count of automatic repetitions by one
/// exactly when it is one.
pub proof fn lemma_count_take_step(t: Seq<TrackSizingFunction>, j: int)
    requires
        0 <= j < t.len(),
    ensures
        spec_count_auto_repeats(t.take(j + 1)) == spec_count_auto_repeats(t.take(j)) + if t[j]
            .spec_is_auto_repetition() {
            1int
        } else {
            0int
        },
{
    assert(t.take(j + 1).drop_last() =~= t.take(j));
    assert(t.take(j + 1).last() == t[j]);
}

/// The count of automatic repetitions is non-negative.
pub proof fn lemma_count_nonneg(t: Seq<TrackSizingFunction>)
    ensures
        spec_count_auto_repeats(t) >= 0,
    decreases t.len(),
{
    if t.len() > 0 {
        lemma_count_nonneg(t.drop_last());
    }
}

/// The count of automatic repetitions grows along prefixes.
pub proof fn lemma_count_take_le(t: Seq<TrackSizingFunction>, i: int, j: int)
    requires
        0 <= i <= j <= t.len(),
    ensures
        spec_count_auto_repeats(t.take(i)) <= spec_count_auto_repeats(t.take(j)),
    decreases j - i,
{
    if i < j {
        lemma_count_take_step(t, j - 1);
        lemma_count_take_le(t, i, j - 1);
    }
}

/// A prefix without automatic repetitions holds none.
pub proof fn lemma_no_repeats_prefix(t: Seq<TrackSizingFunction>, i: int)
    requires
        0 <= i <= t.len(),
        spec_count_auto_repeats(t.take(i)) == 0,
    ensures
        forall|k: int| 0 <= k < i ==> !(#[trigger] t[k]).spec_is_auto_repetition(),
    decreases i,
{
    if i > 0 {
        lemma_count_take_step(t, i - 1);
        lemma_count_nonneg(t.take(i - 1));
        lemma_no_repeats_prefix(t, i - 1);
    }
}

/// A prefix of single entries emits one track each.
pub proof fn lemma_all_singles_count_prefix(t: Seq<TrackSizingFunction>, i: int, total: int)
    requires
        0 <= i <= t.len(),
        forall|k: int| 0 <= k < i ==> !(#[trigger] t[k]).spec_is_auto_repetition(),
    ensures
        spec_template_count_prefix(t, i, total) == i,
    decreases i,
{
    if i > 0 {
        lemma_all_singles_count_prefix(t, i - 1, total);
    }
}

/// Rewrite the caller-owned sequence into the complete track list for the
/// axis: a leading gutter, the negative-implicit tracks cycling the
/// auto-tracks list from the phase offset, the expanded explicit template,
/// the positive-implicit tracks cycling from zero, and the two boundary
/// entries force-collapsed. Idempotent: the result depends only on the
/// arguments, never on the sequence's previous contents.
///
/// `counts.explicit` is expected to originate from the resolver; the
/// preconditions on the template only restate consequences of that wiring
/// (at most one automatic repetition when any explicit track exists, and an
/// explicit count that covers the non-repeating entries), together with one
/// machine limit: a template whose track counts fit `u16`.
#[verifier::loop_isolation(false)]
#[verifier::rlimit(100)]
pub fn initialize_grid_tracks<P: ItemPresence>(
    tracks: &mut Vec<GridTrack>,
    counts: TrackCounts,
    track_template: &Vec<TrackSizingFunction>,
    auto_tracks: &Vec<NonRepeatedTrackSizingFunction>,
    gap: LengthPercentage,
    track_has_items: &P,
)
    requires
        track_template@.len() <= u16::MAX,
        counts.explicit > 0 && spec_template_has_repeat(track_template@)
            ==> counts.explicit as int + 1 >= track_template@.len() as int,
        counts.explicit > 0 ==> spec_count_auto_repeats(track_template@) <= 1,
    ensures
        final(tracks)@ == spec_track_list(
            counts,
            track_template@,
            auto_tracks@,
            gap,
            |idx: int| track_has_items.spec_has_items(idx),
        ),
{
    let ghost has: spec_fn(int) -> bool = |idx: int| track_has_items.spec_has_items(idx);
    let ghost tseq = track_template@;
    let ghost negi: int = counts.negative_implicit as int;
    let ghost total: int = counts.explicit as int - (tseq.len() as int - 1);
    let ghost tmax: int = if total >= 0 {
        total
    } else {
        0
    };

    // Clear the sequence (in case of a relayout) and reserve room for every
    // track and gutter ahead of time, then push the leading gutter.
    tracks.clear();
    tracks.reserve(counts.len() * 2 + 1);
    tracks.push(GridTrack::gutter(gap));

    // Negative-implicit tracks, phase-shifted so that their cycle lines up
    // with the positive-implicit tracks. With no negative-implicit track the
    // offset is irrelevant (nothing is emitted) and is left at zero.
    let offset: usize = if auto_tracks.len() == 0 || counts.negative_implicit == 0 {
        0
    } else {
        let a: usize = auto_tracks.len();
        let neg: usize = counts.negative_implicit as usize;
        let mx: usize = if a >= neg {
            a
        } else {
            neg
        };
        let mn: usize = if a >= neg {
            neg
        } else {
            a
        };
        mx % mn
    };
    proof {
        assert(offset as int == spec_auto_offset(auto_tracks@.len() as int, negi));
    }
    create_implicit_tracks(tracks, counts.negative_implicit, auto_tracks, offset, gap);

    let mut current_track_index: usize = counts.negative_implicit as usize;

    // Explicit tracks. The count is checked rather than the template alone:
    // a count of zero may come from an invalid template, which is then
    // ignored even when non-empty.
    let ghost pre = tracks@;
    if counts.explicit > 0 {
        let n: usize = track_template.len();
        let mut i: usize = 0;
        while i < n
            invariant
                i <= n,
                current_track_index as int == negi + spec_template_count_prefix(
                    tseq,
                    i as int,
                    total,
                ),
                0 <= spec_template_count_prefix(tseq, i as int, total) <= i as int + tmax,
                tracks@ == pre + spec_explicit_prefix(tseq, i as int, total, gap, has, negi),
            decreases n - i,
        {
            match &track_template[i] {
                TrackSizingFunction::Single(sizing_function) => {
                    tracks.push(
                        GridTrack::new(
                            sizing_function.min_sizing_function(),
                            sizing_function.max_sizing_function(),
                        ),
                    );
                    tracks.push(GridTrack::gutter(gap));
                    proof {
                        assert(tracks@ =~= pre + spec_explicit_prefix(
                            tseq,
                            i as int + 1,
                            total,
                            gap,
                            has,
                            negi,
                        ));
                    }
                    current_track_index += 1;
                },
                TrackSizingFunction::AutoRepeat(repetition_kind, repeated_tracks) => {
                    proof {
                        assert(spec_template_has_repeat(tseq));
                        lemma_count_take_step(tseq, i as int);
                        lemma_count_take_le(tseq, i as int + 1, tseq.len() as int);
                        assert(tseq.take(tseq.len() as int) =~= tseq);
                        lemma_count_nonneg(tseq.take(i as int));
                        lemma_no_repeats_prefix(tseq, i as int);
                        lemma_all_singles_count_prefix(tseq, i as int, total);
                    }
                    let glen: usize = repeated_tracks.len();
                    if glen > 0 {
                        let auto_repeated_track_count: usize = counts.explicit as usize - (n - 1);
                        let ghost base: int = current_track_index as int;
                        let ghost pre_entry = tracks@;
                        let mut j: usize = 0;
                        while j < auto_repeated_track_count
                            invariant
                                j <= auto_repeated_track_count,
                                auto_repeated_track_count as int == total,
                                glen == repeated_tracks@.len(),
                                glen > 0,
                                base == negi + spec_template_count_prefix(tseq, i as int, total),
                                base <= 131070,
                                current_track_index as int == base + j as int,
                                tracks@ == pre_entry + spec_repeat_seq(
                                    *repetition_kind,
                                    repeated_tracks@,
                                    j as int,
                                    gap,
                                    has,
                                    base,
                                ),
                            decreases auto_repeated_track_count - j,
                        {
                            let track_def: NonRepeatedTrackSizingFunction = repeated_tracks[j
                                % glen];
                            let mut track = GridTrack::new(
                                track_def.min_sizing_function(),
                                track_def.max_sizing_function(),
                            );
                            let mut gutter = GridTrack::gutter(gap);
                            // Auto-fit tracks that hold no items are
                            // collapsed, together with their gutter.
                            if *repetition_kind == GridTrackRepetition::AutoFit
                                && !track_has_items.has_items(current_track_index) {
                                track.collapse();
                                gutter.collapse();
                            }
                            tracks.push(track);
                            tracks.push(gutter);
                            proof {
                                assert((2 * (j as int)) % 2 == 0);
                                assert((2 * (j as int) + 1) % 2 == 1);
                                assert((2 * (j as int)) / 2 == j as int);
                                assert((2 * (j as int) + 1) / 2 == j as int);
                                assert(tracks@ =~= pre_entry + spec_repeat_seq(
                                    *repetition_kind,
                                    repeated_tracks@,
                                    j as int + 1,
                                    gap,
                                    has,
                                    base,
                                ));
                            }
                            current_track_index += 1;
                            j += 1;
                        }
                        proof {
                            assert(tracks@ =~= pre + spec_explicit_prefix(
                                tseq,
                                i as int + 1,
                                total,
                                gap,
                                has,
                                negi,
                            ));
                        }
                    } else {
                        proof {
                            assert(tracks@ =~= pre + spec_explicit_prefix(
                                tseq,
                                i as int + 1,
                                total,
                                gap,
                                has,
                                negi,
                            ));
                        }
                    }
                },
            }
            i += 1;
        }
    }

    // Positive-implicit tracks cycle the auto-tracks list from zero.
    create_implicit_tracks(tracks, counts.positive_implicit, auto_tracks, 0, gap);

    // Force-collapse the two boundary gutters, whatever the gap produced.
    proof {
        assert(tracks@ =~= seq![spec_gutter(gap)] + spec_implicit_seq(
            negi,
            auto_tracks@,
            spec_auto_offset(auto_tracks@.len() as int, negi),
            gap,
        ) + (if counts.explicit > 0 {
            spec_explicit_prefix(tseq, tseq.len() as int, total, gap, has, negi)
        } else {
            Seq::empty()
        }) + spec_implicit_seq(counts.positive_implicit as int, auto_tracks@, 0, gap));
    }
    let last_idx: usize = tracks.len() - 1;
    let mut first_entry: GridTrack = tracks[0];
    first_entry.collapse();
    tracks[0] = first_entry;
    let mut last_entry: GridTrack = tracks[last_idx];
    last_entry.collapse();
    tracks[last_idx] = last_entry;
    proof {
        assert(tracks@ =~= spec_track_list(counts, track_template@, auto_tracks@, gap, has));
    }
}

} // verus!
