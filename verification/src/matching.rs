//! Matching the fields of a source with the fields of a target.
//!
//! Fields are matched by name and by nothing else. A field that only one of
//! the two records declares is in no pair, which is no error: the mapping is
//! over what the records have in common.

use vstd::prelude::*;
use vstd::seq_lib::{
    lemma_multiset_commutative, to_multiset_build, to_multiset_contains, to_multiset_len, to_multiset_remove,
};
use crate::schema::FieldDescriptorView;

verus! {

/// A source field with a target field of the same name.
pub type FieldPair = (FieldDescriptorView, FieldDescriptorView);

/// The pairs that one source field forms with the target fields of its name,
/// in the order of the target's declaration.
pub open spec fn pairs_with(source: FieldDescriptorView, targets: Seq<FieldDescriptorView>) -> Seq<FieldPair>
    decreases targets.len(),
{
    if targets.len() == 0 {
        Seq::empty()
    } else {
        let earlier = pairs_with(source, targets.drop_last());
        if targets.last().name == source.name {
            earlier.push((source, targets.last()))
        } else {
            earlier
        }
    }
}

/// All pairs of a source field and a target field of the same name: source
/// field by source field, and for each the target fields in their order.
pub open spec fn matched_fields(sources: Seq<FieldDescriptorView>, targets: Seq<FieldDescriptorView>) -> Seq<FieldPair>
    decreases sources.len(),
{
    if sources.len() == 0 {
        Seq::empty()
    } else {
        matched_fields(sources.drop_last(), targets) + pairs_with(sources.last(), targets)
    }
}

/// How often the matches of one source field hold a pair: as often as the
/// target declares the pair's target field, if the pair joins that source
/// field with a field of its name.
pub proof fn pairs_with_counts(source: FieldDescriptorView, targets: Seq<FieldDescriptorView>, pair: FieldPair)
    ensures
        pairs_with(source, targets).to_multiset().count(pair) == if pair.0 == source && pair.0.name
            == pair.1.name {
            targets.to_multiset().count(pair.1)
        } else {
            0
        },
    decreases targets.len(),
{
    broadcast use vstd::multiset::group_multiset_axioms;

    if targets.len() == 0 {
        assert(targets.to_multiset().len() == 0) by {
            to_multiset_len(targets);
        }
        assert(pairs_with(source, targets).to_multiset().len() == 0) by {
            to_multiset_len(pairs_with(source, targets));
        }
    } else {
        let earlier = pairs_with(source, targets.drop_last());
        pairs_with_counts(source, targets.drop_last(), pair);
        assert(targets =~= targets.drop_last().push(targets.last()));
        to_multiset_build(targets.drop_last(), targets.last());
        if targets.last().name == source.name {
            to_multiset_build(earlier, (source, targets.last()));
        }
    }
}

/// How often the plan holds a pair of fields of one name: as often as the
/// source declares the one, times as often as the target declares the other.
pub proof fn matched_fields_counts(sources: Seq<FieldDescriptorView>, targets: Seq<FieldDescriptorView>, pair: FieldPair)
    ensures
        matched_fields(sources, targets).to_multiset().count(pair) == if pair.0.name == pair.1.name {
            sources.to_multiset().count(pair.0) * targets.to_multiset().count(pair.1)
        } else {
            0
        },
    decreases sources.len(),
{
    broadcast use vstd::multiset::group_multiset_axioms;

    if sources.len() == 0 {
        assert(sources.to_multiset().len() == 0) by {
            to_multiset_len(sources);
        }
        assert(matched_fields(sources, targets).to_multiset().len() == 0) by {
            to_multiset_len(matched_fields(sources, targets));
        }
        assert(sources.to_multiset().count(pair.0) == 0);
        assert(matched_fields(sources, targets).to_multiset().count(pair) == 0);
    } else {
        let earlier = matched_fields(sources.drop_last(), targets);
        let latest = pairs_with(sources.last(), targets);
        matched_fields_counts(sources.drop_last(), targets, pair);
        pairs_with_counts(sources.last(), targets, pair);
        lemma_multiset_commutative(earlier, latest);
        assert(sources =~= sources.drop_last().push(sources.last()));
        to_multiset_build(sources.drop_last(), sources.last());
        let before = sources.drop_last().to_multiset().count(pair.0);
        let there = targets.to_multiset().count(pair.1);
        let all = sources.to_multiset().count(pair.0);
        assert(matched_fields(sources, targets).to_multiset().count(pair) == earlier.to_multiset().count(pair)
            + latest.to_multiset().count(pair));
        assert(all == if sources.last() == pair.0 {
            before + 1
        } else {
            before
        });
        if pair.0.name == pair.1.name {
            if sources.last() == pair.0 {
                assert(all * there == before * there + there) by (nonlinear_arith)
                    requires
                        all == before + 1,
                ;
            }
        }
    }
}

/// Which fields are matched: a pair is in the plan exactly if it joins a
/// field of the source with a field of the target that has the same name.
pub proof fn matched_fields_are_the_same_names(
    sources: Seq<FieldDescriptorView>,
    targets: Seq<FieldDescriptorView>,
    pair: FieldPair,
)
    ensures
        matched_fields(sources, targets).contains(pair) <==> sources.contains(pair.0) && targets.contains(
            pair.1,
        ) && pair.0.name == pair.1.name,
{
    matched_fields_counts(sources, targets, pair);
    to_multiset_contains(matched_fields(sources, targets), pair);
    to_multiset_contains(sources, pair.0);
    to_multiset_contains(targets, pair.1);
    let here = sources.to_multiset().count(pair.0);
    let there = targets.to_multiset().count(pair.1);
    assert(here * there > 0 <==> here > 0 && there > 0) by (nonlinear_arith);
}

/// Declaring the fields of the source or of the target in another order
/// does not change which fields are matched: the plan holds the same pairs
/// as often as before, only in another order. The decision for a pair
/// depends on nothing but the pair and the mode.
pub proof fn reordering_keeps_the_matches(
    sources: Seq<FieldDescriptorView>,
    targets: Seq<FieldDescriptorView>,
    reordered_sources: Seq<FieldDescriptorView>,
    reordered_targets: Seq<FieldDescriptorView>,
)
    requires
        sources.to_multiset() == reordered_sources.to_multiset(),
        targets.to_multiset() == reordered_targets.to_multiset(),
    ensures
        matched_fields(sources, targets).to_multiset() == matched_fields(
            reordered_sources,
            reordered_targets,
        ).to_multiset(),
        matched_fields(sources, targets).to_set() == matched_fields(reordered_sources, reordered_targets).to_set(),
{
    broadcast use vstd::multiset::group_multiset_axioms;

    let before = matched_fields(sources, targets);
    let after = matched_fields(reordered_sources, reordered_targets);
    assert forall|pair: FieldPair| before.to_multiset().count(pair) == after.to_multiset().count(pair) by {
        matched_fields_counts(sources, targets, pair);
        matched_fields_counts(reordered_sources, reordered_targets, pair);
    }
    assert(before.to_multiset() =~= after.to_multiset());
    assert forall|pair: FieldPair| before.to_set().contains(pair) <==> after.to_set().contains(pair) by {
        to_multiset_contains(before, pair);
        to_multiset_contains(after, pair);
    }
    assert(before.to_set() =~= after.to_set());
}

/// Two sequences that hold the same items as often hold, item by item put
/// through one function, the same results as often.
pub proof fn reordering_commutes_with_mapping<A, B>(items: Seq<A>, reordered: Seq<A>, f: spec_fn(A) -> B)
    requires
        items.to_multiset() == reordered.to_multiset(),
    ensures
        items.map_values(f).to_multiset() == reordered.map_values(f).to_multiset(),
    decreases items.len(),
{
    broadcast use vstd::multiset::group_multiset_axioms;

    to_multiset_len(items);
    to_multiset_len(reordered);
    if items.len() == 0 {
        assert(items.map_values(f) =~= reordered.map_values(f));
    } else {
        let last = items.last();
        let rest = items.drop_last();
        assert(items =~= rest.push(last));
        to_multiset_build(rest, last);
        to_multiset_contains(reordered, last);
        let at = choose|at: int| 0 <= at < reordered.len() && reordered[at] == last;
        let others = reordered.remove(at);
        to_multiset_remove(reordered, at);
        assert(rest.to_multiset() =~= others.to_multiset());
        reordering_commutes_with_mapping(rest, others, f);

        assert(items.map_values(f) =~= rest.map_values(f).push(f(last)));
        to_multiset_build(rest.map_values(f), f(last));
        assert(reordered.map_values(f).remove(at) =~= others.map_values(f));
        to_multiset_remove(reordered.map_values(f), at);
        to_multiset_contains(reordered.map_values(f), f(last));
        assert(reordered.map_values(f)[at] == f(last));
        assert(reordered.map_values(f).to_multiset() =~= others.map_values(f).to_multiset().insert(f(last)));
    }
}

/// No two of the fields have the same name.
pub open spec fn distinct_names(fields: Seq<FieldDescriptorView>) -> bool {
    forall|i: int, j: int| 0 <= i < j < fields.len() ==> fields[i].name != fields[j].name
}

/// Among fields of distinct names a source field has one match at most.
pub proof fn pairs_with_distinct_names(source: FieldDescriptorView, targets: Seq<FieldDescriptorView>)
    requires
        distinct_names(targets),
    ensures
        pairs_with(source, targets).len() <= 1,
        forall|k: int|
            0 <= k < pairs_with(source, targets).len() ==> (#[trigger] pairs_with(source, targets)[k]).0 == source
                && pairs_with(source, targets)[k].1.name == source.name && targets.contains(
                pairs_with(source, targets)[k].1,
            ),
    decreases targets.len(),
{
    if targets.len() > 0 {
        let earlier = targets.drop_last();
        assert(distinct_names(earlier)) by {
            assert forall|i: int, j: int| 0 <= i < j < earlier.len() implies earlier[i].name != earlier[j].name by {
                assert(earlier[i] == targets[i] && earlier[j] == targets[j]);
            }
        }
        pairs_with_distinct_names(source, earlier);
        let found = pairs_with(source, earlier);
        assert forall|k: int| 0 <= k < found.len() implies targets.contains(#[trigger] found[k].1) by {
            let at = choose|at: int| 0 <= at < earlier.len() && earlier[at] == found[k].1;
            assert(targets[at] == found[k].1);
        }
        if targets.last().name == source.name {
            if found.len() > 0 {
                let at = choose|at: int| 0 <= at < earlier.len() && earlier[at] == found[0].1;
                assert(targets[at].name == targets[targets.len() - 1].name);
                assert(false);
            }
            assert(targets[targets.len() - 1] == targets.last());
        }
    }
}

/// Declaring the fields of a target of distinct names in another order
/// changes nothing at all: the matches are the same, in the same order.
pub proof fn reordering_the_target_changes_nothing(
    sources: Seq<FieldDescriptorView>,
    targets: Seq<FieldDescriptorView>,
    reordered_targets: Seq<FieldDescriptorView>,
)
    requires
        targets.to_multiset() == reordered_targets.to_multiset(),
        distinct_names(targets),
        distinct_names(reordered_targets),
    ensures
        matched_fields(sources, targets) == matched_fields(sources, reordered_targets),
    decreases sources.len(),
{
    broadcast use vstd::multiset::group_multiset_axioms;

    if sources.len() > 0 {
        reordering_the_target_changes_nothing(sources.drop_last(), targets, reordered_targets);
        let source = sources.last();
        let before = pairs_with(source, targets);
        let after = pairs_with(source, reordered_targets);
        pairs_with_distinct_names(source, targets);
        pairs_with_distinct_names(source, reordered_targets);
        assert forall|pair: FieldPair| before.to_multiset().count(pair) == after.to_multiset().count(pair) by {
            pairs_with_counts(source, targets, pair);
            pairs_with_counts(source, reordered_targets, pair);
        }
        assert(before.to_multiset() =~= after.to_multiset());
        to_multiset_len(before);
        to_multiset_len(after);
        if before.len() == 1 {
            to_multiset_contains(before, before[0]);
            to_multiset_contains(after, before[0]);
            assert(before.contains(before[0]));
            assert(after[0] == before[0]);
        }
        assert(before =~= after);
    }
}

} // verus!
