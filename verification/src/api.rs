//! The statistics aggregator and the classification of accounting-endpoint
//! failures. `calculate_stats` turns one usage snapshot into aggregate
//! statistics: total and billed quantities summed over all records, the
//! share of the fixed plan limit in hundredths of a percent, the estimated
//! overage cost in cents, and the per-category breakdown grouped by model
//! name and sorted by usage, descending and stable (ties keep the order of
//! first appearance in the snapshot).

use vstd::prelude::*;
use crate::clock;
use crate::models::{next_month_start, Date, ModelUsage, UsageData, UsageItem, UsageStats};
use crate::text::str_eq;

verus! {

/// The fixed monthly plan limit, in whole billing units.
pub const TOTAL_LIMIT: u64 = 300;

/// The overage price of one billed unit, in cents.
pub const COST_PER_REQUEST_CENTS: u64 = 4;

/// The sum of the raw (gross) quantities of a record sequence.
pub open spec fn sum_gross(items: Seq<UsageItem>) -> int
    decreases items.len(),
{
    if items.len() == 0 {
        0
    } else {
        sum_gross(items.drop_last()) + items.last().gross_quantity
    }
}

/// The sum of the billed (net) quantities of a record sequence.
pub open spec fn sum_net(items: Seq<UsageItem>) -> int
    decreases items.len(),
{
    if items.len() == 0 {
        0
    } else {
        sum_net(items.drop_last()) + items.last().net_quantity
    }
}

/// The sum of the raw quantities of the records whose model is `name`.
pub open spec fn sum_gross_for(items: Seq<UsageItem>, name: Seq<char>) -> int
    decreases items.len(),
{
    if items.len() == 0 {
        0
    } else {
        sum_gross_for(items.drop_last(), name) + if items.last().model@ == name {
            items.last().gross_quantity as int
        } else {
            0
        }
    }
}

/// The distinct model names of a record sequence, in order of first
/// appearance.
pub open spec fn group_names(items: Seq<UsageItem>) -> Seq<Seq<char>>
    decreases items.len(),
{
    if items.len() == 0 {
        Seq::empty()
    } else {
        let prev = group_names(items.drop_last());
        if prev.contains(items.last().model@) {
            prev
        } else {
            prev.push(items.last().model@)
        }
    }
}

/// The index of the first record whose model is `name` (the length of the
/// sequence if there is none).
pub open spec fn first_occ(items: Seq<UsageItem>, name: Seq<char>) -> int
    decreases items.len(),
{
    if items.len() == 0 {
        0
    } else if items.first().model@ == name {
        0
    } else {
        1 + first_occ(items.drop_first(), name)
    }
}

/// A quantity as a share of the plan limit, in hundredths of a percent,
/// rounded half up; may exceed 10000 (that is, 100 percent).
pub open spec fn spec_percentage(used: int) -> int {
    (used * 10000 + 150) / 300
}

/// The share of the plan limit a quantity uses, in hundredths of a percent.
pub fn percent_of_limit(used: u64) -> (r: u64)
    requires
        used * 10000 + 150 <= u64::MAX,
    ensures
        r == spec_percentage(used as int),
{
    (used * 10000 + 150) / 300
}

proof fn lemma_take_all(items: Seq<UsageItem>)
    ensures
        items.take(items.len() as int) == items,
{
    assert(items.take(items.len() as int) =~= items);
}

proof fn lemma_sums_take_succ(items: Seq<UsageItem>, i: int)
    requires
        0 <= i < items.len(),
    ensures
        sum_gross(items.take(i + 1)) == sum_gross(items.take(i)) + items[i].gross_quantity,
        sum_net(items.take(i + 1)) == sum_net(items.take(i)) + items[i].net_quantity,
{
    let t = items.take(i + 1);
    assert(t.drop_last() =~= items.take(i));
    assert(t.last() == items[i]);
    assert(sum_gross(t) == sum_gross(t.drop_last()) + t.last().gross_quantity);
    assert(sum_net(t) == sum_net(t.drop_last()) + t.last().net_quantity);
}

proof fn lemma_sum_for_take_succ(items: Seq<UsageItem>, i: int, name: Seq<char>)
    requires
        0 <= i < items.len(),
    ensures
        sum_gross_for(items.take(i + 1), name) == sum_gross_for(items.take(i), name) + if items[i].model@ == name {
            items[i].gross_quantity as int
        } else {
            0
        },
{
    let t = items.take(i + 1);
    assert(t.drop_last() =~= items.take(i));
    assert(t.last() == items[i]);
    assert(sum_gross_for(t, name) == sum_gross_for(t.drop_last(), name) + if t.last().model@ == name {
        t.last().gross_quantity as int
    } else {
        0
    });
}

proof fn lemma_group_names_take_succ(items: Seq<UsageItem>, i: int)
    requires
        0 <= i < items.len(),
    ensures
        group_names(items.take(i + 1)) == if group_names(items.take(i)).contains(items[i].model@) {
            group_names(items.take(i))
        } else {
            group_names(items.take(i)).push(items[i].model@)
        },
{
    let t = items.take(i + 1);
    assert(t.drop_last() =~= items.take(i));
    assert(t.last() == items[i]);
}

proof fn lemma_sums_nonneg(items: Seq<UsageItem>)
    ensures
        sum_gross(items) >= 0,
        sum_net(items) >= 0,
    decreases items.len(),
{
    if items.len() > 0 {
        lemma_sums_nonneg(items.drop_last());
    }
}

proof fn lemma_sums_take_le(items: Seq<UsageItem>, i: int)
    requires
        0 <= i <= items.len(),
    ensures
        sum_gross(items.take(i)) <= sum_gross(items),
        sum_net(items.take(i)) <= sum_net(items),
    decreases items.len() - i,
{
    if i == items.len() {
        lemma_take_all(items);
    } else {
        lemma_sums_take_succ(items, i);
        lemma_sums_take_le(items, i + 1);
    }
}

proof fn lemma_sum_for_bounds(items: Seq<UsageItem>, name: Seq<char>)
    ensures
        0 <= sum_gross_for(items, name),
        sum_gross_for(items, name) <= sum_gross(items),
    decreases items.len(),
{
    if items.len() > 0 {
        lemma_sum_for_bounds(items.drop_last(), name);
    }
}

proof fn lemma_sum_for_take_le(items: Seq<UsageItem>, i: int, name: Seq<char>)
    requires
        0 <= i <= items.len(),
    ensures
        sum_gross_for(items.take(i), name) <= sum_gross_for(items, name),
    decreases items.len() - i,
{
    if i == items.len() {
        lemma_take_all(items);
    } else {
        lemma_sum_for_take_succ(items, i, name);
        lemma_sum_for_take_le(items, i + 1, name);
    }
}

proof fn lemma_sum_for_absent(items: Seq<UsageItem>, name: Seq<char>)
    requires
        forall|i: int| 0 <= i < items.len() ==> (#[trigger] items[i]).model@ != name,
    ensures
        sum_gross_for(items, name) == 0,
    decreases items.len(),
{
    if items.len() > 0 {
        let prev = items.drop_last();
        assert forall|i: int| 0 <= i < prev.len() implies (#[trigger] prev[i]).model@ != name by {
            assert(prev[i] == items[i]);
        }
        assert(items.last() == items[items.len() - 1]);
        lemma_sum_for_absent(prev, name);
    }
}

proof fn lemma_group_names_distinct(items: Seq<UsageItem>)
    ensures
        forall|k1: int, k2: int|
            0 <= k1 < k2 < group_names(items).len() ==> group_names(items)[k1]
                != group_names(items)[k2],
    decreases items.len(),
{
    if items.len() > 0 {
        let prev = group_names(items.drop_last());
        let x = items.last().model@;
        lemma_group_names_distinct(items.drop_last());
        if !prev.contains(x) {
            let gn = prev.push(x);
            assert forall|k1: int, k2: int| 0 <= k1 < k2 < gn.len() implies gn[k1] != gn[k2] by {
                if k2 == gn.len() - 1 {
                    assert(gn[k1] == prev[k1]);
                    assert(!prev.contains(x));
                    assert(prev[k1] != x);
                }
            }
        }
    }
}

proof fn lemma_group_names_complete(items: Seq<UsageItem>, name: Seq<char>)
    ensures
        group_names(items).contains(name) <==> exists|i: int|
            0 <= i < items.len() && (#[trigger] items[i]).model@ == name,
    decreases items.len(),
{
    if items.len() > 0 {
        let prev_items = items.drop_last();
        let prev = group_names(prev_items);
        let x = items.last().model@;
        lemma_group_names_complete(prev_items, name);
        assert(items.last() == items[items.len() - 1]);
        assert forall|i: int| 0 <= i < prev_items.len() implies prev_items[i] == items[i] by {}
        if group_names(items).contains(name) {
            if prev.contains(name) {
                let i = choose|i: int|
                    0 <= i < prev_items.len() && (#[trigger] prev_items[i]).model@ == name;
                assert(items[i].model@ == name);
            } else {
                assert(name == x);
                assert(items[items.len() - 1].model@ == name);
            }
        }
        if exists|i: int| 0 <= i < items.len() && (#[trigger] items[i]).model@ == name {
            let i = choose|i: int| 0 <= i < items.len() && (#[trigger] items[i]).model@ == name;
            if i < items.len() - 1 {
                assert(prev_items[i].model@ == name);
                assert(prev.contains(name));
                if !prev.contains(x) {
                    let k = choose|k: int| 0 <= k < prev.len() && prev[k] == name;
                    assert(group_names(items)[k] == name);
                    assert(group_names(items).contains(name));
                }
            } else {
                assert(name == x);
                if prev.contains(x) {
                    assert(group_names(items) == prev);
                } else {
                    let gn = prev.push(x);
                    assert(gn[gn.len() - 1] == x);
                    assert(gn.contains(name));
                }
            }
        }
    }
}

proof fn lemma_first_occ_at(items: Seq<UsageItem>, name: Seq<char>, i: int)
    requires
        0 <= i < items.len(),
        items[i].model@ == name,
        forall|j: int| 0 <= j < i ==> (#[trigger] items[j]).model@ != name,
    ensures
        first_occ(items, name) == i,
    decreases i,
{
    if i == 0 {
        assert(items.first() == items[0]);
    } else {
        assert(items.first() == items[0]);
        assert(items[0].model@ != name);
        let rest = items.drop_first();
        assert forall|j: int| 0 <= j < i - 1 implies (#[trigger] rest[j]).model@ != name by {
            assert(rest[j] == items[j + 1]);
        }
        assert(rest[i - 1] == items[i]);
        lemma_first_occ_at(rest, name, i - 1);
    }
}

/// Some entry of `models` carries the model name `name`.
pub open spec fn appears(models: Seq<ModelUsage>, name: Seq<char>) -> bool {
    exists|p: int| 0 <= p < models.len() && (#[trigger] models[p]).name@ == name
}

/// The grouping phase is complete: `names` lists the distinct model names
/// of `items` in order of first appearance and `sums` their summed raw
/// quantities.
pub open spec fn group_facts(items: Seq<UsageItem>, names: Seq<String>, sums: Seq<u64>) -> bool {
    &&& names.len() == sums.len()
    &&& names.len() == group_names(items).len()
    &&& forall|k: int| 0 <= k < names.len() ==> (#[trigger] names[k])@ == group_names(items)[k]
    &&& forall|k: int|
        0 <= k < sums.len() ==> (#[trigger] sums[k]) == sum_gross_for(items, names[k]@)
    &&& forall|k1: int, k2: int|
        0 <= k1 < k2 < names.len() ==> first_occ(items, names[k1]@) < first_occ(items, names[k2]@)
    &&& forall|k1: int, k2: int| 0 <= k1 < k2 < names.len() ==> names[k1]@ != names[k2]@
}

/// The sorting phase has placed the first `k` groups: `out` holds exactly
/// those groups, descending by usage, ties in first-appearance order.
pub open spec fn sort_state(
    items: Seq<UsageItem>,
    names: Seq<String>,
    sums: Seq<u64>,
    out: Seq<ModelUsage>,
    k: int,
) -> bool {
    &&& out.len() == k
    &&& forall|p: int|
        0 <= p < out.len() ==> exists|q: int|
            0 <= q < k && (#[trigger] out[p]).name@ == names[q]@ && out[p].used == sums[q]
    &&& forall|q: int| #![trigger names[q]] 0 <= q < k ==> appears(out, names[q]@)
    &&& forall|p: int| 0 <= p < out.len() ==> (#[trigger] out[p]).limit == TOTAL_LIMIT
    &&& forall|p: int|
        0 <= p < out.len() ==> (#[trigger] out[p]).used == sum_gross_for(items, out[p].name@)
    &&& forall|p: int|
        0 <= p < out.len() ==> (#[trigger] out[p]).percentage == spec_percentage(
            sum_gross_for(items, out[p].name@),
        )
    &&& forall|p1: int, p2: int|
        0 <= p1 < p2 < out.len() ==> (#[trigger] out[p1]).name@ != (#[trigger] out[p2]).name@
    &&& forall|p1: int, p2: int|
        0 <= p1 < p2 < out.len() ==> (#[trigger] out[p1]).used >= (#[trigger] out[p2]).used
    &&& forall|p1: int, p2: int|
        0 <= p1 < p2 < out.len() && (#[trigger] out[p1]).used == (#[trigger] out[p2]).used
            ==> first_occ(items, out[p1].name@) < first_occ(items, out[p2].name@)
}

/// The preconditions of one insertion step: the groups are complete, the
/// first `k` are placed in `old_out`, `x` is group `k`, and `pos` is the
/// first position whose usage is below `x`'s.
pub open spec fn insert_pre(
    items: Seq<UsageItem>,
    names: Seq<String>,
    sums: Seq<u64>,
    old_out: Seq<ModelUsage>,
    x: ModelUsage,
    k: int,
    pos: int,
) -> bool {
    &&& group_facts(items, names, sums)
    &&& sort_state(items, names, sums, old_out, k)
    &&& 0 <= k < names.len()
    &&& x.name@ == names[k]@
    &&& x.used == sums[k]
    &&& x.limit == TOTAL_LIMIT
    &&& x.percentage == spec_percentage(sum_gross_for(items, x.name@))
    &&& 0 <= pos <= old_out.len()
    &&& forall|p: int| 0 <= p < pos ==> (#[trigger] old_out[p]).used >= x.used
    &&& (pos < old_out.len() ==> old_out[pos].used < x.used)
}

proof fn lemma_insert_origin(
    items: Seq<UsageItem>,
    names: Seq<String>,
    sums: Seq<u64>,
    old_out: Seq<ModelUsage>,
    x: ModelUsage,
    k: int,
    pos: int,
)
    requires
        insert_pre(items, names, sums, old_out, x, k, pos),
    ensures
        forall|p: int|
            0 <= p < old_out.insert(pos, x).len() ==> exists|q: int|
                0 <= q < k + 1 && (#[trigger] old_out.insert(pos, x)[p]).name@ == names[q]@
                    && old_out.insert(pos, x)[p].used == sums[q],
{
    old_out.insert_ensures(pos, x);
    let new_out = old_out.insert(pos, x);
    assert forall|p: int| 0 <= p < new_out.len() implies exists|q: int|
        0 <= q < k + 1 && (#[trigger] new_out[p]).name@ == names[q]@ && new_out[p].used
            == sums[q] by {
        if p < pos {
            assert(new_out[p] == old_out[p]);
            let q = choose|q: int|
                0 <= q < k && (#[trigger] old_out[p]).name@ == names[q]@ && old_out[p].used
                    == sums[q];
            assert(0 <= q < k + 1 && new_out[p].name@ == names[q]@ && new_out[p].used == sums[q]);
        } else if p == pos {
            assert(new_out[p] == x);
            assert(0 <= k < k + 1 && new_out[p].name@ == names[k]@ && new_out[p].used == sums[k]);
        } else {
            assert(new_out[p] == old_out[p - 1]);
            let q = choose|q: int|
                0 <= q < k && (#[trigger] old_out[p - 1]).name@ == names[q]@ && old_out[p - 1].used
                    == sums[q];
            assert(0 <= q < k + 1 && new_out[p].name@ == names[q]@ && new_out[p].used == sums[q]);
        }
    }
}

proof fn lemma_insert_coverage(
    items: Seq<UsageItem>,
    names: Seq<String>,
    sums: Seq<u64>,
    old_out: Seq<ModelUsage>,
    x: ModelUsage,
    k: int,
    pos: int,
)
    requires
        insert_pre(items, names, sums, old_out, x, k, pos),
    ensures
        forall|q: int|
            #![trigger names[q]]
            0 <= q < k + 1 ==> appears(old_out.insert(pos, x), names[q]@),
{
    old_out.insert_ensures(pos, x);
    let new_out = old_out.insert(pos, x);
    assert forall|q: int| #![trigger names[q]] 0 <= q < k + 1 implies appears(
        new_out,
        names[q]@,
    ) by {
        if q == k {
            assert(new_out[pos] == x);
            assert(0 <= pos < new_out.len() && new_out[pos].name@ == names[q]@);
        } else {
            assert(appears(old_out, names[q]@));
            let p0 = choose|p0: int|
                0 <= p0 < old_out.len() && (#[trigger] old_out[p0]).name@ == names[q]@;
            if p0 < pos {
                assert(new_out[p0] == old_out[p0]);
                assert(0 <= p0 < new_out.len() && new_out[p0].name@ == names[q]@);
            } else {
                assert(new_out[p0 + 1] == old_out[p0]);
                assert(0 <= p0 + 1 < new_out.len() && new_out[p0 + 1].name@ == names[q]@);
            }
        }
    }
}

proof fn lemma_insert_fields(
    items: Seq<UsageItem>,
    names: Seq<String>,
    sums: Seq<u64>,
    old_out: Seq<ModelUsage>,
    x: ModelUsage,
    k: int,
    pos: int,
)
    requires
        insert_pre(items, names, sums, old_out, x, k, pos),
    ensures
        forall|p: int|
            0 <= p < old_out.insert(pos, x).len() ==> (#[trigger] old_out.insert(pos, x)[p]).limit
                == TOTAL_LIMIT && old_out.insert(pos, x)[p].used == sum_gross_for(
                items,
                old_out.insert(pos, x)[p].name@,
            ) && old_out.insert(pos, x)[p].percentage == spec_percentage(
                sum_gross_for(items, old_out.insert(pos, x)[p].name@),
            ),
{
    old_out.insert_ensures(pos, x);
    let new_out = old_out.insert(pos, x);
    assert forall|p: int| 0 <= p < new_out.len() implies (#[trigger] new_out[p]).limit
        == TOTAL_LIMIT && new_out[p].used == sum_gross_for(items, new_out[p].name@)
        && new_out[p].percentage == spec_percentage(sum_gross_for(items, new_out[p].name@)) by {
        if p < pos {
            assert(new_out[p] == old_out[p]);
        } else if p == pos {
            assert(new_out[p] == x);
        } else {
            assert(new_out[p] == old_out[p - 1]);
        }
    }
}

proof fn lemma_insert_distinct(
    items: Seq<UsageItem>,
    names: Seq<String>,
    sums: Seq<u64>,
    old_out: Seq<ModelUsage>,
    x: ModelUsage,
    k: int,
    pos: int,
)
    requires
        insert_pre(items, names, sums, old_out, x, k, pos),
    ensures
        forall|p1: int, p2: int|
            0 <= p1 < p2 < old_out.insert(pos, x).len() ==> (#[trigger] old_out.insert(
                pos,
                x,
            )[p1]).name@ != (#[trigger] old_out.insert(pos, x)[p2]).name@,
{
    old_out.insert_ensures(pos, x);
    let new_out = old_out.insert(pos, x);
    assert forall|p1: int, p2: int| 0 <= p1 < p2 < new_out.len() implies (
    #[trigger] new_out[p1]).name@ != (#[trigger] new_out[p2]).name@ by {
        if p1 == pos || p2 == pos {
            let po = if p1 == pos { p2 } else { p1 };
            let o = if po < pos { po } else { po - 1 };
            assert(new_out[po] == old_out[o]);
            let q = choose|q: int|
                0 <= q < k && (#[trigger] old_out[o]).name@ == names[q]@ && old_out[o].used
                    == sums[q];
            assert(names[q]@ != names[k]@);
        } else {
            let o1 = if p1 < pos { p1 } else { p1 - 1 };
            let o2 = if p2 < pos { p2 } else { p2 - 1 };
            assert(new_out[p1] == old_out[o1]);
            assert(new_out[p2] == old_out[o2]);
        }
    }
}

#[verifier::rlimit(50)]
#[verifier::spinoff_prover]
proof fn lemma_insert_sorted(
    items: Seq<UsageItem>,
    names: Seq<String>,
    sums: Seq<u64>,
    old_out: Seq<ModelUsage>,
    x: ModelUsage,
    k: int,
    pos: int,
)
    requires
        insert_pre(items, names, sums, old_out, x, k, pos),
    ensures
        forall|p1: int, p2: int|
            0 <= p1 < p2 < old_out.insert(pos, x).len() ==> (#[trigger] old_out.insert(
                pos,
                x,
            )[p1]).used >= (#[trigger] old_out.insert(pos, x)[p2]).used,
{
    old_out.insert_ensures(pos, x);
    let new_out = old_out.insert(pos, x);
    assert forall|p1: int, p2: int| 0 <= p1 < p2 < new_out.len() implies (
    #[trigger] new_out[p1]).used >= (#[trigger] new_out[p2]).used by {
        if p1 == pos {
            assert(new_out[p2] == old_out[p2 - 1]);
            if p2 - 1 > pos {
                assert(old_out[pos].used >= old_out[p2 - 1].used);
            }
        } else if p2 == pos {
            assert(new_out[p1] == old_out[p1]);
            assert(old_out[p1].used >= x.used);
        } else {
            let o1 = if p1 < pos { p1 } else { p1 - 1 };
            let o2 = if p2 < pos { p2 } else { p2 - 1 };
            assert(new_out[p1] == old_out[o1]);
            assert(new_out[p2] == old_out[o2]);
        }
    }
}

#[verifier::rlimit(50)]
#[verifier::spinoff_prover]
proof fn lemma_insert_stable(
    items: Seq<UsageItem>,
    names: Seq<String>,
    sums: Seq<u64>,
    old_out: Seq<ModelUsage>,
    x: ModelUsage,
    k: int,
    pos: int,
)
    requires
        insert_pre(items, names, sums, old_out, x, k, pos),
    ensures
        forall|p1: int, p2: int|
            0 <= p1 < p2 < old_out.insert(pos, x).len() && (#[trigger] old_out.insert(
                pos,
                x,
            )[p1]).used == (#[trigger] old_out.insert(pos, x)[p2]).used ==> first_occ(
                items,
                old_out.insert(pos, x)[p1].name@,
            ) < first_occ(items, old_out.insert(pos, x)[p2].name@),
{
    old_out.insert_ensures(pos, x);
    let new_out = old_out.insert(pos, x);
    assert forall|p1: int, p2: int|
        0 <= p1 < p2 < new_out.len() && (#[trigger] new_out[p1]).used == (
        #[trigger] new_out[p2]).used implies first_occ(items, new_out[p1].name@) < first_occ(
        items,
        new_out[p2].name@,
    ) by {
        if p2 == pos {
            assert(new_out[p1] == old_out[p1]);
            let q = choose|q: int|
                0 <= q < k && (#[trigger] old_out[p1]).name@ == names[q]@ && old_out[p1].used
                    == sums[q];
            assert(first_occ(items, names[q]@) < first_occ(items, names[k]@));
        } else if p1 == pos {
            assert(new_out[p2] == old_out[p2 - 1]);
            if p2 - 1 > pos {
                assert(old_out[pos].used >= old_out[p2 - 1].used);
            }
            assert(new_out[p2].used < x.used);
        } else {
            let o1 = if p1 < pos { p1 } else { p1 - 1 };
            let o2 = if p2 < pos { p2 } else { p2 - 1 };
            assert(new_out[p1] == old_out[o1]);
            assert(new_out[p2] == old_out[o2]);
        }
    }
}

#[verifier::rlimit(60)]
#[verifier::spinoff_prover]
proof fn lemma_insert_step(
    items: Seq<UsageItem>,
    names: Seq<String>,
    sums: Seq<u64>,
    old_out: Seq<ModelUsage>,
    x: ModelUsage,
    k: int,
    pos: int,
)
    requires
        insert_pre(items, names, sums, old_out, x, k, pos),
    ensures
        sort_state(items, names, sums, old_out.insert(pos, x), k + 1),
{
    old_out.insert_ensures(pos, x);
    lemma_insert_origin(items, names, sums, old_out, x, k, pos);
    lemma_insert_coverage(items, names, sums, old_out, x, k, pos);
    lemma_insert_fields(items, names, sums, old_out, x, k, pos);
    lemma_insert_distinct(items, names, sums, old_out, x, k, pos);
    lemma_insert_sorted(items, names, sums, old_out, x, k, pos);
    lemma_insert_stable(items, names, sums, old_out, x, k, pos);
}


#[verifier::rlimit(60)]
#[verifier::spinoff_prover]
proof fn lemma_sort_done(
    items: Seq<UsageItem>,
    names: Seq<String>,
    sums: Seq<u64>,
    out: Seq<ModelUsage>,
)
    requires
        group_facts(items, names, sums),
        sort_state(items, names, sums, out, names.len() as int),
    ensures
        models_correct(items, out),
{
    let gn = group_names(items);
    assert forall|p: int| 0 <= p < out.len() implies gn.contains(
        (#[trigger] out[p]).name@,
    ) by {
        let q = choose|q: int|
            0 <= q < names.len() && (#[trigger] out[p]).name@ == names[q]@ && out[p].used
                == sums[q];
        assert(gn[q] == names[q]@);
    }
    assert forall|q: int| #![trigger gn[q]] 0 <= q < gn.len() implies appears(out, gn[q]) by {
        assert(names[q]@ == gn[q]);
        assert(appears(out, names[q]@));
    }
}

/// The per-category breakdown `models` is correct for the records `items`:
/// it lists exactly the distinct model names, each with the summed raw
/// quantity, the fixed limit, and the share of that limit; it is sorted by
/// usage descending; and ties keep the order of first appearance.
pub open spec fn models_correct(items: Seq<UsageItem>, models: Seq<ModelUsage>) -> bool {
    let gn = group_names(items);
    &&& models.len() == gn.len()
    &&& forall|p: int|
        0 <= p < models.len() ==> gn.contains((#[trigger] models[p]).name@)
    &&& forall|p: int|
        0 <= p < models.len() ==> (#[trigger] models[p]).used == sum_gross_for(
            items,
            models[p].name@,
        )
    &&& forall|p: int| 0 <= p < models.len() ==> (#[trigger] models[p]).limit == TOTAL_LIMIT
    &&& forall|p: int|
        0 <= p < models.len() ==> (#[trigger] models[p]).percentage == spec_percentage(
            sum_gross_for(items, models[p].name@),
        )
    &&& forall|q: int| #![trigger gn[q]] 0 <= q < gn.len() ==> appears(models, gn[q])
    &&& forall|p1: int, p2: int|
        0 <= p1 < p2 < models.len() ==> (#[trigger] models[p1]).name@ != (
        #[trigger] models[p2]).name@
    &&& forall|p1: int, p2: int|
        0 <= p1 < p2 < models.len() ==> (#[trigger] models[p1]).used >= (
        #[trigger] models[p2]).used
    &&& forall|p1: int, p2: int|
        0 <= p1 < p2 < models.len() && (#[trigger] models[p1]).used == (
        #[trigger] models[p2]).used ==> first_occ(items, models[p1].name@) < first_occ(
            items,
            models[p2].name@,
        )
}

/// Aggregates a snapshot into usage statistics, with the allowance reset on
/// the first day of the month after `today`.
#[verifier::rlimit(100)]
pub fn calculate_stats_at(data: &UsageData, today: Date) -> (r: UsageStats)
    requires
        1 <= today.month <= 12,
        today.year < i32::MAX,
        sum_gross(data.usage_items@) * 10000 + 150 <= u64::MAX,
        sum_net(data.usage_items@) * 4 <= u64::MAX,
    ensures
        r.total_used == sum_gross(data.usage_items@),
        r.total_limit == TOTAL_LIMIT,
        r.percentage == spec_percentage(sum_gross(data.usage_items@)),
        r.estimated_cost == COST_PER_REQUEST_CENTS * sum_net(data.usage_items@),
        r.username == data.user,
        today.month == 12 ==> r.reset_date == (Date {
            year: (today.year + 1) as i32,
            month: 1,
            day: 1,
        }),
        today.month < 12 ==> r.reset_date == (Date {
            year: today.year,
            month: (today.month + 1) as u32,
            day: 1,
        }),
        models_correct(data.usage_items@, r.models@),
{
    let items = &data.usage_items;
    let n = items.len();

    proof {
        lemma_sums_nonneg(items@);
    }

    // Totals across all records.
    let mut total_gross: u64 = 0;
    let mut total_net: u64 = 0;
    let mut i: usize = 0;
    while i < n
        invariant
            n == items@.len(),
            i <= n,
            total_gross == sum_gross(items@.take(i as int)),
            total_net == sum_net(items@.take(i as int)),
            sum_gross(items@) * 10000 + 150 <= u64::MAX,
            sum_net(items@) * 4 <= u64::MAX,
            sum_gross(items@) >= 0,
            sum_net(items@) >= 0,
        decreases n - i,
    {
        proof {
            lemma_sums_take_succ(items@, i as int);
            lemma_sums_take_le(items@, i as int + 1);
        }
        let item = &items[i];
        total_gross = total_gross + item.gross_quantity;
        total_net = total_net + item.net_quantity;
        i = i + 1;
    }
    proof {
        lemma_take_all(items@);
    }

    // Group raw quantities by model name, in order of first appearance.
    let mut names: Vec<String> = Vec::new();
    let mut sums: Vec<u64> = Vec::new();
    let mut i: usize = 0;
    while i < n
        invariant
            n == items@.len(),
            i <= n,
            names@.len() == sums@.len(),
            names@.len() == group_names(items@.take(i as int)).len(),
            forall|k: int|
                0 <= k < names@.len() ==> (#[trigger] names@[k])@ == group_names(
                    items@.take(i as int),
                )[k],
            forall|k: int|
                0 <= k < sums@.len() ==> (#[trigger] sums@[k]) == sum_gross_for(
                    items@.take(i as int),
                    names@[k]@,
                ),
            forall|k: int| 0 <= k < names@.len() ==> first_occ(items@, (#[trigger] names@[k])@) < i,
            forall|k1: int, k2: int|
                0 <= k1 < k2 < names@.len() ==> first_occ(items@, names@[k1]@) < first_occ(
                    items@,
                    names@[k2]@,
                ),
            forall|k1: int, k2: int| 0 <= k1 < k2 < names@.len() ==> names@[k1]@ != names@[k2]@,
            sum_gross(items@) * 10000 + 150 <= u64::MAX,
            sum_gross(items@) >= 0,
        decreases n - i,
    {
        let item = &items[i];
        let m = names.len();
        let mut idx: Option<usize> = None;
        let mut j: usize = 0;
        while j < m
            invariant
                m == names@.len(),
                j <= m,
                i < n,
                n == items@.len(),
                *item == items@[i as int],
                match idx {
                    Some(jj) => jj < m && names@[jj as int]@ == items@[i as int].model@,
                    None => forall|jj: int|
                        0 <= jj < j ==> (#[trigger] names@[jj])@ != items@[i as int].model@,
                },
            decreases m - j,
        {
            if idx.is_none() {
                let nm: &String = &names[j];
                if str_eq(nm.as_str(), item.model.as_str()) {
                    idx = Some(j);
                }
            }
            j = j + 1;
        }
        match idx {
            Some(jfound) => {
                proof {
                    let name = names@[jfound as int]@;
                    // The model is already grouped, so the name list is unchanged.
                    assert(group_names(items@.take(i as int))[jfound as int] == name);
                    assert(group_names(items@.take(i as int)).contains(name));
                    lemma_group_names_take_succ(items@, i as int);
                    // Bound the grown sum.
                    lemma_sum_for_take_succ(items@, i as int, name);
                    lemma_sum_for_take_le(items@, i as int + 1, name);
                    lemma_sum_for_bounds(items@, name);
                    // The other sums are untouched by this record.
                    assert forall|k: int| 0 <= k < sums@.len() && k != jfound implies sum_gross_for(
                        items@.take(i as int + 1),
                        names@[k]@,
                    ) == sum_gross_for(items@.take(i as int), names@[k]@) by {
                        if k < jfound {
                            assert(names@[k]@ != names@[jfound as int]@);
                        } else {
                            assert(names@[jfound as int]@ != names@[k]@);
                        }
                        lemma_sum_for_take_succ(items@, i as int, names@[k]@);
                    }
                }
                let cur = sums[jfound];
                let q = item.gross_quantity;
                sums[jfound] = cur + q;
            },
            None => {
                proof {
                    let name = items@[i as int].model@;
                    let ti = items@.take(i as int);
                    // The name is new: it appears nowhere among the grouped names,
                    // hence nowhere in the processed prefix.
                    assert forall|k: int| 0 <= k < group_names(ti).len() implies group_names(
                        ti,
                    )[k] != name by {
                        assert(names@[k]@ == group_names(ti)[k]);
                    }
                    assert(!group_names(ti).contains(name));
                    lemma_group_names_complete(ti, name);
                    assert forall|jj: int| 0 <= jj < i implies (#[trigger] items@[jj]).model@
                        != name by {
                        assert(ti[jj] == items@[jj]);
                        if items@[jj].model@ == name {
                            assert(0 <= jj < ti.len() && ti[jj].model@ == name);
                        }
                    }
                    lemma_first_occ_at(items@, name, i as int);
                    lemma_group_names_take_succ(items@, i as int);
                    // Its sum so far is zero.
                    assert forall|jj: int| 0 <= jj < ti.len() implies (#[trigger] ti[jj]).model@
                        != name by {
                        assert(ti[jj] == items@[jj]);
                    }
                    lemma_sum_for_absent(ti, name);
                    lemma_sum_for_take_succ(items@, i as int, name);
                    // The other sums are untouched by this record.
                    assert forall|k: int| 0 <= k < sums@.len() implies sum_gross_for(
                        items@.take(i as int + 1),
                        names@[k]@,
                    ) == sum_gross_for(items@.take(i as int), names@[k]@) by {
                        assert(first_occ(items@, names@[k]@) < i);
                        assert(first_occ(items@, name) == i);
                        lemma_sum_for_take_succ(items@, i as int, names@[k]@);
                    }
                }
                names.push(item.model.clone());
                sums.push(item.gross_quantity);
            },
        }
        i = i + 1;
    }
    proof {
        lemma_take_all(items@);
        lemma_group_names_distinct(items@);
    }

    // Sort the groups by usage, descending; insertion keeps ties in first-
    // appearance order because each new group first appears later than all
    // groups already placed.
    let gsize = names.len();
    let mut out: Vec<ModelUsage> = Vec::new();
    let mut k: usize = 0;
    while k < gsize
        invariant
            gsize == names@.len(),
            n == items@.len(),
            k <= gsize,
            group_facts(items@, names@, sums@),
            sum_gross(items@) * 10000 + 150 <= u64::MAX,
            sum_gross(items@) >= 0,
            sort_state(items@, names@, sums@, out@, k as int),
        decreases gsize - k,
    {
        proof {
            lemma_sum_for_bounds(items@, names@[k as int]@);
        }
        let used = sums[k];
        let x = ModelUsage {
            name: names[k].clone(),
            used,
            limit: TOTAL_LIMIT,
            percentage: percent_of_limit(used),
        };
        let olen = out.len();
        let mut pos: usize = 0;
        while pos < olen && out[pos].used >= used
            invariant
                olen == out@.len(),
                pos <= olen,
                forall|p: int| 0 <= p < pos ==> (#[trigger] out@[p]).used >= used,
            decreases olen - pos,
        {
            pos = pos + 1;
        }
        let ghost old_out = out@;
        proof {
            lemma_insert_step(items@, names@, sums@, old_out, x, k as int, pos as int);
        }
        out.insert(pos, x);
        k = k + 1;
    }
    proof {
        lemma_sort_done(items@, names@, sums@, out@);
    }

    let percentage = percent_of_limit(total_gross);
    let estimated_cost = total_net * COST_PER_REQUEST_CENTS;
    let reset_date = next_month_start(today);
    UsageStats {
        total_used: total_gross,
        total_limit: TOTAL_LIMIT,
        percentage,
        reset_date,
        models: out,
        estimated_cost,
        username: data.user.clone(),
    }
}

/// Aggregates a snapshot into usage statistics, taking the reset day from
/// the present UTC date.
pub fn calculate_stats(data: &UsageData) -> (r: UsageStats)
    requires
        sum_gross(data.usage_items@) * 10000 + 150 <= u64::MAX,
        sum_net(data.usage_items@) * 4 <= u64::MAX,
    ensures
        r.total_used == sum_gross(data.usage_items@),
        r.total_limit == TOTAL_LIMIT,
        r.percentage == spec_percentage(sum_gross(data.usage_items@)),
        r.estimated_cost == COST_PER_REQUEST_CENTS * sum_net(data.usage_items@),
        r.username == data.user,
        r.reset_date.day == 1,
        1 <= r.reset_date.month <= 12,
        models_correct(data.usage_items@, r.models@),
{
    let today = clock::today_utc();
    calculate_stats_at(data, today)
}

/// Whether the record quantities are small enough for the aggregation's
/// exact integer arithmetic.
pub fn quantities_within_limits(data: &UsageData) -> (r: bool)
    ensures
        r == (sum_gross(data.usage_items@) * 10000 + 150 <= u64::MAX && sum_net(
            data.usage_items@,
        ) * 4 <= u64::MAX),
{
    let items = &data.usage_items;
    let n = items.len();
    proof {
        lemma_sums_nonneg(items@);
    }
    let mut total_gross: u64 = 0;
    let mut total_net: u64 = 0;
    let mut i: usize = 0;
    while i < n
        invariant
            n == items@.len(),
            items@ == data.usage_items@,
            i <= n,
            total_gross == sum_gross(items@.take(i as int)),
            total_net == sum_net(items@.take(i as int)),
            sum_gross(items@) >= 0,
            sum_net(items@) >= 0,
        decreases n - i,
    {
        proof {
            lemma_sums_take_succ(items@, i as int);
            lemma_sums_take_le(items@, i as int + 1);
        }
        let item = &items[i];
        match total_gross.checked_add(item.gross_quantity) {
            Some(t) => {
                total_gross = t;
            },
            None => {
                proof {
                    assert(sum_gross(items@) > u64::MAX);
                    assert(sum_gross(items@) * 10000 + 150 > u64::MAX) by (nonlinear_arith)
                        requires
                            sum_gross(items@) > u64::MAX,
                    ;
                }
                return false;
            },
        }
        match total_net.checked_add(item.net_quantity) {
            Some(t) => {
                total_net = t;
            },
            None => {
                proof {
                    assert(sum_net(items@) > u64::MAX);
                    assert(sum_net(items@) * 4 > u64::MAX) by (nonlinear_arith)
                        requires
                            sum_net(items@) > u64::MAX,
                    ;
                }
                return false;
            },
        }
        i = i + 1;
    }
    proof {
        lemma_take_all(items@);
    }
    let ok_gross = total_gross <= (u64::MAX - 150) / 10000;
    let ok_net = total_net <= u64::MAX / 4;
    proof {
        assert(ok_gross == (sum_gross(items@) * 10000 + 150 <= u64::MAX)) by (nonlinear_arith)
            requires
                total_gross == sum_gross(items@),
                ok_gross == (total_gross <= (u64::MAX - 150) / 10000),
        ;
        assert(ok_net == (sum_net(items@) * 4 <= u64::MAX)) by (nonlinear_arith)
            requires
                total_net == sum_net(items@),
                ok_net == (total_net <= u64::MAX / 4),
        ;
    }
    ok_gross && ok_net
}

/// Aggregates a snapshot if its quantities admit exact arithmetic; `None`
/// exactly when the scaled sums would not fit the machine word.
pub fn try_calculate_stats(data: &UsageData) -> (r: Option<UsageStats>)
    ensures
        (r is Some) == (sum_gross(data.usage_items@) * 10000 + 150 <= u64::MAX && sum_net(
            data.usage_items@,
        ) * 4 <= u64::MAX),
        r matches Some(s) ==> s.total_used == sum_gross(data.usage_items@) && s.total_limit
            == TOTAL_LIMIT && s.percentage == spec_percentage(sum_gross(data.usage_items@))
            && s.estimated_cost == COST_PER_REQUEST_CENTS * sum_net(data.usage_items@) && s.username
            == data.user && s.reset_date.day == 1 && 1 <= s.reset_date.month <= 12
            && models_correct(data.usage_items@, s.models@),
{
    if quantities_within_limits(data) {
        Some(calculate_stats(data))
    } else {
        None
    }
}

/// A snapshot with no billed quantity costs nothing, whatever its gross
/// usage: the estimated overage cost depends on the billed sum alone.
pub proof fn lemma_zero_billed_costs_nothing(items: Seq<UsageItem>)
    ensures
        sum_net(items) == 0 ==> COST_PER_REQUEST_CENTS * sum_net(items) == 0,
        COST_PER_REQUEST_CENTS * sum_net(items) == 4 * sum_net(items),
{
}

/// The failure categories of the accounting endpoint.
#[derive(Debug, Clone, Copy, PartialEq, Eq, Structural)]
pub enum ApiErrorKind {
    /// The credential is invalid or expired.
    Unauthorized,
    /// The credential lacks the required permission.
    Forbidden,
    /// The account has no readable usage resource.
    NotFound,
    /// The endpoint's rate limit was reached.
    RateLimited,
    /// The service itself failed.
    Server,
    /// Any other non-success response.
    Other,
}

/// The failure category of a non-success HTTP status code.
pub open spec fn spec_categorize(status: u16) -> ApiErrorKind {
    if status == 401 {
        ApiErrorKind::Unauthorized
    } else if status == 403 {
        ApiErrorKind::Forbidden
    } else if status == 404 {
        ApiErrorKind::NotFound
    } else if status == 429 {
        ApiErrorKind::RateLimited
    } else if 500 <= status <= 599 {
        ApiErrorKind::Server
    } else {
        ApiErrorKind::Other
    }
}

/// Classifies a non-success HTTP status code of the accounting endpoint.
pub fn categorize_http_status(status: u16) -> (r: ApiErrorKind)
    ensures
        r == spec_categorize(status),
{
    if status == 401 {
        ApiErrorKind::Unauthorized
    } else if status == 403 {
        ApiErrorKind::Forbidden
    } else if status == 404 {
        ApiErrorKind::NotFound
    } else if status == 429 {
        ApiErrorKind::RateLimited
    } else if 500 <= status && status <= 599 {
        ApiErrorKind::Server
    } else {
        ApiErrorKind::Other
    }
}

} // verus!
