//! What holds of every companion, whatever the record and whatever the calls.

use vstd::prelude::*;

use crate::companion::CompanionView;
use crate::instance::{
    after_calls, all_set, fresh, is_first_unset, lemma_outcome_names_first_unset, outcome,
    SlotView,
};
use crate::shape::{DefinitionView, FieldView};

verus! {

/// Every call names a field that exists among `n` fields.
pub open spec fn calls_in_range<V>(calls: Seq<(int, V)>, n: nat) -> bool {
    forall|k: int| 0 <= k < calls.len() ==> 0 <= (#[trigger] calls[k]).0 < n
}

/// Some call sets field `field`.
pub open spec fn is_set_by<V>(calls: Seq<(int, V)>, field: int) -> bool {
    exists|k: int| 0 <= k < calls.len() && (#[trigger] calls[k]).0 == field
}

/// No call sets field `field`.
pub open spec fn never_set<V>(calls: Seq<(int, V)>, field: int) -> bool {
    forall|k: int| 0 <= k < calls.len() ==> (#[trigger] calls[k]).0 != field
}

/// Call `k` sets field `field`, and no later call does.
pub open spec fn is_last_call<V>(calls: Seq<(int, V)>, field: int, k: int) -> bool {
    &&& 0 <= k < calls.len()
    &&& calls[k].0 == field
    &&& forall|j: int| k < j < calls.len() ==> (#[trigger] calls[j]).0 != field
}

/// Setter calls change no name and no number of fields; a field that no call
/// sets keeps what it held, and a field that is set holds the value of the last
/// call that set it.
pub proof fn lemma_after_calls<V>(slots: Seq<SlotView<V>>, calls: Seq<(int, V)>)
    requires
        calls_in_range(calls, slots.len()),
    ensures
        after_calls(slots, calls).len() == slots.len(),
        forall|i: int|
            0 <= i < slots.len() ==> (#[trigger] after_calls(slots, calls)[i]).name
                == slots[i].name,
        forall|i: int|
            0 <= i < slots.len() && never_set(calls, i) ==> (#[trigger] after_calls(
                slots,
                calls,
            )[i]).value == slots[i].value,
        forall|i: int, k: int|
            #![trigger after_calls(slots, calls)[i], calls[k]]
            0 <= i < slots.len() && is_last_call(calls, i, k) ==> after_calls(
                slots,
                calls,
            )[i].value == Some(calls[k].1),
    decreases calls.len(),
{
    if calls.len() > 0 {
        let init = calls.drop_last();
        let last = calls.last();
        let before = after_calls(slots, init);
        let after = after_calls(slots, calls);
        assert(calls[calls.len() - 1] == last);
        assert forall|k: int| 0 <= k < init.len() implies 0 <= (#[trigger] init[k]).0
            < slots.len() by {
            assert(init[k] == calls[k]);
        }
        lemma_after_calls(slots, init);
        assert forall|i: int| 0 <= i < slots.len() && never_set(calls, i) implies (
        #[trigger] after[i]).value == slots[i].value by {
            assert forall|k: int| 0 <= k < init.len() implies (#[trigger] init[k]).0 != i by {
                assert(init[k] == calls[k]);
            }
            assert(never_set(init, i));
            assert(before[i].value == slots[i].value);
        }
        assert forall|i: int, k: int|
            #![trigger after[i], calls[k]]
            0 <= i < slots.len() && is_last_call(calls, i, k) implies after[i].value == Some(
            calls[k].1,
        ) by {
            if k < calls.len() - 1 {
                assert(last.0 != i);
                assert(init[k] == calls[k]);
                assert forall|j: int| k < j < init.len() implies (#[trigger] init[j]).0 != i by {
                    assert(init[j] == calls[j]);
                }
                assert(is_last_call(init, i, k));
                assert(before[i].value == Some(init[k].1));
            }
        }
    }
}

/// A companion that was made by the constructor and had no setter called fails
/// to build, and names the first declared field.
pub proof fn lemma_untouched_names_first_field<V>(def: DefinitionView)
    requires
        def.supported(),
    ensures
        outcome(fresh::<V>(CompanionView::of(def).fields)) == Err::<Seq<V>, Seq<char>>(
            def.fields()[0].name,
        ),
{
    let slots = fresh::<V>(CompanionView::of(def).fields);
    assert(is_first_unset(slots, 0));
    lemma_outcome_names_first_unset(slots, 0);
}

/// Where every setter is called exactly once, in whatever order, the build
/// succeeds, and each field of the record holds the value that its setter was given.
pub proof fn lemma_each_set_once_builds<V>(def: DefinitionView, calls: Seq<(int, V)>)
    requires
        def.supported(),
        calls_in_range(calls, def.fields().len()),
        forall|i: int| 0 <= i < def.fields().len() ==> #[trigger] is_set_by(calls, i),
        forall|j: int, k: int|
            0 <= j < k < calls.len() ==> (#[trigger] calls[j]).0 != (#[trigger] calls[k]).0,
    ensures
        outcome(after_calls(fresh::<V>(CompanionView::of(def).fields), calls)) is Ok,
        outcome(after_calls(fresh::<V>(CompanionView::of(def).fields), calls))->Ok_0.len()
            == def.fields().len(),
        forall|k: int|
            0 <= k < calls.len() ==> outcome(
                after_calls(fresh::<V>(CompanionView::of(def).fields), calls),
            )->Ok_0[(#[trigger] calls[k]).0] == calls[k].1,
{
    let slots = fresh::<V>(CompanionView::of(def).fields);
    let after = after_calls(slots, calls);
    lemma_after_calls(slots, calls);
    assert forall|k: int| 0 <= k < calls.len() implies is_last_call(
        calls,
        (#[trigger] calls[k]).0,
        k,
    ) by {}
    assert forall|i: int| 0 <= i < after.len() implies (#[trigger] after[i]).value is Some by {
        assert(is_set_by(calls, i));
        let k = choose|k: int| 0 <= k < calls.len() && (#[trigger] calls[k]).0 == i;
        assert(is_last_call(calls, i, k));
    }
    assert(all_set(after));
    assert forall|k: int| 0 <= k < calls.len() implies outcome(after)->Ok_0[(
    #[trigger] calls[k]).0] == calls[k].1 by {
        let i = calls[k].0;
        assert(is_last_call(calls, i, k));
        assert(after[i].value == Some(calls[k].1));
    }
}

/// Where one setter is called several times, only its last call counts: the
/// field holds that call's value, and a record that is then built holds it too.
pub proof fn lemma_last_write_wins<V>(
    slots: Seq<SlotView<V>>,
    calls: Seq<(int, V)>,
    field: int,
    k: int,
)
    requires
        calls_in_range(calls, slots.len()),
        is_last_call(calls, field, k),
    ensures
        after_calls(slots, calls)[field].value == Some(calls[k].1),
        outcome(after_calls(slots, calls)) is Ok ==> outcome(
            after_calls(slots, calls),
        )->Ok_0[field] == calls[k].1,
{
    lemma_after_calls(slots, calls);
    assert(0 <= calls[k].0 < slots.len());
    let after = after_calls(slots, calls);
    assert(after[field].value == Some(calls[k].1));
    if outcome(after) is Ok {
        assert(all_set(after));
    }
}

/// A build that fails names the first declared field that no setter was called
/// for, whatever was set after it: where field `k` was never set and every field
/// before it was, the failure names field `k`.
pub proof fn lemma_failure_names_first_unset<V>(
    fields: Seq<FieldView>,
    calls: Seq<(int, V)>,
    k: int,
)
    requires
        calls_in_range(calls, fields.len()),
        0 <= k < fields.len(),
        never_set(calls, k),
        forall|i: int| 0 <= i < k ==> #[trigger] is_set_by(calls, i),
    ensures
        outcome(after_calls(fresh::<V>(fields), calls)) == Err::<Seq<V>, Seq<char>>(
            fields[k].name,
        ),
{
    let slots = fresh::<V>(fields);
    let after = after_calls(slots, calls);
    lemma_after_calls(slots, calls);
    assert(after[k].value == slots[k].value);
    assert forall|i: int| 0 <= i < k implies (#[trigger] after[i]).value is Some by {
        assert(is_set_by(calls, i));
        lemma_last_call_exists(calls, i);
        let c = choose|c: int| is_last_call(calls, i, c);
        assert(after[i].value == Some(calls[c].1));
    }
    assert(is_first_unset(after, k));
    lemma_outcome_names_first_unset(after, k);
}

/// A field that some call sets has a last call that sets it.
pub proof fn lemma_last_call_exists<V>(calls: Seq<(int, V)>, field: int)
    requires
        is_set_by(calls, field),
    ensures
        exists|k: int| is_last_call(calls, field, k),
{
    let n = calls.len() as int;
    lemma_last_call_among(calls, field, n);
    let c = choose|c: int| 0 <= c < calls.len() && (#[trigger] calls[c]).0 == field;
    assert(calls[c].0 == field);
    let k = choose|k: int|
        0 <= k < n && calls[k].0 == field && forall|j: int|
            k < j < n ==> (#[trigger] calls[j]).0 != field;
    assert(is_last_call(calls, field, k));
}

/// Among the first `n` calls, either none sets the field or one is the last of
/// them to set it.
proof fn lemma_last_call_among<V>(calls: Seq<(int, V)>, field: int, n: int)
    requires
        0 <= n <= calls.len(),
    ensures
        (forall|j: int| 0 <= j < n ==> (#[trigger] calls[j]).0 != field) || exists|k: int|
            0 <= k < n && calls[k].0 == field && forall|j: int|
                k < j < n ==> (#[trigger] calls[j]).0 != field,
    decreases n,
{
    if n > 0 {
        lemma_last_call_among(calls, field, n - 1);
        if calls[n - 1].0 != field {
            if !(forall|j: int| 0 <= j < n - 1 ==> (#[trigger] calls[j]).0 != field) {
                let k = choose|k: int|
                    0 <= k < n - 1 && calls[k].0 == field && forall|j: int|
                        k < j < n - 1 ==> (#[trigger] calls[j]).0 != field;
                assert(forall|j: int| k < j < n ==> (#[trigger] calls[j]).0 != field);
            }
        }
    }
}

} // verus!
