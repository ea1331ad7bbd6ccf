//! What the emitted companion does when it runs: a value of the companion type
//! holds one slot per declared field, setters fill slots, and `build` hands the
//! values out or names the first field that has none.

use vstd::prelude::*;

use crate::companion::{unset_message, Companion};
use crate::shape::FieldView;

verus! {

/// One field of a companion value: the field's name and the value given so far.
#[derive(Debug)]
pub struct Slot<V> {
    pub name: String,
    pub value: Option<V>,
}

/// What a `Slot` stands for in contracts.
pub struct SlotView<V> {
    pub name: Seq<char>,
    pub value: Option<V>,
}

impl<V> View for Slot<V> {
    type V = SlotView<V>;

    open spec fn view(&self) -> SlotView<V> {
        SlotView { name: self.name@, value: self.value }
    }
}

/// The slots of a new companion value: one per field, in declaration order, all empty.
pub open spec fn fresh<V>(fields: Seq<FieldView>) -> Seq<SlotView<V>> {
    Seq::new(fields.len(), |i: int| SlotView { name: fields[i].name, value: None })
}

/// The slots after the setter of field `field` was called with `value`.
pub open spec fn with_value<V>(slots: Seq<SlotView<V>>, field: int, value: V) -> Seq<SlotView<V>>
    recommends
        0 <= field < slots.len(),
{
    slots.update(field, SlotView { name: slots[field].name, value: Some(value) })
}

/// The slots after a run of setter calls, each given as the field's position and
/// the value passed.
pub open spec fn after_calls<V>(slots: Seq<SlotView<V>>, calls: Seq<(int, V)>) -> Seq<SlotView<V>>
    decreases calls.len(),
{
    if calls.len() == 0 {
        slots
    } else {
        with_value(after_calls(slots, calls.drop_last()), calls.last().0, calls.last().1)
    }
}

/// Every field has a value.
pub open spec fn all_set<V>(slots: Seq<SlotView<V>>) -> bool {
    forall|i: int| 0 <= i < slots.len() ==> (#[trigger] slots[i]).value is Some
}

/// Field `k` has no value and every field declared before it has one.
pub open spec fn is_first_unset<V>(slots: Seq<SlotView<V>>, k: int) -> bool {
    &&& 0 <= k < slots.len()
    &&& slots[k].value is None
    &&& forall|j: int| 0 <= j < k ==> (#[trigger] slots[j]).value is Some
}

/// The position of the first field without a value, where there is one.
pub open spec fn first_unset<V>(slots: Seq<SlotView<V>>) -> int {
    choose|k: int| is_first_unset(slots, k)
}

/// What `build` yields: the values in declaration order where every field has
/// one, else the name of the first field without one.
pub open spec fn outcome<V>(slots: Seq<SlotView<V>>) -> Result<Seq<V>, Seq<char>> {
    if all_set(slots) {
        Ok(Seq::new(slots.len(), |i: int| slots[i].value->0))
    } else {
        Err(slots[first_unset(slots)].name)
    }
}

/// The position of the first field called `name`, where there is one.
pub open spec fn position_of<V>(slots: Seq<SlotView<V>>, name: Seq<char>) -> Option<int> {
    if exists|i: int| 0 <= i < slots.len() && (#[trigger] slots[i]).name == name {
        Some(
            choose|i: int|
                0 <= i < slots.len() && (#[trigger] slots[i]).name == name && forall|j: int|
                    0 <= j < i ==> (#[trigger] slots[j]).name != name,
        )
    } else {
        None
    }
}

/// Among the first `n` fields, either all have a value or one is the first without.
proof fn lemma_first_unset_among<V>(slots: Seq<SlotView<V>>, n: int)
    requires
        0 <= n <= slots.len(),
    ensures
        (forall|i: int| 0 <= i < n ==> (#[trigger] slots[i]).value is Some) || exists|k: int|
            k < n && is_first_unset(slots, k),
    decreases n,
{
    if n > 0 {
        lemma_first_unset_among(slots, n - 1);
        if forall|i: int| 0 <= i < n - 1 ==> (#[trigger] slots[i]).value is Some {
            if slots[n - 1].value is None {
                assert(is_first_unset(slots, n - 1));
            }
        }
    }
}

/// A build fails exactly where some field has no value, and the field that it
/// names is then the first such field in declaration order.
pub proof fn lemma_failure_is_first_unset<V>(slots: Seq<SlotView<V>>)
    ensures
        outcome(slots) is Err <==> !all_set(slots),
        outcome(slots) is Err ==> is_first_unset(slots, first_unset(slots)),
        outcome(slots) matches Ok(values) ==> values.len() == slots.len() && forall|i: int|
            0 <= i < slots.len() ==> (#[trigger] slots[i]).value == Some(values[i]),
{
    if !all_set(slots) {
        lemma_first_unset_among(slots, slots.len() as int);
    }
}

/// Where field `k` is the first without a value, `build` fails and names it.
pub proof fn lemma_outcome_names_first_unset<V>(slots: Seq<SlotView<V>>, k: int)
    requires
        is_first_unset(slots, k),
    ensures
        outcome(slots) == Err::<Seq<V>, Seq<char>>(slots[k].name),
        first_unset(slots) == k,
{
    let c = first_unset(slots);
    assert(is_first_unset(slots, c));
    if c < k {
        assert(slots[c].value is Some);
    }
    if k < c {
        assert(slots[k].value is Some);
    }
    assert(!all_set(slots));
}

/// The error of a build that found a field without a value.
#[derive(Debug)]
pub struct MissingField {
    /// The name of the first declared field that has no value.
    pub field: String,
}

impl MissingField {
    /// The text of the error: the field's name, followed by ` is not set.`
    pub fn message(&self) -> (s: String)
        ensures
            s@ == unset_message(self.field@),
    {
        let mut s = String::new();
        s.append(self.field.as_str());
        s.append(" is not set.");
        assert(s@ =~= unset_message(self.field@));
        s
    }
}

/// A value of the companion type: one slot per declared field, in declaration order.
#[derive(Debug)]
pub struct Builder<V> {
    pub slots: Vec<Slot<V>>,
}

/// The views of a run of slots, in order.
pub open spec fn slot_views<V>(slots: Seq<Slot<V>>) -> Seq<SlotView<V>> {
    slots.map_values(|s: Slot<V>| s@)
}

impl<V> View for Builder<V> {
    type V = Seq<SlotView<V>>;

    open spec fn view(&self) -> Seq<SlotView<V>> {
        slot_views(self.slots@)
    }
}

impl Companion {
    /// The constructor: a companion value in which every declared field is empty.
    pub fn builder<V>(&self) -> (b: Builder<V>)
        ensures
            b@ == fresh::<V>(self@.fields),
    {
        let mut slots: Vec<Slot<V>> = Vec::new();
        let mut i: usize = 0;
        while i < self.fields.len()
            invariant
                i <= self.fields.len(),
                slots@.len() == i,
                forall|j: int|
                    0 <= j < i ==> (#[trigger] slots@[j])@ == (SlotView::<V> {
                        name: self.fields@[j].name@,
                        value: None,
                    }),
            decreases self.fields.len() - i,
        {
            slots.push(Slot { name: self.fields[i].name.clone(), value: None });
            i += 1;
        }
        let b = Builder { slots };
        assert(b@ =~= fresh::<V>(self@.fields));
        b
    }
}

impl<V> Builder<V> {
    /// The number of fields.
    pub fn len(&self) -> (n: usize)
        ensures
            n == self@.len(),
    {
        self.slots.len()
    }

    /// Tells whether there is a field at position `field` and it has a value.
    pub fn is_set(&self, field: usize) -> (b: bool)
        ensures
            b == (field < self@.len() && self@[field as int].value is Some),
    {
        field < self.slots.len() && self.slots[field].value.is_some()
    }

    /// Finds the first field called `name`.
    pub fn position(&self, name: &str) -> (r: Option<usize>)
        ensures
            match r {
                Some(i) => position_of(self@, name@) == Some(i as int),
                None => position_of(self@, name@) is None,
            },
            r matches Some(i) ==> i < self@.len() && self@[i as int].name == name@,
    {
        let wanted = String::from_str(name);
        let mut i: usize = 0;
        while i < self.slots.len()
            invariant
                i <= self.slots.len(),
                wanted@ == name@,
                forall|j: int| 0 <= j < i ==> (#[trigger] self@[j]).name != name@,
            decreases self.slots.len() - i,
        {
            if self.slots[i].name == wanted {
                assert(self@[i as int].name == name@);
                return Some(i);
            }
            i += 1;
        }
        None
    }

    /// The setter of field `field`: it records `value`, whatever the slot held,
    /// and leaves every other field as it was.
    pub fn set(&mut self, field: usize, value: V) -> (chain: &mut Self)
        requires
            field < old(self)@.len(),
        ensures
            chain@ == with_value(old(self)@, field as int, value),
            *final(self) == *final(chain),
    {
        let name = self.slots[field].name.clone();
        self.slots.set(field, Slot { name, value: Some(value) });
        assert(self@ =~= with_value(old(self)@, field as int, value));
        self
    }

    /// The setter of the first field called `name`. Without such a field nothing
    /// changes, and the answer is `false`.
    pub fn set_named(&mut self, name: &str, value: V) -> (found: bool)
        ensures
            match position_of(old(self)@, name@) {
                Some(i) => found && final(self)@ == with_value(old(self)@, i, value),
                None => !found && final(self)@ == old(self)@,
            },
    {
        match self.position(name) {
            Some(i) => {
                self.set(i, value);
                true
            },
            None => false,
        }
    }

    /// Builds the record: the values of all fields, in declaration order, each a
    /// clone of what its slot holds. Where a field has no value the build fails
    /// and names the first such field; the companion is left as it was either way.
    pub fn build(&self) -> (r: Result<Vec<V>, MissingField>) where V: Clone
        ensures
            match r {
                Ok(values) => {
                    &&& outcome(self@) is Ok
                    &&& values@.len() == self@.len()
                    &&& forall|i: int|
                        0 <= i < values@.len() ==> cloned(
                            outcome(self@)->Ok_0[i],
                            #[trigger] values@[i],
                        )
                },
                Err(e) => outcome(self@) == Err::<Seq<V>, Seq<char>>(e.field@),
            },
    {
        let mut values: Vec<V> = Vec::new();
        let mut i: usize = 0;
        while i < self.slots.len()
            invariant
                i <= self.slots.len(),
                values@.len() == i,
                forall|j: int| 0 <= j < i ==> (#[trigger] self@[j]).value is Some,
                forall|j: int| 0 <= j < i ==> cloned((#[trigger] self@[j]).value->0, values@[j]),
            decreases self.slots.len() - i,
        {
            match &self.slots[i].value {
                Some(v) => {
                    values.push(v.clone());
                },
                None => {
                    proof {
                        assert(self@[i as int].value is None);
                        lemma_outcome_names_first_unset(self@, i as int);
                    }
                    return Err(MissingField { field: self.slots[i].name.clone() });
                },
            }
            i += 1;
        }
        assert(all_set(self@));
        Ok(values)
    }
}

} // verus!
