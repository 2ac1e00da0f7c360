//! The run-time semantics of a generated builder, over values of one type:
//! one slot per field, setters that fill a slot, and `finalize`, which checks
//! the required slots in declaration order and then takes every slot.
use vstd::prelude::*;
use vstd::string::StringExecFns;
use crate::classify::BuilderField;
use crate::plan::BuilderPlan;

verus! {

/// A field of an assembled record: a required field holds its value, an
/// optional one holds what its slot held.
#[derive(Debug, PartialEq, Eq, Structural)]
pub enum FieldValue<V> {
    Required(V),
    Optional(Option<V>),
}

/// The error text of an absent required field: `"name" is required`.
pub open spec fn required_message(name: Seq<char>) -> Seq<char> {
    "\""@ + name + "\" is required"@
}

/// Field `i` is required and its slot is empty.
pub open spec fn is_missing<V>(fields: Seq<BuilderField>, slots: Seq<Option<V>>, i: int) -> bool {
    !fields[i].optional && slots[i] is None
}

/// The first missing field among the first `n`, in declaration order.
pub open spec fn first_missing<V>(fields: Seq<BuilderField>, slots: Seq<Option<V>>, n: int) -> Option<int>
    decreases n,
{
    if n <= 0 {
        None
    } else {
        match first_missing(fields, slots, n - 1) {
            Some(i) => Some(i),
            None => if is_missing(fields, slots, n - 1) {
                Some(n - 1)
            } else {
                None
            },
        }
    }
}

/// The record's fields, assembled from the slots.
pub open spec fn assembled<V>(fields: Seq<BuilderField>, slots: Seq<Option<V>>) -> Seq<FieldValue<V>> {
    Seq::new(
        fields.len(),
        |i: int|
            if fields[i].optional {
                FieldValue::Optional(slots[i])
            } else {
                FieldValue::Required(slots[i]->Some_0)
            },
    )
}

/// What `finalize` returns: the message of the first missing required field,
/// or else the assembled record.
pub open spec fn finalize_outcome<V>(fields: Seq<BuilderField>, slots: Seq<Option<V>>) -> Result<
    Seq<FieldValue<V>>,
    Seq<char>,
> {
    match first_missing(fields, slots, fields.len() as int) {
        Some(i) => Err(required_message(fields[i].name@)),
        None => Ok(assembled(fields, slots)),
    }
}

/// `n` empty slots.
pub open spec fn empty_slots<V>(n: nat) -> Seq<Option<V>> {
    Seq::new(n, |i: int| None)
}

/// A builder instance: the fields of its record and one slot per field.
pub struct SlotBuilder<V> {
    fields: Vec<BuilderField>,
    slots: Vec<Option<V>>,
}

impl<V> SlotBuilder<V> {
    /// The fields of the record, in declaration order.
    pub closed spec fn field_list(&self) -> Seq<BuilderField> {
        self.fields@
    }

    /// The slots, one per field.
    pub closed spec fn slot_values(&self) -> Seq<Option<V>> {
        self.slots@
    }

    pub open spec fn wf(&self) -> bool {
        self.slot_values().len() == self.field_list().len()
    }

    /// A fresh builder for a planned record: every slot is empty.
    pub fn new(plan: BuilderPlan) -> (r: Self)
        ensures
            r.wf(),
            r.field_list() == plan.fields@,
            r.slot_values() == empty_slots::<V>(plan.fields@.len()),
    {
        let fields = plan.fields;
        let mut slots: Vec<Option<V>> = Vec::new();
        let mut i: usize = 0;
        while i < fields.len()
            invariant
                i <= fields@.len(),
                slots@ == empty_slots::<V>(i as nat),
            decreases fields@.len() - i,
        {
            slots.push(None);
            i = i + 1;
            assert(slots@ =~= empty_slots::<V>(i as nat));
        }
        SlotBuilder { fields, slots }
    }

    /// The number of fields.
    pub fn len(&self) -> (r: usize)
        requires
            self.wf(),
        ensures
            r == self.field_list().len(),
    {
        self.fields.len()
    }

    /// Stores `value` in the slot of field `i`, whatever it held.
    pub fn set(&mut self, i: usize, value: V)
        requires
            old(self).wf(),
            i < old(self).field_list().len(),
        ensures
            final(self).wf(),
            final(self).field_list() == old(self).field_list(),
            final(self).slot_values() == old(self).slot_values().update(i as int, Some(value)),
    {
        let _ = self.slots.remove(i);
        self.slots.insert(i, Some(value));
        assert(self.slots@ =~= old(self).slots@.update(i as int, Some(value)));
    }

    fn message(name: &String) -> (r: String)
        ensures
            r@ == required_message(name@),
    {
        String::from_str("\"").concat(name.as_str()).concat("\" is required")
    }

    /// Checks the required slots in declaration order and fails on the first
    /// empty one, leaving the builder as it was; otherwise takes every slot,
    /// leaving all of them empty, and returns the assembled record.
    pub fn finalize(&mut self) -> (r: Result<Vec<FieldValue<V>>, String>)
        requires
            old(self).wf(),
        ensures
            final(self).wf(),
            final(self).field_list() == old(self).field_list(),
            r is Ok <==> finalize_outcome(old(self).field_list(), old(self).slot_values()) is Ok,
            r matches Ok(v) ==> finalize_outcome(old(self).field_list(), old(self).slot_values())
                == Ok::<Seq<FieldValue<V>>, Seq<char>>(v@),
            r matches Ok(v) ==> final(self).slot_values() == empty_slots::<V>(
                old(self).field_list().len(),
            ),
            r matches Err(m) ==> finalize_outcome(old(self).field_list(), old(self).slot_values())
                == Err::<Seq<FieldValue<V>>, Seq<char>>(m@),
            r matches Err(m) ==> final(self).slot_values() == old(self).slot_values(),
    {
        let n = self.fields.len();
        let mut i: usize = 0;
        while i < n
            invariant
                self.wf(),
                n == self.fields@.len(),
                i <= n,
                self.fields@ == old(self).fields@,
                self.slots@ == old(self).slots@,
                first_missing(self.fields@, self.slots@, i as int) is None,
            decreases n - i,
        {
            if !self.fields[i].optional && self.slots[i].is_none() {
                proof {
                    assert(first_missing(self.fields@, self.slots@, i + 1) == Some(i as int));
                    lemma_first_missing_stays(self.fields@, self.slots@, i + 1, n as int);
                }
                return Err(Self::message(&self.fields[i].name));
            }
            i = i + 1;
        }
        let mut taken: Vec<Option<V>> = Vec::new();
        std::mem::swap(&mut taken, &mut self.slots);
        let ghost full = taken@;
        let mut out: Vec<FieldValue<V>> = Vec::new();
        let mut j: usize = 0;
        while j < n
            invariant
                n == self.fields@.len(),
                self.fields@ == old(self).fields@,
                full == old(self).slots@,
                full.len() == n,
                j <= n,
                taken@ == full.subrange(j as int, n as int),
                out@ == assembled(self.fields@, full).take(j as int),
                self.slots@ == empty_slots::<V>(j as nat),
                first_missing(self.fields@, full, n as int) is None,
            decreases n - j,
        {
            let slot = taken.remove(0);
            proof {
                lemma_none_missing(self.fields@, full, n as int, j as int);
            }
            let value = if self.fields[j].optional {
                FieldValue::Optional(slot)
            } else {
                FieldValue::Required(slot.unwrap())
            };
            out.push(value);
            self.slots.push(None);
            j = j + 1;
            assert(taken@ =~= full.subrange(j as int, n as int));
            assert(out@ =~= assembled(self.fields@, full).take(j as int));
            assert(self.slots@ =~= empty_slots::<V>(j as nat));
        }
        assert(out@ =~= assembled(self.fields@, full));
        Ok(out)
    }
}

/// Once a prefix has a first missing field, every longer prefix has the same.
proof fn lemma_first_missing_stays<V>(fields: Seq<BuilderField>, slots: Seq<Option<V>>, m: int, n: int)
    requires
        0 <= m <= n,
        first_missing(fields, slots, m) is Some,
    ensures
        first_missing(fields, slots, n) == first_missing(fields, slots, m),
    decreases n - m,
{
    if m < n {
        lemma_first_missing_stays(fields, slots, m, n - 1);
    }
}

/// Where no field of a prefix is missing, each field of it is present or
/// optional.
proof fn lemma_none_missing<V>(fields: Seq<BuilderField>, slots: Seq<Option<V>>, n: int, j: int)
    requires
        0 <= j < n,
        first_missing(fields, slots, n) is None,
    ensures
        !is_missing(fields, slots, j),
    decreases n - j,
{
    if j < n - 1 {
        lemma_none_missing(fields, slots, n - 1, j);
    }
}

/// A prefix in which every required field has a full slot has no missing
/// field.
proof fn lemma_required_present<V>(fields: Seq<BuilderField>, slots: Seq<Option<V>>, n: int)
    requires
        0 <= n <= fields.len(),
        slots.len() == fields.len(),
        forall|i: int| 0 <= i < n && !fields[i].optional ==> (#[trigger] slots[i]) is Some,
    ensures
        first_missing(fields, slots, n) is None,
    decreases n,
{
    if n > 0 {
        lemma_required_present(fields, slots, n - 1);
    }
}

/// A record whose fields are all required, with every slot set, finalizes
/// to exactly the values set, in declaration order.
pub proof fn lemma_all_required_set<V>(fields: Seq<BuilderField>, slots: Seq<Option<V>>)
    requires
        slots.len() == fields.len(),
        forall|i: int| 0 <= i < fields.len() ==> !(#[trigger] fields[i]).optional,
        forall|i: int| 0 <= i < fields.len() ==> (#[trigger] slots[i]) is Some,
    ensures
        finalize_outcome(fields, slots) == Ok::<Seq<FieldValue<V>>, Seq<char>>(
            Seq::new(fields.len(), |i: int| FieldValue::Required(slots[i]->Some_0)),
        ),
{
    lemma_required_present(fields, slots, fields.len() as int);
    assert(assembled(fields, slots) =~= Seq::new(
        fields.len(),
        |i: int| FieldValue::Required(slots[i]->Some_0),
    ));
}

/// Setters of two different fields commute: each touches only its own slot.
pub proof fn lemma_setters_commute<V>(slots: Seq<Option<V>>, i: int, j: int, a: V, b: V)
    requires
        0 <= i < slots.len(),
        0 <= j < slots.len(),
        i != j,
    ensures
        slots.update(i, Some(a)).update(j, Some(b)) == slots.update(j, Some(b)).update(i, Some(a)),
{
    assert(slots.update(i, Some(a)).update(j, Some(b)) =~= slots.update(j, Some(b)).update(
        i,
        Some(a),
    ));
}

/// An optional field whose setter was never called does not stop
/// `finalize`, and the assembled record holds `None` for it.
pub proof fn lemma_unset_optional_is_none<V>(fields: Seq<BuilderField>, slots: Seq<Option<V>>, k: int)
    requires
        slots.len() == fields.len(),
        0 <= k < fields.len(),
        fields[k].optional,
        slots[k] is None,
        forall|i: int| 0 <= i < fields.len() && !fields[i].optional ==> (#[trigger] slots[i]) is Some,
    ensures
        finalize_outcome(fields, slots) is Ok,
        finalize_outcome(fields, slots)->Ok_0[k] == FieldValue::<V>::Optional(None),
{
    lemma_required_present(fields, slots, fields.len() as int);
}

/// The only missing required field of a record is what `finalize` reports:
/// `"name" is required`.
pub proof fn lemma_missing_required_reported<V>(
    fields: Seq<BuilderField>,
    slots: Seq<Option<V>>,
    k: int,
)
    requires
        slots.len() == fields.len(),
        0 <= k < fields.len(),
        !fields[k].optional,
        slots[k] is None,
        forall|i: int|
            0 <= i < fields.len() && i != k && !fields[i].optional ==> (#[trigger] slots[i]) is Some,
    ensures
        finalize_outcome(fields, slots) == Err::<Seq<FieldValue<V>>, Seq<char>>(
            required_message(fields[k].name@),
        ),
{
    lemma_first_missing_wins(fields, slots, k);
}

/// Of several missing required fields, `finalize` reports the first in
/// declaration order, and only that one.
pub proof fn lemma_first_missing_wins<V>(fields: Seq<BuilderField>, slots: Seq<Option<V>>, k: int)
    requires
        slots.len() == fields.len(),
        0 <= k < fields.len(),
        !fields[k].optional,
        slots[k] is None,
        forall|i: int| 0 <= i < k && !fields[i].optional ==> (#[trigger] slots[i]) is Some,
    ensures
        finalize_outcome(fields, slots) == Err::<Seq<FieldValue<V>>, Seq<char>>(
            required_message(fields[k].name@),
        ),
{
    lemma_required_present(fields, slots, k);
    assert(first_missing(fields, slots, k + 1) == Some(k));
    lemma_first_missing_stays(fields, slots, k + 1, fields.len() as int);
}

/// The slots of a fresh builder after the setter of each of the first `n`
/// fields was called, in order, with the matching value.
pub open spec fn set_each<V>(vals: Seq<V>, n: int) -> Seq<Option<V>>
    decreases n,
{
    if n <= 0 {
        empty_slots(vals.len())
    } else {
        set_each(vals, n - 1).update(n - 1, Some(vals[n - 1]))
    }
}

/// The record built directly from one value per field: the value itself for
/// a required field, `Some` of it for an optional one.
pub open spec fn record_of<V>(fields: Seq<BuilderField>, vals: Seq<V>) -> Seq<FieldValue<V>> {
    Seq::new(
        fields.len(),
        |i: int|
            if fields[i].optional {
                FieldValue::Optional(Some(vals[i]))
            } else {
                FieldValue::Required(vals[i])
            },
    )
}

proof fn lemma_set_each<V>(vals: Seq<V>, n: int)
    requires
        0 <= n <= vals.len(),
    ensures
        set_each(vals, n).len() == vals.len(),
        forall|i: int| 0 <= i < n ==> #[trigger] set_each(vals, n)[i] == Some(vals[i]),
        forall|i: int| n <= i < vals.len() ==> #[trigger] set_each(vals, n)[i] is None,
    decreases n,
{
    if n > 0 {
        lemma_set_each(vals, n - 1);
    }
}

/// Setting every field of a fresh builder and finalizing gives the record
/// built directly from the same values.
pub proof fn lemma_round_trip<V>(fields: Seq<BuilderField>, vals: Seq<V>)
    requires
        vals.len() == fields.len(),
    ensures
        finalize_outcome(fields, set_each(vals, vals.len() as int)) == Ok::<
            Seq<FieldValue<V>>,
            Seq<char>,
        >(record_of(fields, vals)),
{
    let slots = set_each(vals, vals.len() as int);
    lemma_set_each(vals, vals.len() as int);
    lemma_required_present(fields, slots, fields.len() as int);
    assert(assembled(fields, slots) =~= record_of(fields, vals));
}

} // verus!
