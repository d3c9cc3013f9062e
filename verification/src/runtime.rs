//! The runtime builder: a directly instantiable companion for a classified
//! record, with one optionally-typed slot per field, move-chaining setters,
//! and a validating construction operation.
//!
//! A builder starts empty (every slot absent), is populated by any sequence
//! of setter calls (setters overwrite and, on distinct fields, commute), and
//! can attempt construction any number of times: construction reads the slots
//! without consuming them, so a failed attempt leaves the builder usable and
//! a successful one does not invalidate it.

use vstd::prelude::*;
use vstd::string::StringExecFns;
use crate::classify::{classifiable, classified, classify};
use crate::record::{FieldInfo, GenError, RecordData, RecordDescription};

verus! {

/// A build-time validation error: construction was attempted while the named
/// mandatory field's slot was still unpopulated.
#[derive(Debug)]
pub struct BuildError {
    pub field: String,
}

impl BuildError {
    /// A human-readable description of the error.
    pub fn message(&self) -> (r: String)
        ensures
            r@ == "missing mandatory field: "@ + self.field@,
    {
        String::from_str("missing mandatory field: ").concat(self.field.as_str())
    }
}

impl From<String> for BuildError {
    /// An error carrying the given description.
    fn from(s: String) -> (r: BuildError)
        ensures
            r == (BuildError { field: s }),
    {
        BuildError { field: s }
    }
}

impl vstd::std_specs::convert::FromSpecImpl<String> for BuildError {
    open spec fn obeys_from_spec() -> bool {
        true
    }

    open spec fn from_spec(s: String) -> Self {
        BuildError { field: s }
    }
}

/// One slot of a builder: the field it stands for and the value set for it,
/// if any.
#[derive(Debug)]
pub struct Slot<V> {
    pub info: FieldInfo,
    pub value: Option<V>,
}

/// The value a built record holds for one field: mandatory fields hold their
/// value unwrapped, optional fields hold it present-or-absent.
#[derive(Debug)]
pub enum FieldValue<V> {
    Required(V),
    Optional(Option<V>),
}

/// One field of a built record: its name and its value.
#[derive(Debug)]
pub struct BuiltField<V> {
    pub name: String,
    pub value: FieldValue<V>,
}

/// A record assembled by a successful build, its fields in declaration order.
#[derive(Debug)]
pub struct RecordValue<V> {
    pub fields: Vec<BuiltField<V>>,
}

impl<V> RecordValue<V> {
    /// Reads back the value of the named field, or nothing when the record
    /// has no field of that name.
    pub fn get(&self, name: &String) -> (r: Option<&FieldValue<V>>)
        ensures
            match r {
                Option::Some(v) => exists|i: int|
                    {
                        &&& 0 <= i < self.fields@.len()
                        &&& (#[trigger] self.fields@[i]).name@ == name@
                        &&& *v == self.fields@[i].value
                    },
                Option::None => forall|i: int|
                    0 <= i < self.fields@.len() ==> (#[trigger] self.fields@[i]).name@ != name@,
            },
    {
        let mut i: usize = 0;
        while i < self.fields.len()
            invariant
                i <= self.fields@.len(),
                forall|j: int| 0 <= j < i ==> (#[trigger] self.fields@[j]).name@ != name@,
            decreases self.fields@.len() - i,
        {
            if self.fields[i].name == *name {
                return Option::Some(&self.fields[i].value);
            }
            i = i + 1;
        }
        Option::None
    }
}

/// The slot sequence after the setter for slot `k` stores `value`: the slot
/// keeps its field information, its value becomes present, and every other
/// slot is untouched.
pub open spec fn spec_set<V>(slots: Seq<Slot<V>>, k: int, value: V) -> Seq<Slot<V>> {
    slots.update(k, Slot { info: slots[k].info, value: Option::Some(value) })
}

/// The relation between a builder's slots and a record a successful build
/// assembles from them: same fields in the same order, mandatory values
/// unwrapped, optional values present-or-absent as the slot stands, every
/// stored value a clone of the slot's.
pub open spec fn built_from<V: Clone>(slots: Seq<Slot<V>>, rec: RecordValue<V>) -> bool {
    &&& rec.fields@.len() == slots.len()
    &&& forall|i: int|
        0 <= i < slots.len() ==> {
            &&& (#[trigger] rec.fields@[i]).name == slots[i].info.name
            &&& (slots[i].info.is_mandatory ==> {
                &&& slots[i].value matches Option::Some(v)
                &&& rec.fields@[i].value matches FieldValue::Required(w) && cloned::<V>(v, w)
            })
            &&& (!slots[i].info.is_mandatory ==> {
                &&& rec.fields@[i].value matches FieldValue::Optional(o)
                &&& (o is Some <==> slots[i].value is Some)
                &&& (slots[i].value matches Option::Some(v) ==> o matches Option::Some(w)
                    && cloned::<V>(v, w))
            })
        }
}

/// An incrementally populated staging value for one record type: one slot per
/// classified field.
#[derive(Debug)]
pub struct Builder<V> {
    pub slots: Vec<Slot<V>>,
}

/// Every mandatory slot of the sequence is populated: the condition under
/// which construction succeeds.
pub open spec fn all_mandatory_populated<V>(slots: Seq<Slot<V>>) -> bool {
    forall|i: int|
        0 <= i < slots.len() && (#[trigger] slots[i]).info.is_mandatory ==> slots[i].value
            is Some
}

impl<V> Builder<V> {
    /// Every mandatory slot is populated: the condition under which
    /// construction succeeds.
    pub open spec fn all_mandatory_set(self) -> bool {
        all_mandatory_populated(self.slots@)
    }

    /// Some slot carries the given field name.
    pub open spec fn has_field(self, name: Seq<char>) -> bool {
        exists|i: int|
            0 <= i < self.slots@.len() && (#[trigger] self.slots@[i]).info.name@ == name
    }

    /// Field names are unique across the slots, as they are within any
    /// well-formed record description.
    pub open spec fn wf(self) -> bool {
        forall|i: int, j: int|
            0 <= i < j < self.slots@.len() ==> (#[trigger] self.slots@[i]).info.name@ != (
            #[trigger] self.slots@[j]).info.name@
    }

    /// A fresh, empty builder for the classified fields: one slot per field,
    /// every slot unpopulated.
    pub fn new(fields: Vec<FieldInfo>) -> (r: Builder<V>)
        ensures
            r.slots@.len() == fields@.len(),
            forall|i: int|
                0 <= i < fields@.len() ==> {
                    &&& (#[trigger] r.slots@[i]).info == fields@[i]
                    &&& r.slots@[i].value is None
                },
    {
        let ghost orig = fields@;
        let mut slots: Vec<Slot<V>> = Vec::new();
        let mut rest = fields;
        while rest.len() > 0
            invariant
                slots@.len() + rest@.len() == orig.len(),
                rest@ == orig.skip(slots@.len() as int),
                forall|i: int|
                    0 <= i < slots@.len() ==> {
                        &&& (#[trigger] slots@[i]).info == orig[i]
                        &&& slots@[i].value is None
                    },
            decreases rest@.len(),
        {
            let ghost k = slots@.len() as int;
            let f = rest.remove(0);
            proof {
                assert(f == orig[k]);
                assert(rest@ =~= orig.skip(k + 1));
            }
            slots.push(Slot { info: f, value: Option::None });
        }
        Builder { slots }
    }

    /// The setter: stores `value` for the named field and returns the builder
    /// by move, enabling chained calls. Always overwrites, so the last value
    /// set for a field wins; a name no slot carries leaves the builder
    /// unchanged.
    pub fn set(self, name: &String, value: V) -> (r: Self)
        ensures
            r.slots@.len() == self.slots@.len(),
            forall|i: int|
                0 <= i < self.slots@.len() ==> (#[trigger] r.slots@[i]).info
                    == self.slots@[i].info,
            !self.has_field(name@) ==> r.slots@ == self.slots@,
            self.has_field(name@) ==> exists|k: int|
                {
                    &&& 0 <= k < self.slots@.len()
                    &&& (#[trigger] self.slots@[k]).info.name@ == name@
                    &&& r.slots@ == spec_set(self.slots@, k, value)
                },
    {
        let mut b = self;
        let mut i: usize = 0;
        while i < b.slots.len()
            invariant
                b == self,
                i <= b.slots@.len(),
                forall|j: int| 0 <= j < i ==> (#[trigger] b.slots@[j]).info.name@ != name@,
            decreases b.slots@.len() - i,
        {
            if b.slots[i].info.name == *name {
                let s = b.slots.remove(i);
                let Slot { info, value: _ } = s;
                b.slots.insert(i, Slot { info, value: Option::Some(value) });
                proof {
                    assert(b.slots@ =~= spec_set(self.slots@, i as int, value));
                }
                return b;
            }
            i = i + 1;
        }
        b
    }

    /// The construction operation: checks that every mandatory field's slot
    /// is populated and assembles the record, cloning each stored value, so
    /// the builder stays usable whatever the outcome. On failure the error
    /// names the first unpopulated mandatory field in declaration order.
    pub fn build(&self) -> (r: Result<RecordValue<V>, BuildError>) where V: Clone
        ensures
            match r {
                Ok(rec) => self.all_mandatory_set() && built_from(self.slots@, rec),
                Err(e) => {
                    &&& !self.all_mandatory_set()
                    &&& exists|i: int|
                        {
                            &&& 0 <= i < self.slots@.len()
                            &&& (#[trigger] self.slots@[i]).info.is_mandatory
                            &&& self.slots@[i].value is None
                            &&& e.field == self.slots@[i].info.name
                            &&& forall|j: int|
                                0 <= j < i && (#[trigger] self.slots@[j]).info.is_mandatory
                                    ==> self.slots@[j].value is Some
                        }
                },
            },
    {
        let n = self.slots.len();
        let mut i: usize = 0;
        while i < n
            invariant
                n == self.slots@.len(),
                i <= n,
                forall|j: int|
                    0 <= j < i && (#[trigger] self.slots@[j]).info.is_mandatory
                        ==> self.slots@[j].value is Some,
            decreases n - i,
        {
            if self.slots[i].info.is_mandatory && self.slots[i].value.is_none() {
                return Err(BuildError { field: self.slots[i].info.name.clone() });
            }
            i = i + 1;
        }
        let mut fields: Vec<BuiltField<V>> = Vec::new();
        let mut k: usize = 0;
        while k < n
            invariant
                n == self.slots@.len(),
                k <= n,
                self.all_mandatory_set(),
                fields@.len() == k as int,
                forall|j: int|
                    0 <= j < k ==> {
                        &&& (#[trigger] fields@[j]).name == self.slots@[j].info.name
                        &&& (self.slots@[j].info.is_mandatory ==> {
                            &&& self.slots@[j].value matches Option::Some(v)
                            &&& fields@[j].value matches FieldValue::Required(w)
                                && cloned::<V>(v, w)
                        })
                        &&& (!self.slots@[j].info.is_mandatory ==> {
                            &&& fields@[j].value matches FieldValue::Optional(o)
                            &&& (o is Some <==> self.slots@[j].value is Some)
                            &&& (self.slots@[j].value matches Option::Some(v) ==> o
                                matches Option::Some(w) && cloned::<V>(v, w))
                        })
                    },
            decreases n - k,
        {
            let slot = &self.slots[k];
            let name = slot.info.name.clone();
            let value = if slot.info.is_mandatory {
                match &slot.value {
                    Option::Some(v) => FieldValue::Required(v.clone()),
                    Option::None => {
                        proof {
                            assert(false);
                        }
                        return Err(BuildError { field: name });
                    }
                }
            } else {
                match &slot.value {
                    Option::Some(v) => FieldValue::Optional(Option::Some(v.clone())),
                    Option::None => FieldValue::Optional(Option::None),
                }
            };
            fields.push(BuiltField { name, value });
            k = k + 1;
        }
        Ok(RecordValue { fields })
    }
}

/// A fresh, empty builder for the described record type: classification of
/// every field followed by one unpopulated slot per field. Fails exactly
/// where classification does.
pub fn builder_for<V>(record: RecordDescription) -> (r: Result<Builder<V>, GenError>)
    ensures
        classifiable(record.data) <==> r is Ok,
        match r {
            Ok(b) => {
                &&& record.data matches RecordData::Named { fields }
                &&& b.slots@.len() == fields@.len()
                &&& forall|i: int|
                    0 <= i < fields@.len() ==> {
                        &&& classified(fields@[i], (#[trigger] b.slots@[i]).info)
                        &&& b.slots@[i].value is None
                    }
            },
            Err(e) => match e {
                GenError::NotAStruct => record.data is Other,
                GenError::FieldsNotNamed => record.data is Unnamed || record.data is Unit,
                GenError::EmptyFieldList => {
                    &&& record.data matches RecordData::Named { fields }
                    &&& fields@.len() == 0
                },
                GenError::UnsupportedFieldType { field } => {
                    &&& record.data matches RecordData::Named { fields }
                    &&& exists|i: int|
                        {
                            &&& 0 <= i < fields@.len()
                            &&& !((#[trigger] fields@[i].ty) is Path)
                            &&& field == fields@[i].name
                            &&& forall|j: int| 0 <= j < i ==> (#[trigger] fields@[j].ty) is Path
                        }
                },
            },
        },
{
    match classify(record) {
        Ok(infos) => Ok(Builder::new(infos)),
        Err(e) => Err(e),
    }
}

/// Setters overwrite: storing a value for a slot and then storing another for
/// the same slot leaves exactly the second, as if the first call had not
/// happened.
pub proof fn lemma_set_overwrites<V>(slots: Seq<Slot<V>>, k: int, v: V, w: V)
    requires
        0 <= k < slots.len(),
    ensures
        spec_set(spec_set(slots, k, v), k, w) == spec_set(slots, k, w),
{
    assert(spec_set(spec_set(slots, k, v), k, w) =~= spec_set(slots, k, w));
}

/// Setters on distinct slots commute: populating two different fields yields
/// the same builder whichever call comes first, so any order of setter calls
/// that stores the same last value per field gives the same slots.
pub proof fn lemma_set_commutes<V>(slots: Seq<Slot<V>>, k1: int, k2: int, v1: V, v2: V)
    requires
        0 <= k1 < slots.len(),
        0 <= k2 < slots.len(),
        k1 != k2,
    ensures
        spec_set(spec_set(slots, k1, v1), k2, v2) == spec_set(spec_set(slots, k2, v2), k1, v1),
{
    assert(spec_set(spec_set(slots, k1, v1), k2, v2) =~= spec_set(
        spec_set(slots, k2, v2),
        k1,
        v1,
    ));
}

/// The slots after a whole sequence of setter steps, each step a slot index
/// and the value stored for it, applied first to last.
pub open spec fn apply_sets<V>(slots: Seq<Slot<V>>, steps: Seq<(int, V)>) -> Seq<Slot<V>>
    decreases steps.len(),
{
    if steps.len() == 0 {
        slots
    } else {
        spec_set(apply_sets(slots, steps.drop_last()), steps.last().0, steps.last().1)
    }
}

/// The value the latest setter step for slot `i` stored, if any step
/// addressed that slot.
pub open spec fn last_value_for<V>(steps: Seq<(int, V)>, i: int) -> Option<V>
    decreases steps.len(),
{
    if steps.len() == 0 {
        Option::None
    } else if steps.last().0 == i {
        Option::Some(steps.last().1)
    } else {
        last_value_for(steps.drop_last(), i)
    }
}

/// Any sequence of setter steps, in any order: every slot keeps its field
/// information; a slot some step addressed holds exactly the last value
/// stored for it; a slot no step addressed is untouched.
pub proof fn lemma_apply_sets<V>(slots: Seq<Slot<V>>, steps: Seq<(int, V)>, i: int)
    requires
        0 <= i < slots.len(),
        forall|k: int| 0 <= k < steps.len() ==> 0 <= (#[trigger] steps[k]).0 < slots.len(),
    ensures
        apply_sets(slots, steps).len() == slots.len(),
        apply_sets(slots, steps)[i].info == slots[i].info,
        apply_sets(slots, steps)[i].value == (match last_value_for(steps, i) {
            Option::Some(v) => Option::Some(v),
            Option::None => slots[i].value,
        }),
    decreases steps.len(),
{
    if steps.len() > 0 {
        lemma_apply_sets(slots, steps.drop_last(), i);
        lemma_apply_sets(slots, steps.drop_last(), steps.last().0);
    }
}

/// A sequence of setter steps that addresses every unpopulated mandatory slot
/// leaves every mandatory slot populated, so construction then succeeds —
/// whatever the order of the steps.
pub proof fn lemma_sets_populate_mandatory<V>(slots: Seq<Slot<V>>, steps: Seq<(int, V)>)
    requires
        forall|k: int| 0 <= k < steps.len() ==> 0 <= (#[trigger] steps[k]).0 < slots.len(),
        forall|i: int|
            0 <= i < slots.len() && (#[trigger] slots[i]).info.is_mandatory ==> (slots[i].value
                is Some || exists|k: int| 0 <= k < steps.len() && (#[trigger] steps[k]).0 == i),
    ensures
        all_mandatory_populated(apply_sets(slots, steps)),
{
    if slots.len() == 0 {
        lemma_apply_sets_len(slots, steps);
    } else {
        lemma_apply_sets(slots, steps, 0);
    }
    assert forall|i: int|
        0 <= i < apply_sets(slots, steps).len() && (#[trigger] apply_sets(slots, steps)[i])
            .info.is_mandatory implies apply_sets(slots, steps)[i].value is Some by {
        lemma_apply_sets(slots, steps, i);
        if slots[i].value is None {
            lemma_last_value_addressed(steps, i);
        }
    }
}

/// Setter steps never change how many slots there are.
proof fn lemma_apply_sets_len<V>(slots: Seq<Slot<V>>, steps: Seq<(int, V)>)
    requires
        forall|k: int| 0 <= k < steps.len() ==> 0 <= (#[trigger] steps[k]).0 < slots.len(),
    ensures
        apply_sets(slots, steps).len() == slots.len(),
    decreases steps.len(),
{
    if steps.len() > 0 {
        lemma_apply_sets_len(slots, steps.drop_last());
    }
}

/// A slot some step addresses has a latest stored value.
proof fn lemma_last_value_addressed<V>(steps: Seq<(int, V)>, i: int)
    requires
        exists|k: int| 0 <= k < steps.len() && (#[trigger] steps[k]).0 == i,
    ensures
        last_value_for(steps, i) is Some,
    decreases steps.len(),
{
    if steps.last().0 != i {
        let k = choose|k: int| 0 <= k < steps.len() && (#[trigger] steps[k]).0 == i;
        assert(steps.drop_last()[k] == steps[k]);
        lemma_last_value_addressed(steps.drop_last(), i);
    }
}

/// Round trip, for value types whose clones are indistinguishable from their
/// originals: a built record holds, for every field, exactly the value its
/// slot was last set to — unwrapped for a mandatory field, present-or-absent
/// for an optional one.
pub proof fn lemma_round_trip_exact<V: Clone>(slots: Seq<Slot<V>>, rec: RecordValue<V>, i: int)
    requires
        forall|a: V, b: V| cloned::<V>(a, b) ==> b == a,
        built_from(slots, rec),
        0 <= i < slots.len(),
    ensures
        rec.fields@[i].name == slots[i].info.name,
        slots[i].info.is_mandatory ==> (slots[i].value matches Option::Some(v)
            && rec.fields@[i].value == FieldValue::Required(v)),
        !slots[i].info.is_mandatory ==> rec.fields@[i].value == FieldValue::Optional(
            slots[i].value,
        ),
{
}

} // verus!
