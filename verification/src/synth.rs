//! The builder synthesizer: consumes the classified field list and the record
//! type's name, and derives the description of the companion builder type —
//! its name, one optionally-typed slot per field, one setter signature per
//! field, and the validating construction operation.

use vstd::prelude::*;
use vstd::string::StringExecFns;
use crate::classify::{classifiable, classify};
use crate::record::{FieldDecl, FieldInfo, GenError, RecordData, RecordDescription};
use crate::type_expr::{type_eq, TypeExpr};

verus! {

/// One slot of the derived builder type: the field's name and the slot's
/// declared type, which is uniformly the optional wrapper around the field's
/// setter argument type.
#[derive(Debug)]
pub struct SlotDecl {
    pub name: String,
    pub slot_type: TypeExpr,
}

/// The signature of one derived setter: the field's name (the setter is named
/// after it) and the type of the setter's one argument.
#[derive(Debug)]
pub struct SetterDecl {
    pub name: String,
    pub arg_type: TypeExpr,
}

/// The signature of the derived construction operation: the record type it
/// yields on success, and the names of the fields whose slots it checks for
/// presence, in declaration order.
#[derive(Debug)]
pub struct BuildOp {
    pub result_name: String,
    pub mandatory: Vec<String>,
}

/// The derived description of a builder type: a pure generation artifact,
/// one slot and one setter per input field.
#[derive(Debug)]
pub struct BuilderDescription {
    pub record_name: String,
    pub builder_name: String,
    pub slots: Vec<SlotDecl>,
    pub setters: Vec<SetterDecl>,
    pub build_op: BuildOp,
}

/// The given type is the optional wrapper applied to exactly `inner`: the
/// shape every builder slot is declared with.
pub open spec fn optional_slot(slot: TypeExpr, inner: TypeExpr) -> bool {
    &&& slot matches TypeExpr::Path { segments, arg }
    &&& segments@.len() == 1
    &&& segments@[0]@ == "Option"@
    &&& arg matches Option::Some(b) && *b == inner
}

/// The names of the mandatory fields of a classified field list, in
/// declaration order.
pub open spec fn mandatory_names(fields: Seq<FieldInfo>) -> Seq<String>
    decreases fields.len(),
{
    if fields.len() == 0 {
        Seq::empty()
    } else {
        let rest = mandatory_names(fields.drop_last());
        if fields.last().is_mandatory {
            rest.push(fields.last().name)
        } else {
            rest
        }
    }
}

/// The classification the field classifier derives for one declared field.
pub open spec fn spec_classify_one(decl: FieldDecl) -> FieldInfo {
    FieldInfo {
        name: decl.name,
        is_mandatory: !decl.ty.is_optional_wrapper(),
        inner_type: decl.ty.setter_inner(),
    }
}

/// Wraps a setter argument type in the optional wrapper, yielding the
/// declared type of the corresponding builder slot.
fn wrap_optional(inner: TypeExpr) -> (r: TypeExpr)
    ensures
        optional_slot(r, inner),
{
    let mut segments: Vec<String> = Vec::new();
    segments.push(String::from_str("Option"));
    TypeExpr::Path { segments, arg: Option::Some(Box::new(inner)) }
}

/// Derives the builder description for a record named `record_name` whose
/// classified fields are `fields`.
///
/// The builder type's name is the record's name with the literal suffix
/// `Builder`; every slot is optional-of-innerType irrespective of the field's
/// own classification; every setter takes the field's inner type; the
/// construction operation checks exactly the mandatory fields, in declaration
/// order, and yields the record type.
pub fn synthesize(record_name: String, fields: Vec<FieldInfo>) -> (b: BuilderDescription)
    ensures
        b.record_name == record_name,
        b.builder_name@ == record_name@ + "Builder"@,
        b.slots@.len() == fields@.len(),
        b.setters@.len() == fields@.len(),
        forall|i: int|
            0 <= i < fields@.len() ==> {
                &&& (#[trigger] b.slots@[i]).name == fields@[i].name
                &&& optional_slot(b.slots@[i].slot_type, fields@[i].inner_type)
                &&& b.setters@[i].name == fields@[i].name
                &&& type_eq(b.setters@[i].arg_type, fields@[i].inner_type)
            },
        b.build_op.result_name == record_name,
        b.build_op.mandatory@ == mandatory_names(fields@),
{
    let builder_name = record_name.clone().concat("Builder");
    let mut slots: Vec<SlotDecl> = Vec::new();
    let mut setters: Vec<SetterDecl> = Vec::new();
    let mut mandatory: Vec<String> = Vec::new();
    let ghost orig = fields@;
    let mut rest = fields;
    while rest.len() > 0
        invariant
            slots@.len() + rest@.len() == orig.len(),
            setters@.len() == slots@.len(),
            rest@ == orig.skip(slots@.len() as int),
            forall|i: int|
                0 <= i < slots@.len() ==> {
                    &&& (#[trigger] slots@[i]).name == orig[i].name
                    &&& optional_slot(slots@[i].slot_type, orig[i].inner_type)
                    &&& setters@[i].name == orig[i].name
                    &&& type_eq(setters@[i].arg_type, orig[i].inner_type)
                },
            mandatory@ == mandatory_names(orig.take(slots@.len() as int)),
        decreases rest@.len(),
    {
        let ghost k = slots@.len() as int;
        let f = rest.remove(0);
        proof {
            assert(f == orig[k]);
            assert(rest@ =~= orig.skip(k + 1));
        }
        let FieldInfo { name, is_mandatory, inner_type } = f;
        if is_mandatory {
            mandatory.push(name.clone());
        }
        let arg_type = inner_type.clone();
        slots.push(SlotDecl { name: name.clone(), slot_type: wrap_optional(inner_type) });
        setters.push(SetterDecl { name, arg_type });
        proof {
            let t = orig.take(k + 1);
            assert(t.drop_last() =~= orig.take(k));
            assert(t.last() == orig[k]);
            assert(mandatory@ == mandatory_names(orig.take(k + 1)));
        }
    }
    proof {
        assert(orig.take(orig.len() as int) =~= orig);
    }
    let result_name = record_name.clone();
    BuilderDescription {
        record_name,
        builder_name,
        slots,
        setters,
        build_op: BuildOp { result_name, mandatory },
    }
}

/// Derives the full builder description for a described record type:
/// classification of every field followed by synthesis of the builder.
///
/// Succeeds exactly on descriptions of product types with a non-empty, named
/// field list whose declared types all have a recognizable form; the errors
/// are those of classification.
pub fn derive(record: RecordDescription) -> (r: Result<BuilderDescription, GenError>)
    ensures
        classifiable(record.data) <==> r is Ok,
        match r {
            Ok(b) => {
                &&& record.data matches RecordData::Named { fields }
                &&& b.record_name == record.name
                &&& b.builder_name@ == record.name@ + "Builder"@
                &&& b.slots@.len() == fields@.len()
                &&& b.setters@.len() == fields@.len()
                &&& forall|i: int|
                    0 <= i < fields@.len() ==> {
                        &&& (#[trigger] b.slots@[i]).name == fields@[i].name
                        &&& optional_slot(b.slots@[i].slot_type, fields@[i].ty.setter_inner())
                        &&& b.setters@[i].name == fields@[i].name
                        &&& type_eq(b.setters@[i].arg_type, fields@[i].ty.setter_inner())
                    }
                &&& b.build_op.result_name == record.name
                &&& b.build_op.mandatory@ == mandatory_names(
                    fields@.map_values(|d: FieldDecl| spec_classify_one(d)),
                )
            },
            Err(e) => match e {
                GenError::NotAStruct => record.data is Other,
                GenError::FieldsNotNamed => record.data is Unnamed || record.data is Unit,
                GenError::EmptyFieldList => {
                    &&& record.data matches RecordData::Named { fields }
                    &&& fields@.len() == 0
                },
                GenError::UnsupportedFieldType { field } => {
                    &&& record.data matches RecordData::Named { fields }
                    &&& exists|i: int|
                        {
                            &&& 0 <= i < fields@.len()
                            &&& !((#[trigger] fields@[i].ty) is Path)
                            &&& field == fields@[i].name
                            &&& forall|j: int| 0 <= j < i ==> (#[trigger] fields@[j].ty) is Path
                        }
                },
            },
        },
{
    let record_name = record.name.clone();
    let ghost data = record.data;
    let infos = match classify(record) {
        Ok(infos) => infos,
        Err(e) => {
            return Err(e);
        }
    };
    proof {
        let fields = data->fields@;
        assert(infos@ =~= fields.map_values(|d: FieldDecl| spec_classify_one(d)));
    }
    Ok(synthesize(record_name, infos))
}

/// The slots of a derived builder description carry exactly the field names
/// of the classified record, in declaration order and as a set: construction
/// can read every field back by name.
pub proof fn lemma_description_preserves_names(fields: Seq<FieldInfo>, slots: Seq<SlotDecl>)
    requires
        slots.len() == fields.len(),
        forall|i: int| 0 <= i < fields.len() ==> (#[trigger] slots[i]).name == fields[i].name,
    ensures
        slots.map_values(|s: SlotDecl| s.name) == fields.map_values(|f: FieldInfo| f.name),
        slots.map_values(|s: SlotDecl| s.name).to_set() == fields.map_values(
            |f: FieldInfo| f.name,
        ).to_set(),
{
    let a = slots.map_values(|s: SlotDecl| s.name);
    let b = fields.map_values(|f: FieldInfo| f.name);
    assert(a =~= b);
}

/// Builder-type name isolation: distinct record names always yield distinct
/// derived builder names, since appending the same suffix to two sequences
/// preserves their inequality.
pub proof fn lemma_builder_name_isolation(a: Seq<char>, b: Seq<char>)
    requires
        a != b,
    ensures
        a + "Builder"@ != b + "Builder"@,
{
    let s = "Builder"@;
    if a + s == b + s {
        assert((a + s).len() == a.len() + s.len());
        assert((b + s).len() == b.len() + s.len());
        assert(a.len() == b.len());
        assert forall|i: int| 0 <= i < a.len() implies a[i] == b[i] by {
            assert((a + s)[i] == a[i]);
            assert((b + s)[i] == b[i]);
        }
        assert(a =~= b);
    }
}

} // verus!
