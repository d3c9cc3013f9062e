//! The field classifier: walks the ordered field list of a record description
//! and derives, per field, whether the field is mandatory and which type its
//! setter takes.

use vstd::prelude::*;
use vstd::string::StringExecFns;
use crate::record::{FieldDecl, FieldInfo, GenError, RecordData, RecordDescription};
use crate::type_expr::TypeExpr;

verus! {

/// A record description that classification accepts: a product type with a
/// non-empty, named field list, each field's declared type of a recognizable
/// structural form.
pub open spec fn classifiable(data: RecordData) -> bool {
    &&& data matches RecordData::Named { fields }
    &&& fields@.len() > 0
    &&& forall|i: int| 0 <= i < fields@.len() ==> (#[trigger] fields@[i].ty) is Path
}

/// The classification of one declared field, as a relation between the
/// declaration and the derived information.
pub open spec fn classified(decl: FieldDecl, info: FieldInfo) -> bool {
    &&& info.name == decl.name
    &&& info.is_mandatory == !decl.ty.is_optional_wrapper()
    &&& info.inner_type == decl.ty.setter_inner()
}

/// Classification yields exactly one derived record per input field, in
/// declaration order, and so preserves the record's field name set exactly.
pub proof fn lemma_classify_preserves_names(fields: Seq<FieldDecl>, infos: Seq<FieldInfo>)
    requires
        infos.len() == fields.len(),
        forall|i: int| 0 <= i < fields.len() ==> classified(fields[i], #[trigger] infos[i]),
    ensures
        infos.map_values(|f: FieldInfo| f.name) == fields.map_values(|d: FieldDecl| d.name),
        infos.map_values(|f: FieldInfo| f.name).to_set() == fields.map_values(
            |d: FieldDecl| d.name,
        ).to_set(),
{
    let a = infos.map_values(|f: FieldInfo| f.name);
    let b = fields.map_values(|d: FieldDecl| d.name);
    assert(a =~= b);
}

/// Classifies every field of the described record, in declaration order.
///
/// Succeeds exactly on descriptions of product types with a non-empty, named
/// field list whose declared types all have a recognizable form; any other
/// shape is a usage error, reported at once.
pub fn classify(record: RecordDescription) -> (r: Result<Vec<FieldInfo>, GenError>)
    ensures
        classifiable(record.data) <==> r is Ok,
        match r {
            Ok(infos) => {
                &&& record.data matches RecordData::Named { fields }
                &&& infos@.len() == fields@.len()
                &&& forall|i: int|
                    0 <= i < fields@.len() ==> classified(fields@[i], #[trigger] infos@[i])
            },
            Err(e) => match e {
                GenError::NotAStruct => record.data is Other,
                GenError::FieldsNotNamed => record.data is Unnamed || record.data is Unit,
                GenError::EmptyFieldList => {
                    &&& record.data matches RecordData::Named { fields }
                    &&& fields@.len() == 0
                },
                GenError::UnsupportedFieldType { field } => {
                    &&& record.data matches RecordData::Named { fields }
                    &&& exists|i: int|
                        {
                            &&& 0 <= i < fields@.len()
                            &&& !((#[trigger] fields@[i].ty) is Path)
                            &&& field == fields@[i].name
                            &&& forall|j: int| 0 <= j < i ==> (#[trigger] fields@[j].ty) is Path
                        }
                },
            },
        },
{
    let fields = match record.data {
        RecordData::Named { fields } => fields,
        RecordData::Unnamed => {
            return Err(GenError::FieldsNotNamed);
        }
        RecordData::Unit => {
            return Err(GenError::FieldsNotNamed);
        }
        RecordData::Other => {
            return Err(GenError::NotAStruct);
        }
    };
    if fields.len() == 0 {
        return Err(GenError::EmptyFieldList);
    }
    let option_name = String::from_str("Option");
    let ghost orig = fields@;
    let mut rest = fields;
    let mut infos: Vec<FieldInfo> = Vec::new();
    while rest.len() > 0
        invariant
            record.data is Named,
            record.data->fields@ == orig,
            orig.len() > 0,
            infos@.len() + rest@.len() == orig.len(),
            rest@ == orig.skip(infos@.len() as int),
            option_name@ == "Option"@,
            forall|i: int| 0 <= i < infos@.len() ==> classified(orig[i], #[trigger] infos@[i]),
            forall|i: int| 0 <= i < infos@.len() ==> (#[trigger] orig[i].ty) is Path,
        decreases rest@.len(),
    {
        let ghost k = infos@.len() as int;
        let f = rest.remove(0);
        proof {
            assert(f == orig[k]);
            assert(rest@ =~= orig.skip(k + 1));
        }
        let FieldDecl { name, ty } = f;
        match ty {
            TypeExpr::Unsupported => {
                proof {
                    assert(record.data is Named);
                    assert(record.data->fields@ == orig);
                    assert(0 <= k < orig.len());
                    assert(!(orig[k].ty is Path));
                    assert(name == orig[k].name);
                    assert(!classifiable(record.data));
                }
                return Err(GenError::UnsupportedFieldType { field: name });
            }
            TypeExpr::Path { segments, arg } => {
                let optional_headed = segments.len() > 0 && segments[0] == option_name;
                if optional_headed && arg.is_some() {
                    let inner = *arg.unwrap();
                    infos.push(FieldInfo { name, is_mandatory: false, inner_type: inner });
                } else {
                    let declared = TypeExpr::Path { segments, arg };
                    proof {
                        assert(declared == orig[k].ty);
                    }
                    infos.push(FieldInfo { name, is_mandatory: true, inner_type: declared });
                }
            }
        }
    }
    proof {
        assert(infos@.len() == orig.len());
    }
    Ok(infos)
}

} // verus!
