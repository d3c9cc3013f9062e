//! The emission step: renders a derived builder description back to
//! source-like text — the builder type's declaration, one setter signature
//! per field, and the construction operation's signature.
//!
//! Emission is kept separate from derivation: it consumes a finished
//! `BuilderDescription` and only concatenates text, character for character
//! as the specification functions here state.

use vstd::prelude::*;
use vstd::string::StringExecFns;
use crate::synth::{BuilderDescription, SetterDecl, SlotDecl};
use crate::type_expr::TypeExpr;

verus! {

/// The text of a path's segment names, separated by `::`.
pub open spec fn spec_join(names: Seq<String>) -> Seq<char>
    decreases names.len(),
{
    if names.len() == 0 {
        Seq::empty()
    } else if names.len() == 1 {
        names[0]@
    } else {
        spec_join(names.drop_last()) + "::"@ + names.last()@
    }
}

/// The text of a structural type description: the joined path, with the type
/// argument, where there is one, in angle brackets. A form with no
/// recognizable structure has no rendering.
pub open spec fn spec_render(t: TypeExpr) -> Seq<char>
    decreases t,
{
    match t {
        TypeExpr::Path { segments, arg } => spec_join(segments@) + (match arg {
            Option::Some(b) => "<"@ + spec_render(*b) + ">"@,
            Option::None => Seq::<char>::empty(),
        }),
        TypeExpr::Unsupported => Seq::empty(),
    }
}

/// One declaration line per slot: the field's name and the slot's type.
pub open spec fn spec_slot_lines(slots: Seq<SlotDecl>) -> Seq<char>
    decreases slots.len(),
{
    if slots.len() == 0 {
        Seq::empty()
    } else {
        spec_slot_lines(slots.drop_last()) + "    "@ + slots.last().name@ + ": "@ + spec_render(
            slots.last().slot_type,
        ) + ",\n"@
    }
}

/// One signature line per setter: named after the field, taking the field's
/// inner type, returning the builder for chaining.
pub open spec fn spec_setter_lines(setters: Seq<SetterDecl>) -> Seq<char>
    decreases setters.len(),
{
    if setters.len() == 0 {
        Seq::empty()
    } else {
        spec_setter_lines(setters.drop_last()) + "fn "@ + setters.last().name@ + "(self, val: "@
            + spec_render(setters.last().arg_type) + ") -> Self;\n"@
    }
}

/// The whole emitted text: the builder type's declaration, the accessor on
/// the record type that yields a fresh empty builder, the setter signatures,
/// and the construction operation's signature.
pub open spec fn spec_emit(desc: BuilderDescription) -> Seq<char> {
    "struct "@ + desc.builder_name@ + " {\n"@ + spec_slot_lines(desc.slots@) + "}\n"@
        + "fn builder() -> "@ + desc.builder_name@ + ";\n"@
        + spec_setter_lines(desc.setters@) + "fn build(&self) -> Result<"@
        + desc.build_op.result_name@ + ", BuildError>;\n"@
}

/// Renders a path's segment names, separated by `::`.
fn join_segments(v: &Vec<String>) -> (r: String)
    ensures
        r@ == spec_join(v@),
{
    let mut out = String::new();
    let mut i: usize = 0;
    while i < v.len()
        invariant
            i <= v@.len(),
            out@ == spec_join(v@.take(i as int)),
        decreases v@.len() - i,
    {
        if i > 0 {
            out.append("::");
        }
        out.append(v[i].as_str());
        proof {
            let t = v@.take(i + 1);
            assert(t.drop_last() =~= v@.take(i as int));
            assert(t.last() == v@[i as int]);
            assert(out@ =~= spec_join(t));
        }
        i = i + 1;
    }
    proof {
        assert(v@.take(v@.len() as int) =~= v@);
    }
    out
}

/// Renders a structural type description to source-like text.
pub fn render_type_expr(t: &TypeExpr) -> (r: String)
    ensures
        r@ == spec_render(*t),
    decreases *t,
{
    match t {
        TypeExpr::Path { segments, arg } => {
            let mut out = join_segments(segments);
            match arg {
                Option::Some(b) => {
                    out.append("<");
                    let inner = render_type_expr(&**b);
                    out.append(inner.as_str());
                    out.append(">");
                    proof {
                        assert(out@ =~= spec_render(*t));
                    }
                }
                Option::None => {
                    proof {
                        assert(out@ =~= spec_render(*t));
                    }
                }
            }
            out
        }
        TypeExpr::Unsupported => String::new(),
    }
}

/// Emits the declaration text a builder description stands for: the builder
/// type with its optionally-typed slots, the setter signatures, and the
/// construction operation's signature.
pub fn emit(desc: &BuilderDescription) -> (r: String)
    ensures
        r@ == spec_emit(*desc),
{
    let mut out = String::from_str("struct ");
    out.append(desc.builder_name.as_str());
    out.append(" {\n");
    let ghost header = out@;
    let mut i: usize = 0;
    while i < desc.slots.len()
        invariant
            i <= desc.slots@.len(),
            header == "struct "@ + desc.builder_name@ + " {\n"@,
            out@ == header + spec_slot_lines(desc.slots@.take(i as int)),
        decreases desc.slots@.len() - i,
    {
        out.append("    ");
        out.append(desc.slots[i].name.as_str());
        out.append(": ");
        let t = render_type_expr(&desc.slots[i].slot_type);
        out.append(t.as_str());
        out.append(",\n");
        proof {
            let s = desc.slots@.take(i + 1);
            assert(s.drop_last() =~= desc.slots@.take(i as int));
            assert(s.last() == desc.slots@[i as int]);
            assert(out@ =~= header + spec_slot_lines(s));
        }
        i = i + 1;
    }
    proof {
        assert(desc.slots@.take(desc.slots@.len() as int) =~= desc.slots@);
    }
    out.append("}\n");
    out.append("fn builder() -> ");
    out.append(desc.builder_name.as_str());
    out.append(";\n");
    let ghost mid = out@;
    let mut k: usize = 0;
    while k < desc.setters.len()
        invariant
            k <= desc.setters@.len(),
            mid == "struct "@ + desc.builder_name@ + " {\n"@ + spec_slot_lines(desc.slots@)
                + "}\n"@ + "fn builder() -> "@ + desc.builder_name@ + ";\n"@,
            out@ == mid + spec_setter_lines(desc.setters@.take(k as int)),
        decreases desc.setters@.len() - k,
    {
        out.append("fn ");
        out.append(desc.setters[k].name.as_str());
        out.append("(self, val: ");
        let t = render_type_expr(&desc.setters[k].arg_type);
        out.append(t.as_str());
        out.append(") -> Self;\n");
        proof {
            let s = desc.setters@.take(k + 1);
            assert(s.drop_last() =~= desc.setters@.take(k as int));
            assert(s.last() == desc.setters@[k as int]);
            assert(out@ =~= mid + spec_setter_lines(s));
        }
        k = k + 1;
    }
    proof {
        assert(desc.setters@.take(desc.setters@.len() as int) =~= desc.setters@);
    }
    out.append("fn build(&self) -> Result<");
    out.append(desc.build_op.result_name.as_str());
    out.append(", BuildError>;\n");
    proof {
        assert(out@ =~= spec_emit(*desc));
    }
    out
}

} // verus!
