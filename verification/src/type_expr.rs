//! Structural descriptions of declared field types.
//!
//! The classifier only has to recognize one shape — the single-level optional
//! wrapper `Option<T>` — so a declared type is kept as a path: the list of its
//! segment names and, when the path carries exactly one type argument, that
//! argument. Every other shape is an opaque leaf.

use vstd::prelude::*;

verus! {

/// Structural description of a declared type: a path-like reference,
/// possibly carrying a single type argument, or a form the reader of the
/// record declaration could not interpret at all.
#[derive(Debug)]
pub enum TypeExpr {
    /// A path such as `Option<String>`: the names of its segments, in order,
    /// and the path's single type argument where it has exactly one.
    Path { segments: Vec<String>, arg: Option<Box<TypeExpr>> },
    /// A declared type of no recognizable structural form.
    Unsupported,
}

impl TypeExpr {
    /// The leading path segment names the optional wrapper. Purely
    /// syntactic: aliases are not resolved, and only the first segment is
    /// consulted, so `std::option::Option` does not count as optional.
    pub open spec fn optional_headed(self) -> bool {
        &&& self matches TypeExpr::Path { segments, .. }
        &&& segments@.len() > 0
        &&& segments@[0]@ == "Option"@
    }

    /// The declared type is a well-formed single-level optional wrapper:
    /// headed by the wrapper's name and carrying exactly one type argument.
    pub open spec fn is_optional_wrapper(self) -> bool {
        &&& self.optional_headed()
        &&& self->arg is Some
    }

    /// The type an argument to the field's setter must have: the wrapped
    /// payload for a well-formed optional wrapper, the declared type itself
    /// otherwise (a malformed wrapper falls back to the declared type).
    pub open spec fn setter_inner(self) -> TypeExpr {
        if self.is_optional_wrapper() {
            *self->arg->0
        } else {
            self
        }
    }
}

/// Structural equality of two type descriptions: same shape, segment names
/// equal as strings, and structurally equal type arguments.
pub open spec fn type_eq(a: TypeExpr, b: TypeExpr) -> bool
    decreases a,
{
    match (a, b) {
        (
            TypeExpr::Path { segments: sa, arg: aa },
            TypeExpr::Path { segments: sb, arg: ab },
        ) => {
            &&& sa@ == sb@
            &&& match (aa, ab) {
                (Option::None, Option::None) => true,
                (Option::Some(ba), Option::Some(bb)) => type_eq(*ba, *bb),
                _ => false,
            }
        }
        (TypeExpr::Unsupported, TypeExpr::Unsupported) => true,
        _ => false,
    }
}

/// Duplicates a vector of strings, preserving each element exactly.
pub(crate) fn clone_strings(v: &Vec<String>) -> (r: Vec<String>)
    ensures
        r@ == v@,
{
    let mut r: Vec<String> = Vec::new();
    let mut i: usize = 0;
    while i < v.len()
        invariant
            i <= v@.len(),
            r@.len() == i as int,
            forall|j: int| 0 <= j < i ==> r@[j] == v@[j],
        decreases v@.len() - i,
    {
        r.push(v[i].clone());
        i = i + 1;
    }
    proof {
        assert(r@ =~= v@);
    }
    r
}

impl Clone for TypeExpr {
    /// Structural duplicate of the description.
    fn clone(&self) -> (res: Self)
        ensures
            type_eq(res, *self),
        decreases *self,
    {
        match self {
            TypeExpr::Path { segments, arg } => {
                let new_arg: Option<Box<TypeExpr>> = match arg {
                    Option::Some(b) => Option::Some(Box::new((**b).clone())),
                    Option::None => Option::None,
                };
                TypeExpr::Path { segments: clone_strings(segments), arg: new_arg }
            }
            TypeExpr::Unsupported => TypeExpr::Unsupported,
        }
    }
}

} // verus!
