//! The shapes an attribute's value list can take, and which shapes a given
//! option accepts.

use vstd::prelude::*;

verus! {

/// The form of an attribute: a bare name, a name with one value, a list, or
/// a list of exactly one element.
#[derive(Debug, Clone, Copy, PartialEq, Eq, Structural)]
pub enum ValueKind {
    Name,
    Equals,
    List,
    SingleList,
}

fn contains_kind(forms: &Vec<ValueKind>, kind: ValueKind) -> (r: bool)
    ensures
        r == forms@.contains(kind),
{
    let mut i: usize = 0;
    while i < forms.len()
        invariant
            i <= forms@.len(),
            forall|j: int| 0 <= j < i ==> forms@[j] != kind,
        decreases forms@.len() - i,
    {
        if forms[i] == kind {
            proof {
                assert(forms@[i as int] == kind);
            }
            return true;
        }
        i = i + 1;
    }
    false
}

/// Whether a value of form `kind` is acceptable where one of `expect` is
/// asked for: a list of one element is acceptable wherever a list is.
pub fn is_form_acceptable(expect: &Vec<ValueKind>, kind: ValueKind) -> (r: bool)
    ensures
        r == ((expect@.contains(ValueKind::List) && kind == ValueKind::SingleList)
            || expect@.contains(kind)),
{
    if contains_kind(expect, ValueKind::List) && kind == ValueKind::SingleList {
        true
    } else {
        contains_kind(expect, kind)
    }
}

/// The rejection of an attribute whose value is in none of the accepted
/// forms.
#[derive(Debug, Clone, Copy, PartialEq, Eq)]
pub struct UnacceptableForm;

/// Accepts an attribute value exactly when its form is one of `forms`.
pub fn validate(kind: ValueKind, forms: &Vec<ValueKind>) -> (r: Result<(), UnacceptableForm>)
    ensures
        r is Ok <==> ((forms@.contains(ValueKind::List) && kind == ValueKind::SingleList)
            || forms@.contains(kind)),
{
    if is_form_acceptable(forms, kind) {
        Ok(())
    } else {
        Err(UnacceptableForm)
    }
}

} // verus!
