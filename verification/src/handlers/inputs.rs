//! What was typed into a form.

use vstd::prelude::*;

use crate::text::{opt_view, own_opt, same, trim, trimmed};

verus! {

/// One input of a form that was sent.
#[derive(Debug)]
pub struct TypedInput {
    /// What the input is known by.
    pub custom_id: String,
    /// What was typed.
    pub value: Option<String>,
}

/// What was typed into the first input with an id, from `from` on.
pub open spec fn typed_from(inputs: Seq<TypedInput>, id: Seq<char>, from: int) -> Option<Seq<char>>
    decreases inputs.len() - from,
{
    if from < 0 || from >= inputs.len() {
        None
    } else if inputs[from].custom_id@ == id {
        opt_view(inputs[from].value)
    } else {
        typed_from(inputs, id, from + 1)
    }
}

/// What was typed into the first input with an id.
pub open spec fn typed(inputs: Seq<TypedInput>, id: Seq<char>) -> Option<Seq<char>> {
    typed_from(inputs, id, 0)
}

/// What was typed into the first input with an id.
pub fn extract_input(inputs: &Vec<TypedInput>, custom_id: &str) -> (r: Option<String>)
    ensures
        opt_view(r) == typed(inputs@, custom_id@),
{
    let mut i: usize = 0;
    while i < inputs.len()
        invariant
            i <= inputs@.len(),
            typed(inputs@, custom_id@) == typed_from(inputs@, custom_id@, i as int),
        decreases inputs@.len() - i,
    {
        if same(&inputs[i].custom_id, custom_id) {
            return own_opt(&inputs[i].value);
        }
        i = i + 1;
    }
    None
}

/// What was typed into an input, or nothing.
pub open spec fn typed_text(inputs: Seq<TypedInput>, id: Seq<char>) -> Seq<char> {
    match typed(inputs, id) {
        Some(t) => t,
        None => Seq::empty(),
    }
}

/// What was typed into an input, or nothing.
pub fn input_text(inputs: &Vec<TypedInput>, custom_id: &str) -> (r: String)
    ensures
        r@ == typed_text(inputs@, custom_id@),
{
    match extract_input(inputs, custom_id) {
        Some(t) => t,
        None => String::new(),
    }
}

/// What was typed into an input, without white space around it, unless that is
/// nothing.
pub open spec fn typed_value(inputs: Seq<TypedInput>, id: Seq<char>) -> Option<Seq<char>> {
    let t = trimmed(typed_text(inputs, id));
    if t.len() == 0 {
        None
    } else {
        Some(t)
    }
}

/// What was typed into an input, without white space around it, unless that is
/// nothing.
pub fn input_value(inputs: &Vec<TypedInput>, custom_id: &str) -> (r: Option<String>)
    ensures
        opt_view(r) == typed_value(inputs@, custom_id@),
{
    let t = trim(&input_text(inputs, custom_id));
    if t.as_str().is_empty() {
        None
    } else {
        Some(t)
    }
}

/// What counts of an input is what stands in the first input with its id: an id that no
/// input has gives nothing, and later inputs with the same id do not matter.
pub proof fn the_first_input_counts(inputs: Seq<TypedInput>, id: Seq<char>, i: int)
    ensures
        (forall|k: int| 0 <= k < inputs.len() ==> (#[trigger] inputs[k]).custom_id@ != id) ==> typed(
            inputs,
            id,
        ) is None,
        0 <= i < inputs.len() && inputs[i].custom_id@ == id && (forall|k: int|
            0 <= k < i ==> (#[trigger] inputs[k]).custom_id@ != id) ==> typed(inputs, id) == (
        match inputs[i].value {
            Some(t) => Some(t@),
            None => None,
        }),
{
    typed_from_is_first(inputs, id, 0, i);
}

proof fn typed_from_is_first(inputs: Seq<TypedInput>, id: Seq<char>, from: int, i: int)
    requires
        0 <= from,
    ensures
        (forall|k: int| from <= k < inputs.len() ==> (#[trigger] inputs[k]).custom_id@ != id)
            ==> typed_from(inputs, id, from) is None,
        from <= i < inputs.len() && inputs[i].custom_id@ == id && (forall|k: int|
            from <= k < i ==> (#[trigger] inputs[k]).custom_id@ != id) ==> typed_from(
            inputs,
            id,
            from,
        ) == (match inputs[i].value {
            Some(t) => Some(t@),
            None => None,
        }),
    decreases inputs.len() - from,
{
    if from < inputs.len() {
        typed_from_is_first(inputs, id, from + 1, i);
    }
}

/// A value is what was typed without the white space around it, and there is one
/// exactly where something else than white space was typed.
pub proof fn values_are_what_was_typed(inputs: Seq<TypedInput>, id: Seq<char>)
    ensures
        typed(inputs, id) is None ==> typed_text(inputs, id).len() == 0,
        typed(inputs, id) matches Some(t) ==> typed_text(inputs, id) == t,
        typed_value(inputs, id) is Some <==> trimmed(typed_text(inputs, id)).len() > 0,
        typed_value(inputs, id) is Some ==> typed_value(inputs, id) == Some(
            trimmed(typed_text(inputs, id)),
        ),
{
}

} // verus!
