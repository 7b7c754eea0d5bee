use vstd::prelude::*;
use vstd::std_specs::vec::axiom_vec_index_decreases;
use vstd::string::StrSliceExecFns;

verus! {

/// A JSON number as the template engine holds it. A float is held by its bit
/// pattern; negative zero is written as positive zero, since the two compare
/// equal.
#[derive(Clone, Copy, Debug, PartialEq, Eq, Structural)]
pub enum JsonNumber {
    PosInt(u64),
    NegInt(i64),
    Float(u64),
}

/// A JSON value as the template engine holds it.
#[derive(Debug)]
pub enum JsonValue {
    Null,
    Bool(bool),
    Number(JsonNumber),
    String(String),
    Array(Vec<JsonValue>),
    /// Members in ascending order of their keys, which are distinct: the
    /// order in which the engine's maps hand them out.
    Object(Vec<(String, JsonValue)>),
}

/// Structural equality of JSON values: scalars by value, arrays element by
/// element, objects member by member. Members come in key order, so two
/// objects with the same keys and equal values line up.
pub open spec fn json_equal(a: JsonValue, b: JsonValue) -> bool
    decreases a,
{
    match a {
        JsonValue::Null => b is Null,
        JsonValue::Bool(x) => b matches JsonValue::Bool(y) && x == y,
        JsonValue::Number(x) => b matches JsonValue::Number(y) && x == y,
        JsonValue::String(x) => b matches JsonValue::String(y) && x@ == y@,
        JsonValue::Array(xs) => b matches JsonValue::Array(ys) && xs.len() == ys.len() && forall|
            i: int,
        |
            0 <= i < xs.len() ==> json_equal(#[trigger] xs@[i], ys@[i]),
        JsonValue::Object(xs) => b matches JsonValue::Object(ys) && xs.len() == ys.len()
            && forall|i: int|
            0 <= i < xs.len() ==> (#[trigger] xs@[i]).0@ == ys@[i].0@ && json_equal(
                xs@[i].1,
                ys@[i].1,
            ),
    }
}

/// Structural equality of two JSON values.
pub fn json_eq(a: &JsonValue, b: &JsonValue) -> (r: bool)
    ensures
        r == json_equal(*a, *b),
    decreases a,
{
    match (a, b) {
        (JsonValue::Null, JsonValue::Null) => true,
        (JsonValue::Bool(x), JsonValue::Bool(y)) => *x == *y,
        (JsonValue::Number(x), JsonValue::Number(y)) => *x == *y,
        (JsonValue::String(x), JsonValue::String(y)) => *x == *y,
        (JsonValue::Array(xs), JsonValue::Array(ys)) => {
            if xs.len() != ys.len() {
                return false;
            }
            let mut i: usize = 0;
            while i < xs.len()
                invariant
                    i <= xs.len() == ys.len(),
                    *a == JsonValue::Array(*xs),
                    *b == JsonValue::Array(*ys),
                    forall|k: int| 0 <= k < i ==> json_equal(#[trigger] xs@[k], ys@[k]),
                decreases xs.len() - i,
            {
                proof {
                    axiom_vec_index_decreases(*xs, i as int);
                    assert(decreases_to!(*a => (*a)->Array_0));
                }
                if !json_eq(&xs[i], &ys[i]) {
                    return false;
                }
                i = i + 1;
            }
            true
        },
        (JsonValue::Object(xs), JsonValue::Object(ys)) => {
            if xs.len() != ys.len() {
                return false;
            }
            let mut i: usize = 0;
            while i < xs.len()
                invariant
                    i <= xs.len() == ys.len(),
                    *a == JsonValue::Object(*xs),
                    *b == JsonValue::Object(*ys),
                    forall|k: int|
                        0 <= k < i ==> (#[trigger] xs@[k]).0@ == ys@[k].0@ && json_equal(
                            xs@[k].1,
                            ys@[k].1,
                        ),
                decreases xs.len() - i,
            {
                proof {
                    axiom_vec_index_decreases(*xs, i as int);
                    assert(decreases_to!(*a => (*a)->Object_0));
                    assert(decreases_to!(xs@[i as int] => xs@[i as int].1));
                }
                if !(xs[i].0 == ys[i].0 && json_eq(&xs[i].1, &ys[i].1)) {
                    return false;
                }
                i = i + 1;
            }
            true
        },
        _ => false,
    }
}

/// Some element of `xs` equals `needle` structurally.
pub open spec fn array_holds(xs: Seq<JsonValue>, needle: JsonValue) -> bool {
    exists|i: int| 0 <= i < xs.len() && json_equal(#[trigger] xs[i], needle)
}

/// Whether some element of `xs` equals `needle` structurally.
pub fn array_contains(xs: &Vec<JsonValue>, needle: &JsonValue) -> (r: bool)
    ensures
        r == array_holds(xs@, *needle),
{
    let mut i: usize = 0;
    while i < xs.len()
        invariant
            i <= xs.len(),
            forall|k: int| 0 <= k < i ==> !json_equal(#[trigger] xs@[k], *needle),
        decreases xs.len() - i,
    {
        if json_eq(&xs[i], needle) {
            return true;
        }
        i = i + 1;
    }
    false
}

/// Which block of a block helper to render.
#[derive(Clone, Copy, Debug, PartialEq, Eq, Structural)]
pub enum Branch {
    /// The inner block.
    Positive,
    /// The `else` block.
    Inverse,
}

/// How a call of the `contains` helper was malformed.
#[derive(Clone, Copy, Debug, PartialEq, Eq, Structural)]
pub enum HelperError {
    /// The first parameter is missing.
    NoArray,
    /// The first parameter is not an array.
    NotAnArray,
    /// The second parameter is missing.
    NoNeedle,
}

/// The message that the template engine reports for each error.
pub open spec fn helper_message(e: HelperError) -> Seq<char> {
    match e {
        HelperError::NoArray => "No array given"@,
        HelperError::NotAnArray => "First param should be an array"@,
        HelperError::NoNeedle => "No needle given"@,
    }
}

impl HelperError {
    /// The message that the template engine reports.
    pub fn message(&self) -> (r: String)
        ensures
            r@ == helper_message(*self),
    {
        match self {
            HelperError::NoArray => String::from_str("No array given"),
            HelperError::NotAnArray => String::from_str("First param should be an array"),
            HelperError::NoNeedle => String::from_str("No needle given"),
        }
    }
}

/// What `{{#contains array needle}}` does with its two parameters: the
/// parameters are checked in order, and a well-formed call renders the inner
/// block when the array holds the needle and the `else` block otherwise.
pub open spec fn contains_outcome(array: Option<JsonValue>, needle: Option<JsonValue>) -> Result<
    Branch,
    HelperError,
> {
    match array {
        None => Err(HelperError::NoArray),
        Some(JsonValue::Array(xs)) => match needle {
            None => Err(HelperError::NoNeedle),
            Some(v) => Ok(
                if array_holds(xs@, v) {
                    Branch::Positive
                } else {
                    Branch::Inverse
                },
            ),
        },
        Some(_) => Err(HelperError::NotAnArray),
    }
}

/// The parameter behind an optional reference.
pub open spec fn deref_param(p: Option<&JsonValue>) -> Option<JsonValue> {
    match p {
        Some(v) => Some(*v),
        None => None,
    }
}

/// The decision of the `contains` block helper, from its first two
/// parameters (each absent when the template did not give it).
pub fn contains(array: Option<&JsonValue>, needle: Option<&JsonValue>) -> (r: Result<
    Branch,
    HelperError,
>)
    ensures
        r == contains_outcome(deref_param(array), deref_param(needle)),
{
    match array {
        None => Err(HelperError::NoArray),
        Some(JsonValue::Array(xs)) => match needle {
            None => Err(HelperError::NoNeedle),
            Some(v) => {
                if array_contains(xs, v) {
                    Ok(Branch::Positive)
                } else {
                    Ok(Branch::Inverse)
                }
            },
        },
        Some(_) => Err(HelperError::NotAnArray),
    }
}

/// The block to render for a branch; none when the template has no such
/// block, which renders as nothing.
pub fn pick_block<T>(branch: Branch, template: Option<T>, inverse: Option<T>) -> (r: Option<T>)
    ensures
        branch == Branch::Positive ==> r == template,
        branch == Branch::Inverse ==> r == inverse,
{
    match branch {
        Branch::Positive => template,
        Branch::Inverse => inverse,
    }
}

/// Every JSON value equals itself.
pub proof fn lemma_json_equal_reflexive(a: JsonValue)
    ensures
        json_equal(a, a),
    decreases a,
{
    match a {
        JsonValue::Array(xs) => {
            assert forall|i: int| 0 <= i < xs.len() implies json_equal(#[trigger] xs@[i], xs@[i]) by {
                axiom_vec_index_decreases(xs, i);
                lemma_json_equal_reflexive(xs@[i]);
            }
        },
        JsonValue::Object(xs) => {
            assert forall|i: int| 0 <= i < xs.len() implies (#[trigger] xs@[i]).0@ == xs@[i].0@
                && json_equal(xs@[i].1, xs@[i].1) by {
                axiom_vec_index_decreases(xs, i);
                assert(decreases_to!(xs@[i] => xs@[i].1));
                lemma_json_equal_reflexive(xs@[i].1);
            }
        },
        _ => {},
    }
}

/// The helper takes the inner block exactly when the array holds the needle
/// and the `else` block otherwise; any element of the array is held.
pub proof fn lemma_contains_truth_table(xs: Vec<JsonValue>, needle: JsonValue, i: int)
    ensures
        contains_outcome(Some(JsonValue::Array(xs)), Some(needle)) == Ok::<Branch, HelperError>(
            Branch::Positive,
        ) <==> array_holds(xs@, needle),
        contains_outcome(Some(JsonValue::Array(xs)), Some(needle)) == Ok::<Branch, HelperError>(
            Branch::Inverse,
        ) <==> !array_holds(xs@, needle),
        0 <= i < xs.len() ==> contains_outcome(Some(JsonValue::Array(xs)), Some(xs@[i])) == Ok::<
            Branch,
            HelperError,
        >(Branch::Positive),
{
    if 0 <= i < xs.len() {
        lemma_json_equal_reflexive(xs@[i]);
    }
}

/// A malformed call fails with its error: a missing array first, then an
/// array parameter that is not an array, then a missing needle.
pub proof fn lemma_contains_validation(array: JsonValue, needle: Option<JsonValue>)
    ensures
        contains_outcome(None, needle) == Err::<Branch, HelperError>(HelperError::NoArray),
        !(array is Array) ==> contains_outcome(Some(array), needle) == Err::<Branch, HelperError>(
            HelperError::NotAnArray,
        ),
        array is Array ==> contains_outcome(Some(array), None) == Err::<Branch, HelperError>(
            HelperError::NoNeedle,
        ),
{
}

} // verus!
