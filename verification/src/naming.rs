//! Method naming: a variant's identifier is normalized to a lower-case,
//! underscore-separated word sequence and prefixed with `is_`. The word
//! splitting itself is delegated to an external text-transformation rule
//! set; this module only fixes how the normalized name becomes a method
//! name.

use vstd::prelude::*;
use vstd::string::StringExecFns;
use convert_case::Casing;

verus! {

/// The snake-case normalization of an identifier, as the external
/// text-transformation rule set defines it: a function of the characters
/// alone.
pub uninterp spec fn snake_of(s: Seq<char>) -> Seq<char>;

/// Relies on convert_case's `Casing::to_case` with the snake-case target:
/// it splits the identifier at word boundaries, joins the words with
/// underscores and lower-cases them, and its result depends on the input
/// characters alone.
#[verifier::external_body]
fn to_snake_case(s: &str) -> (r: String)
    ensures
        r@ == snake_of(s@),
{
    s.to_case(convert_case::Case::Snake)
}

/// The name of the predicate method generated for a variant with the given
/// identifier.
pub open spec fn method_name_spec(variant: Seq<char>) -> Seq<char> {
    "is_"@ + snake_of(variant)
}

/// Builds the generated method's name: `is_` followed by the snake-case
/// normalization of the variant's identifier.
pub fn method_name(variant: &str) -> (r: String)
    ensures
        r@ == method_name_spec(variant@),
{
    let snake = to_snake_case(variant);
    let prefix = String::from_str("is_");
    prefix.concat(snake.as_str())
}

} // verus!
