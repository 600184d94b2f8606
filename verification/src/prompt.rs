//! Prompt templates.

use vstd::prelude::*;

use crate::text::concat;
use crate::text_parts::replaced;
#[allow(unused_imports)]
use crate::text_parts::replace_all;

verus! {

/// `text` with each placeholder `{{name}}` replaced by `value`.
pub open spec fn filled(text: Seq<char>, name: Seq<char>, value: Seq<char>) -> Seq<char> {
    replace_all(text, "{{"@ + name + "}}"@, value)
}

/// Replace each placeholder `{{name}}` in `text` by `value`.
pub fn fill(text: &str, name: &str, value: &str) -> (result: String)
    ensures
        result@ == filled(text@, name@, value@),
{
    let mut placeholder = concat("{{", name);
    placeholder.append("}}");
    proof {
        reveal_strlit("{{");
        assert(placeholder@.len() >= "{{"@.len());
    }
    replaced(text, placeholder.as_str(), value)
}

} // verus!
