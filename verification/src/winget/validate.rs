//! Validation of package ids and search terms.
use vstd::prelude::*;
use vstd::string::*;

use crate::text::{
    all_white_space, chars_of, is_control, is_control_char, lemma_trim_idempotent,
    lemma_trim_ignores_padding, trim, trim_bounds,
};
use crate::winget::error::WingetError;

verus! {

/// Longest accepted input, in characters, after trimming.
pub const MAX_INPUT_CHARS: usize = 200;

/// Why the input `s` is refused, or `None` when it is accepted. The rules,
/// applied to `s` without surrounding whitespace: it must not be empty, must
/// hold at most 200 characters, and must hold no control character.
pub open spec fn input_problem(s: Seq<char>) -> Option<Seq<char>> {
    let t = trim(s);
    if t.len() == 0 {
        Some("输入为空"@)
    } else if t.len() > MAX_INPUT_CHARS {
        Some("输入超过 200 字符"@)
    } else if exists|i: int| 0 <= i < t.len() && is_control_char(#[trigger] t[i]) {
        Some("输入包含控制字符"@)
    } else {
        None
    }
}

/// Whether `s` passes validation.
pub open spec fn input_is_valid(s: Seq<char>) -> bool {
    input_problem(s) is None
}

/// Validates a package id or search term (shared by the screens and the
/// command layer): `Ok` exactly when [`input_problem`] finds nothing, otherwise
/// `Validation` with its reason.
pub fn validate_package_input(s: &str) -> (r: Result<(), WingetError>)
    ensures
        r is Ok <==> input_problem(s@) is None,
        r matches Err(e) ==> e matches WingetError::Validation(m) && Some(m@) == input_problem(s@),
{
    let v = chars_of(s);
    let (a, b) = trim_bounds(&v);
    let ghost t = trim(s@);
    if a == b {
        return Err(WingetError::Validation(String::from_str("输入为空")));
    }
    if b - a > MAX_INPUT_CHARS {
        return Err(WingetError::Validation(String::from_str("输入超过 200 字符")));
    }
    let mut i: usize = a;
    while i < b
        invariant
            a <= i <= b <= v@.len(),
            t == v@.subrange(a as int, b as int),
            t == trim(s@),
            0 < b - a <= MAX_INPUT_CHARS,
            forall|j: int| 0 <= j < i - a ==> !is_control_char(#[trigger] t[j]),
        decreases b - i,
    {
        if is_control(v[i]) {
            assert(is_control_char(t[i - a]));
            return Err(WingetError::Validation(String::from_str("输入包含控制字符")));
        }
        i = i + 1;
    }
    Ok(())
}

/// Law: validation looks at the trimmed input only, so an input and its
/// trimmed form are accepted or refused alike, for the same reason (the
/// screens validate the trimmed text, the command layer the text it is
/// given).
pub proof fn lemma_validation_of_trimmed(s: Seq<char>)
    ensures
        input_problem(trim(s)) == input_problem(s),
{
    lemma_trim_idempotent(s);
}

/// Law: whitespace around an input does not change whether it is accepted.
pub proof fn lemma_validation_ignores_padding(before: Seq<char>, s: Seq<char>, after: Seq<char>)
    requires
        all_white_space(before),
        all_white_space(after),
    ensures
        input_problem(before + s + after) == input_problem(s),
{
    lemma_trim_ignores_padding(before, s, after);
}

} // verus!
