use vstd::prelude::*;

use validator::{ValidateLength, ValidateRange};
use vstd::string::*;

verus! {

/// A failed validation rule: the field it concerns and the rule's code.
#[derive(Clone, Debug, PartialEq, Eq)]
pub struct FieldError {
    pub field: String,
    pub code: String,
}

impl View for FieldError {
    type V = (Seq<char>, Seq<char>);

    open spec fn view(&self) -> (Seq<char>, Seq<char>) {
        (self.field@, self.code@)
    }
}

/// The failures of a validation, as (field, code) pairs in field order.
pub open spec fn failures_view(errs: Seq<FieldError>) -> Seq<(Seq<char>, Seq<char>)> {
    errs.map_values(|e: FieldError| e@)
}

/// Whether `value` has between `min` and `max` characters.
pub open spec fn length_within(value: Seq<char>, min: u64, max: u64) -> bool {
    min <= value.len() <= max
}

/// Whether an optional number, when present, lies between `min` and `max`.
pub open spec fn range_within(value: Option<i32>, min: i32, max: i32) -> bool {
    match value {
        Some(v) => min <= v <= max,
        None => true,
    }
}

/// `ValidateLength::validate_length` of the validator crate on a string, with
/// a lower and an upper bound and no exact length: the string's length in
/// characters lies between the bounds.
#[verifier::external_body]
fn validate_length_str(value: &str, min: u64, max: u64) -> (r: bool)
    ensures
        r == length_within(value@, min, max),
{
    value.validate_length(Some(min), Some(max), None)
}

/// `ValidateRange::validate_range` of the validator crate on an optional
/// `i32`, with inclusive bounds only: an absent value passes, a present one
/// passes when it lies between the bounds.
#[verifier::external_body]
fn validate_range_opt_i32(value: Option<i32>, min: i32, max: i32) -> (r: bool)
    ensures
        r == range_within(value, min, max),
{
    value.validate_range(Some(min), Some(max), None, None)
}

/// The failure list of a length rule on a field.
pub open spec fn length_failures(field: Seq<char>, value: Seq<char>, min: u64, max: u64) -> Seq<
    (Seq<char>, Seq<char>),
> {
    if length_within(value, min, max) {
        seq![]
    } else {
        seq![(field, "length"@)]
    }
}

/// The failure list of a length rule on an optional field: an absent value passes.
pub open spec fn opt_length_failures(
    field: Seq<char>,
    value: Option<Seq<char>>,
    min: u64,
    max: u64,
) -> Seq<(Seq<char>, Seq<char>)> {
    match value {
        Some(v) => length_failures(field, v, min, max),
        None => seq![],
    }
}

/// The failure list of a range rule on an optional field.
pub open spec fn range_failures(field: Seq<char>, value: Option<i32>, min: i32, max: i32) -> Seq<
    (Seq<char>, Seq<char>),
> {
    if range_within(value, min, max) {
        seq![]
    } else {
        seq![(field, "range"@)]
    }
}

/// The failure list of the slug rule on a field.
pub open spec fn slug_failures(field: Seq<char>, value: Seq<char>) -> Seq<(Seq<char>, Seq<char>)> {
    if is_slug(value) {
        seq![]
    } else {
        seq![(field, "sluggable"@)]
    }
}

/// The view of an optional string.
pub open spec fn opt_view(value: Option<String>) -> Option<Seq<char>> {
    match value {
        Some(s) => Some(s@),
        None => None,
    }
}

/// A character allowed in a slug: a lowercase ASCII letter or a digit.
pub open spec fn is_slug_word_char(c: char) -> bool {
    ('a' <= c && c <= 'z') || ('0' <= c && c <= '9')
}

/// A slug: words of lowercase ASCII letters and digits joined by single hyphens.
pub open spec fn is_slug(s: Seq<char>) -> bool {
    &&& s.len() > 0
    &&& forall|i: int| 0 <= i < s.len() ==> is_slug_word_char(#[trigger] s[i]) || s[i] == '-'
    &&& s[0] != '-'
    &&& s[s.len() - 1] != '-'
    &&& forall|i: int| 0 <= i < s.len() - 1 ==> !(#[trigger] s[i] == '-' && s[i + 1] == '-')
}

/// Whether `value` is a slug.
pub fn sluggable(value: &str) -> (r: bool)
    ensures
        r == is_slug(value@),
{
    let chars = crate::text::chars_of(value);
    let n = chars.len();
    if n == 0 {
        return false;
    }
    if chars[0] == '-' || chars[n - 1] == '-' {
        return false;
    }
    let mut i: usize = 0;
    while i < n
        invariant
            n == chars@.len(),
            chars@ == value@,
            n > 0,
            chars@[0] != '-',
            chars@[n - 1] != '-',
            i <= n,
            forall|k: int| 0 <= k < i ==> is_slug_word_char(#[trigger] chars@[k]) || chars@[k] == '-',
            forall|k: int| 0 <= k < i && k < n - 1 ==> !(#[trigger] chars@[k] == '-' && chars@[k + 1] == '-'),
        decreases n - i,
    {
        let c = chars[i];
        let word = ('a' <= c && c <= 'z') || ('0' <= c && c <= '9');
        if !word && c != '-' {
            return false;
        }
        if i + 1 < n && c == '-' && chars[i + 1] == '-' {
            return false;
        }
        i = i + 1;
    }
    true
}

/// Checks a length rule on a field, recording a failure.
pub fn check_length(errs: &mut Vec<FieldError>, field: &str, value: &str, min: u64, max: u64)
    ensures
        failures_view(final(errs)@) == failures_view(old(errs)@) + length_failures(field@, value@, min, max),
{
    if !validate_length_str(value, min, max) {
        errs.push(FieldError { field: field.to_owned(), code: "length".to_owned() });
    }
    assert(failures_view(errs@) =~= failures_view(old(errs)@) + length_failures(field@, value@, min, max));
}

/// Checks a length rule on an optional field, recording a failure.
pub fn check_opt_length(
    errs: &mut Vec<FieldError>,
    field: &str,
    value: &Option<String>,
    min: u64,
    max: u64,
)
    ensures
        failures_view(final(errs)@) == failures_view(old(errs)@) + opt_length_failures(field@, opt_view(*value), min, max),
{
    match value {
        Some(v) => check_length(errs, field, v.as_str(), min, max),
        None => {
            assert(failures_view(errs@) =~= failures_view(old(errs)@) + opt_length_failures(field@, opt_view(*value), min, max));
        },
    }
}

/// Checks a range rule on an optional field, recording a failure.
pub fn check_range(errs: &mut Vec<FieldError>, field: &str, value: Option<i32>, min: i32, max: i32)
    ensures
        failures_view(final(errs)@) == failures_view(old(errs)@) + range_failures(field@, value, min, max),
{
    if !validate_range_opt_i32(value, min, max) {
        errs.push(FieldError { field: field.to_owned(), code: "range".to_owned() });
    }
    assert(failures_view(errs@) =~= failures_view(old(errs)@) + range_failures(field@, value, min, max));
}

/// Checks the slug rule on a field, recording a failure.
pub fn check_slug(errs: &mut Vec<FieldError>, field: &str, value: &str)
    ensures
        failures_view(final(errs)@) == failures_view(old(errs)@) + slug_failures(field@, value@),
{
    if !sluggable(value) {
        errs.push(FieldError { field: field.to_owned(), code: "sluggable".to_owned() });
    }
    assert(failures_view(errs@) =~= failures_view(old(errs)@) + slug_failures(field@, value@));
}

/// The outcome of a validation: success when nothing failed, else the failures.
pub fn finish(errs: Vec<FieldError>) -> (r: Result<(), Vec<FieldError>>)
    ensures
        errs@.len() == 0 ==> r is Ok,
        errs@.len() > 0 ==> (r matches Err(e) && e@ == errs@),
{
    if errs.len() == 0 {
        Ok(())
    } else {
        Err(errs)
    }
}

} // verus!

verus! {

/// How a failure reads: the field, a colon and the rule's code.
pub open spec fn failure_text(f: (Seq<char>, Seq<char>)) -> Seq<char> {
    f.0 + ": "@ + f.1
}

/// One line that names every failure of a validation, separated by commas.
pub fn flatten_errors(errs: &Vec<FieldError>) -> (r: String)
    ensures
        r@ == crate::text::join_with(failures_view(errs@).map_values(|f: (Seq<char>, Seq<char>)| failure_text(f)), ", "@),
{
    let ghost texts = failures_view(errs@).map_values(|f: (Seq<char>, Seq<char>)| failure_text(f));
    let mut r = String::new();
    let mut i: usize = 0;
    while i < errs.len()
        invariant
            texts == failures_view(errs@).map_values(|f: (Seq<char>, Seq<char>)| failure_text(f)),
            i <= errs@.len(),
            r@ == crate::text::join_with(texts.take(i as int), ", "@),
        decreases errs@.len() - i,
    {
        if i > 0 {
            r.append(", ");
        }
        r.append(errs[i].field.as_str());
        r.append(": ");
        r.append(errs[i].code.as_str());
        assert(texts.take(i + 1).drop_last() =~= texts.take(i as int));
        assert(texts[i as int] == errs@[i as int].field@ + ": "@ + errs@[i as int].code@);
        i = i + 1;
    }
    assert(texts.take(errs@.len() as int) =~= texts);
    r
}

} // verus!
