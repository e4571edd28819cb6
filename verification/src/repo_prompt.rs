use vstd::prelude::*;

use vstd::string::StrSliceExecFns;

use crate::text::str_eq;

verus! {

/// What the user answered when asked whether to create a git repository
/// for the cookbook.
#[derive(Clone, Copy, Debug, PartialEq, Eq, Structural)]
pub enum PromptAnswer {
    /// create one
    Create,
    /// do not; exit
    Refuse,
    /// the answer is not understood: ask again
    AskAgain,
}

/// A whitespace character, as `char::is_whitespace` defines it: one of the
/// 25 code points with the Unicode property `White_Space`.
pub open spec fn is_white_space(c: char) -> bool {
    let n = c as int;
    ||| 0x9 <= n <= 0xD
    ||| n == 0x20
    ||| n == 0x85
    ||| n == 0xA0
    ||| n == 0x1680
    ||| 0x2000 <= n <= 0x200A
    ||| n == 0x2028
    ||| n == 0x2029
    ||| n == 0x202F
    ||| n == 0x205F
    ||| n == 0x3000
}

/// The text with leading and trailing whitespace removed, as `str::trim`
/// removes it.
pub open spec fn trimmed(s: Seq<char>) -> Seq<char>
    decreases s.len(),
{
    if s.len() > 0 && is_white_space(s[0]) {
        trimmed(s.drop_first())
    } else if s.len() > 0 && is_white_space(s.last()) {
        trimmed(s.drop_last())
    } else {
        s
    }
}

/// The text in uppercase, as `str::to_uppercase` maps it.
pub uninterp spec fn uppercased(s: Seq<char>) -> Seq<char>;

/// Removes leading and trailing whitespace with `str::trim`, which
/// documents that it removes the characters with the Unicode property
/// `White_Space` from both ends.
#[verifier::external_body]
fn trim_str(s: &str) -> (r: String)
    ensures
        r@ == trimmed(s@),
{
    s.trim().to_string()
}

/// Maps the text to uppercase with `str::to_uppercase`. What it returns is
/// named, not described.
#[verifier::external_body]
fn uppercase_str(s: &str) -> (r: String)
    ensures
        r@ == uppercased(s@),
{
    s.to_uppercase()
}

/// The answer that a normalized reply stands for: `Y` or `YES` create the
/// repository, `N` or `NO` refuse, and an empty reply (the user just hit
/// Enter, or nothing was read) accepts the default of creating it; anything
/// else asks again.
pub open spec fn spec_answer(normalized: Seq<char>) -> PromptAnswer {
    if normalized == "Y"@ || normalized == "YES"@ || normalized.len() == 0 {
        PromptAnswer::Create
    } else if normalized == "N"@ || normalized == "NO"@ {
        PromptAnswer::Refuse
    } else {
        PromptAnswer::AskAgain
    }
}

/// `answer_of` decides what a reply stands for, given the reply trimmed and
/// in uppercase.
pub fn answer_of(normalized: &str) -> (a: PromptAnswer)
    ensures
        a == spec_answer(normalized@),
{
    if str_eq(normalized, "Y") || str_eq(normalized, "YES") || normalized.unicode_len() == 0 {
        PromptAnswer::Create
    } else if str_eq(normalized, "N") || str_eq(normalized, "NO") {
        PromptAnswer::Refuse
    } else {
        PromptAnswer::AskAgain
    }
}

/// `read_answer` decides what the text read so far stands for: it is
/// trimmed; an empty reply (the user just hit Enter) accepts the default of
/// creating the repository, any other is put in uppercase and read as
/// `answer_of` reads it.
pub fn read_answer(input: &str) -> (a: PromptAnswer)
    ensures
        a == (if trimmed(input@).len() == 0 {
            PromptAnswer::Create
        } else {
            spec_answer(uppercased(trimmed(input@)))
        }),
{
    let t = trim_str(input);
    if t.as_str().unicode_len() == 0 {
        return PromptAnswer::Create;
    }
    let u = uppercase_str(t.as_str());
    answer_of(u.as_str())
}

/// A reply of whitespace alone, such as the line that Enter sends, trims to
/// nothing, so it accepts the default of creating the repository.
pub proof fn lemma_blank_reply_accepts_default(input: Seq<char>)
    requires
        forall|i: int| 0 <= i < input.len() ==> is_white_space(#[trigger] input[i]),
    ensures
        trimmed(input).len() == 0,
    decreases input.len(),
{
    if input.len() > 0 {
        let rest = input.drop_first();
        assert forall|i: int| 0 <= i < rest.len() implies is_white_space(#[trigger] rest[i]) by {
            assert(rest[i] == input[i + 1]);
        }
        lemma_blank_reply_accepts_default(rest);
        assert(is_white_space(input[0]));
    }
}

} // verus!
