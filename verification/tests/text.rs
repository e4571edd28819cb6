use cookbook_core::web::html_escape;
use cookbook_core::text::{join_str, i64_to_string, insert_sorted_unique, str_less, u64_to_string, usize_to_string};

#[test]
fn decimal_notation() {
    assert_eq!(u64_to_string(0), "0");
    assert_eq!(u64_to_string(1234567890), "1234567890");
    assert_eq!(u64_to_string(u64::MAX), "18446744073709551615");
    assert_eq!(i64_to_string(-42), "-42");
    assert_eq!(i64_to_string(i64::MIN), "-9223372036854775808");
    assert_eq!(usize_to_string(7), "7");
}

#[test]
fn ordering_and_joining() {
    assert!(str_less("apple", "banana"));
    assert!(str_less("app", "apple"));
    assert!(!str_less("apple", "apple"));
    assert!(!str_less("b", "a"));
    assert_eq!(join_str(&"ab".to_string(), "cd"), "abcd");
}

#[test]
fn sorted_insertion_keeps_one_of_each() {
    let mut v: Vec<String> = Vec::new();
    for s in ["pear", "apple", "pear", "fig"] {
        insert_sorted_unique(&mut v, s.to_string());
    }
    assert_eq!(v, vec!["apple", "fig", "pear"]);
}

use cookbook_core::repo_prompt::{answer_of, read_answer, PromptAnswer};

#[test]
fn repository_prompt_answers() {
    assert_eq!(answer_of("YES"), PromptAnswer::Create);
    assert_eq!(answer_of("N"), PromptAnswer::Refuse);
    assert_eq!(answer_of(""), PromptAnswer::Create);
    assert_eq!(answer_of("MAYBE"), PromptAnswer::AskAgain);
    assert_eq!(read_answer("y\n"), PromptAnswer::Create);
    assert_eq!(read_answer("  no \n"), PromptAnswer::Refuse);
    assert_eq!(read_answer("\n"), PromptAnswer::Create);
    assert_eq!(read_answer(""), PromptAnswer::Create);
    assert_eq!(read_answer("maybe\n"), PromptAnswer::AskAgain);
    // the replies accumulate, so a second reply after a wrong one is not understood
    assert_eq!(read_answer("x\ny\n"), PromptAnswer::AskAgain);
}

#[test]
fn html_is_escaped() {
    assert_eq!(html_escape("a < b & \"c\" > 'd'"), "a &lt; b &amp; &quot;c&quot; &gt; &#x27;d&#x27;");
    assert_eq!(html_escape("plain"), "plain");
}

#[test]
fn escaped_text_has_no_markup() {
    let escaped = html_escape("<script>alert('x')</script><a href=\"y\">");
    assert!(!escaped.contains('<'));
    assert!(!escaped.contains('>'));
    assert!(!escaped.contains('"'));
    assert!(!escaped.contains('\''));
}
