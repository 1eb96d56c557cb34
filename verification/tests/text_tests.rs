use ldtstore_codegen::ordered::OrderedMap;
use ldtstore_codegen::substitute::{collect_inserts, insert, insert_all};
use ldtstore_codegen::text::{chars_between, chars_of, find, join3, replace, text_between};

fn same_as_std(s: &str, from: &str, to: &str) {
    assert_eq!(replace(s, from, to), s.replace(from, to), "{:?} {:?} {:?}", s, from, to);
}

#[test]
fn replace_every_occurrence() {
    assert_eq!(replace("a-b-c", "-", "+"), "a+b+c");
    assert_eq!(replace("<!--{{x}}--> and <!--{{x}}-->", "<!--{{x}}-->", "X"), "X and X");
}

#[test]
fn replace_does_not_overlap() {
    assert_eq!(replace("aaa", "aa", "b"), "ba");
    assert_eq!(replace("aaaa", "aa", "b"), "bb");
    assert_eq!(replace("ababa", "aba", "x"), "xba");
}

#[test]
fn replace_does_not_rescan_what_it_put_in() {
    assert_eq!(replace("ab", "a", "aa"), "aab");
    assert_eq!(replace("aab", "ab", "b"), "ab");
}

#[test]
fn replace_without_occurrence_changes_nothing() {
    assert_eq!(replace("hello", "xyz", "!"), "hello");
    assert_eq!(replace("", "x", "y"), "");
    assert_eq!(replace("ab", "abc", "y"), "ab");
}

#[test]
fn replace_empty_token_stands_between_all_characters() {
    assert_eq!(replace("abc", "", "-"), "-a-b-c-");
    assert_eq!(replace("", "", "-"), "-");
}

#[test]
fn replace_agrees_with_std_on_many_inputs() {
    let texts = ["", "a", "aa", "aaa", "abab", "abcabcabc", "{{IMAGE}}/x{{IMAGE}}", "\u{4e2d}\u{6587}a\u{4e2d}"];
    let tokens = ["", "a", "aa", "ab", "abc", "{{IMAGE}}", "\u{4e2d}", "zz"];
    let with = ["", "a", "b", "ab", "//host", "\u{6587}"];
    for s in texts {
        for from in tokens {
            for to in with {
                same_as_std(s, from, to);
            }
        }
    }
}

#[test]
fn chars_of_gives_the_characters() {
    assert_eq!(chars_of("a\u{4e2d}b"), vec!['a', '\u{4e2d}', 'b']);
    assert_eq!(chars_of(""), Vec::<char>::new());
}

#[test]
fn find_gives_the_first_position() {
    assert_eq!(find(&chars_of("xxabxxab"), &chars_of("ab")), Some(2));
    assert_eq!(find(&chars_of("xxabxxab"), &chars_of("ba")), None);
    assert_eq!(find(&chars_of("ab"), &chars_of("abc")), None);
    assert_eq!(find(&chars_of("ab"), &chars_of("")), Some(0));
    assert_eq!(find(&chars_of(""), &chars_of("")), Some(0));
    assert_eq!(find(&chars_of("aab"), &chars_of("ab")), Some(1));
}

#[test]
fn text_between_cuts_by_characters() {
    assert_eq!(text_between(&chars_of("a\u{4e2d}bc"), 1, 3), "\u{4e2d}b");
    assert_eq!(text_between(&chars_of("abc"), 2, 2), "");
    assert_eq!(chars_between(&chars_of("a\u{4e2d}bc"), 1, 3), vec!['\u{4e2d}', 'b']);
    assert_eq!(chars_between(&chars_of("abc"), 0, 0), Vec::<char>::new());
}

#[test]
fn join_puts_texts_in_a_row() {
    assert_eq!(join3("ab", "", "cd"), "abcd");
    assert_eq!(join3("a", "-", "b"), "a-b");
}

fn inserts(pairs: &[(&str, &str)]) -> OrderedMap<String> {
    let mut m = OrderedMap::new();
    for (k, v) in pairs {
        assert!(m.insert(k.to_string(), v.to_string()).is_none());
    }
    m
}

#[test]
fn insert_applies_entries_in_insertion_order() {
    // the second entry sees what the first one put in
    let m = inserts(&[("A", "B"), ("B", "C")]);
    assert_eq!(insert("A B".to_string(), &m), "C C");
    let m = inserts(&[("B", "C"), ("A", "B")]);
    assert_eq!(insert("A B".to_string(), &m), "B C");
}

#[test]
fn insert_earlier_entry_wins_where_tokens_collide() {
    let m = inserts(&[("ab", "1"), ("abc", "2")]);
    assert_eq!(insert("abc".to_string(), &m), "1c");
    let m = inserts(&[("abc", "2"), ("ab", "1")]);
    assert_eq!(insert("abc".to_string(), &m), "2");
}

#[test]
fn insert_with_no_entries_changes_nothing() {
    let m = inserts(&[]);
    assert_eq!(insert("text".to_string(), &m), "text");
}

#[test]
fn second_pass_changes_nothing_once_no_token_is_left() {
    let m = inserts(&[("<!--{{a}}-->", "alpha"), ("{{b}}", "beta")]);
    let once = insert("x <!--{{a}}--> y {{b}} z".to_string(), &m);
    assert_eq!(once, "x alpha y beta z");
    let twice = insert(once.clone(), &m);
    assert_eq!(twice, once);
}

#[test]
fn second_pass_may_change_a_result_that_holds_a_token_again() {
    // "ab" does not stand in its replacement "b", and still stands in the result
    let m = inserts(&[("ab", "b")]);
    let once = insert("aab".to_string(), &m);
    assert_eq!(once, "ab");
    assert_eq!(insert(once, &m), "b");
}

#[test]
fn collect_inserts_keeps_order_and_refuses_duplicates() {
    let m = collect_inserts(vec![
        ("b".to_string(), "2".to_string()),
        ("a".to_string(), "1".to_string()),
    ])
    .unwrap();
    assert_eq!(m.len(), 2);
    assert_eq!(m.key_at(0), "b");
    assert_eq!(m.value_at(0), "2");
    assert_eq!(m.key_at(1), "a");
    assert_eq!(m.value_at(1), "1");
    assert!(collect_inserts(vec![
        ("a".to_string(), "1".to_string()),
        ("a".to_string(), "2".to_string()),
    ])
    .is_none());
}

#[test]
fn passes_are_applied_one_after_another() {
    let first = inserts(&[("<!--{{a}}-->", "[{{b}}]")]);
    let second = inserts(&[("{{b}}", "{{IMAGE}}"), ("<!--{{a}}-->", "never")]);
    let third = inserts(&[("{{IMAGE}}", "/image")]);
    assert_eq!(
        insert_all("<!--{{a}}--> {{b}}".to_string(), &vec![&first, &second, &third]),
        "[/image] /image"
    );
    assert_eq!(
        insert_all("<!--{{a}}--> {{b}}".to_string(), &vec![&third, &second, &first]),
        "never {{IMAGE}}"
    );
    assert_eq!(insert_all("x".to_string(), &vec![]), "x");
}
