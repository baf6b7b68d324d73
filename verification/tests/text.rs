use pm_sim::sorting::{clone_texts, sort_texts};
use pm_sim::text::{is_blank, owned, padded_decimal, text_eq, text_le, white_space};

fn strings(list: &[&str]) -> Vec<String> {
    list.iter().map(|s| s.to_string()).collect()
}

#[test]
fn padded_decimal_widths() {
    assert_eq!(padded_decimal(7, 6), "000007");
    assert_eq!(padded_decimal(0, 3), "000");
    assert_eq!(padded_decimal(1234567, 6), "1234567");
    assert_eq!(padded_decimal(42, 0), "42");
}

#[test]
fn text_comparisons() {
    assert!(text_eq("abc", "abc"));
    assert!(!text_eq("abc", "abd"));
    assert!(!text_eq("ab", "abc"));
    assert!(text_le("ab", "abc"));
    assert!(text_le("abc", "abd"));
    assert!(!text_le("b", "abc"));
    assert!(text_le("", ""));
    assert_eq!(text_le("市场", "问题"), "市场" <= "问题");
    assert_eq!(owned("持仓"), "持仓");
}

#[test]
fn blank_text_is_white_space_only() {
    assert!(is_blank(""));
    assert!(is_blank("  \t\n"));
    assert!(is_blank("\u{3000}"));
    assert!(!is_blank(" a "));
    assert!(white_space('\u{a0}'));
    assert!(!white_space('x'));
    for c in ['\t', ' ', '\u{85}', '\u{2028}', 'a', '0', '市'] {
        assert_eq!(white_space(c), c.is_whitespace());
    }
}

#[test]
fn sort_texts_orders_like_std() {
    let v = strings(&["z", "x", "y", "x", "ab", "a"]);
    let mut expected = v.clone();
    expected.sort();
    assert_eq!(sort_texts(v), expected);
    assert!(sort_texts(Vec::new()).is_empty());
}

#[test]
fn sorted_result_independent_of_input_order() {
    let a = sort_texts(strings(&["x", "y", "z"]));
    let b = sort_texts(strings(&["z", "x", "y"]));
    assert_eq!(a, b);
}

#[test]
fn clone_texts_copies() {
    let v = strings(&["a", "b"]);
    assert_eq!(clone_texts(&v), v);
}
