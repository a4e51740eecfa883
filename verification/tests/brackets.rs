use algos::brackets::balanced;
use algos::recursive::balanced as balanced_rec;
use algos::recursive::expect;

#[test]
fn test_balanced() {
    assert_eq!(balanced("[]"), true);
    assert_eq!(balanced("["), false);
    assert_eq!(balanced("(())"), true);
    assert_eq!(balanced("((()"), false);
    assert_eq!(balanced(")(())"), false);
    assert_eq!(balanced("))))"), false);
    assert_eq!(balanced("(()))("), false);
    assert_eq!(balanced("([])"), true);
    assert_eq!(balanced("([[[]]])"), true);
    assert_eq!(balanced("([[[00]])"), false);
    assert_eq!(balanced("([[[{0}]]])"), true);
}

#[test]
fn balance_edge_cases() {
    assert_eq!(balanced(""), true);
    assert_eq!(balanced("()"), true);
    assert_eq!(balanced("("), false);
    assert_eq!(balanced(")("), false);
    assert_eq!(balanced("([{}])"), true);
    assert_eq!(balanced("([)]"), false);
    assert_eq!(balanced("a(b[c]d)e"), true);
    assert_eq!(balanced("(()"), false);
}

#[test]
fn balance_scenarios() {
    assert_eq!(balanced("([[[]]])"), true);
    assert_eq!(balanced("([[[00]])"), false);
}

#[test]
fn balance_inert_characters_do_not_matter() {
    assert_eq!(balanced("abc 123 ."), true);
    assert_eq!(balanced("{ let x = v[i]; f(x) }"), true);
    assert_eq!(balanced("{ let x = v[i); f(x) }"), false);
}

#[test]
fn recursive_form_same_cases() {
    assert_eq!(balanced_rec(""), true);
    assert_eq!(balanced_rec("()"), true);
    assert_eq!(balanced_rec("("), false);
    assert_eq!(balanced_rec(")("), false);
    assert_eq!(balanced_rec("([{}])"), true);
    assert_eq!(balanced_rec("([)]"), false);
    assert_eq!(balanced_rec("a(b[c]d)e"), true);
    assert_eq!(balanced_rec("(()"), false);
    assert_eq!(balanced_rec("([[[]]])"), true);
    assert_eq!(balanced_rec("([[[00]])"), false);
}

#[test]
fn both_formulations_agree() {
    let cases = [
        "", "()", "(", ")(", "([{}])", "([)]", "a(b[c]d)e", "(()", "[]", "[", "(())", "((()",
        ")(())", "))))", "(()))(", "([])", "([[[]]])", "([[[00]])", "([[[{0}]]])",
    ];
    for s in cases {
        assert_eq!(balanced(s), balanced_rec(s));
    }
}

#[test]
fn expect_reports_the_consumed_stretch() {
    assert_eq!(expect(None, "()", 0), (true, 2));
    assert_eq!(expect(Some(')'), "ab)", 0), (true, 3));
    assert_eq!(expect(Some(')'), "]x", 0), (false, 1));
    assert_eq!(expect(Some(']'), "()]extra", 0), (true, 3));
    assert_eq!(expect(Some(')'), "abc", 0).0, false);
    assert_eq!(expect(None, "x[y]z", 1), (true, 5));
}
