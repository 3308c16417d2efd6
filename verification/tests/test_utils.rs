use zoc::test_utils::{substitute_with_compounding, substitute_without_compounding};

#[test]
fn substitution_without_compounding_applies_each_replacement_in_turn() {
    let replacements = [("<A>", "x".to_string()), ("<B>", "yy".to_string())];
    assert_eq!("x yy x", substitute_without_compounding(&replacements, "<A> <B> <A>"));
}

#[test]
fn substitution_without_compounding_leaves_other_text_alone() {
    assert_eq!("no placeholders", substitute_without_compounding(&[], "no placeholders"));
    assert_eq!("abc", substitute_without_compounding(&[("<A>", "x".to_string())], "abc"));
}

#[test]
fn later_replacements_see_the_output_of_earlier_ones() {
    let replacements = [("a", "b".to_string()), ("b", "c".to_string())];
    assert_eq!("cc", substitute_without_compounding(&replacements, "ab"));
}

#[test]
fn substitution_with_compounding_expands_earlier_placeholders_in_later_definitions() {
    let defs = [("<NAT>", "(ind Nat)"), ("<ZERO>", "(vcon <NAT> 0)"), ("<ONE>", "(<SUCC> <ZERO>)")];
    assert_eq!("(<SUCC> (vcon (ind Nat) 0))", substitute_with_compounding(&defs, "<ONE>"));
    assert_eq!("(ind Nat) (vcon (ind Nat) 0)", substitute_with_compounding(&defs, "<NAT> <ZERO>"));
}

#[test]
fn substitution_with_compounding_of_nothing_returns_the_text() {
    assert_eq!("<X>", substitute_with_compounding(&[], "<X>"));
}

#[test]
fn matches_are_replaced_leftmost_first_without_overlap() {
    assert_eq!("ba", substitute_without_compounding(&[("aa", "b".to_string())], "aaa"));
    assert_eq!("axycxy", substitute_without_compounding(&[("b", "xy".to_string())], "abcb"));
}

#[test]
fn an_empty_pattern_matches_at_every_character_boundary() {
    assert_eq!("xaxbx", substitute_without_compounding(&[("", "x".to_string())], "ab"));
    assert_eq!("x", substitute_without_compounding(&[("", "x".to_string())], ""));
}
