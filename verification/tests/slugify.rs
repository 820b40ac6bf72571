use zwd::slug::slugify;

#[test]
fn lowercases_and_joins_words_with_single_dashes() {
    assert_eq!(slugify("My Demo  Project"), "my-demo-project");
}

#[test]
fn trims_separators_at_both_ends() {
    assert_eq!(slugify("--Hello__World--"), "hello-world");
    assert_eq!(slugify("abc-"), "abc");
    assert_eq!(slugify("  x"), "x");
}

#[test]
fn empty_or_symbol_only_input_becomes_workspace() {
    assert_eq!(slugify(""), "workspace");
    assert_eq!(slugify("***"), "workspace");
    assert_eq!(slugify("ÄÖÜ"), "workspace");
}

#[test]
fn non_ascii_letters_separate_words() {
    assert_eq!(slugify("Über Café 2"), "ber-caf-2");
}

#[test]
fn digits_are_kept() {
    assert_eq!(slugify("v2.0 Release"), "v2-0-release");
}

#[test]
fn slugify_is_idempotent_on_examples() {
    for input in ["My Demo  Project", "--a--b--", "", "x.y.z", "Straße 7"] {
        let once = slugify(input);
        assert_eq!(slugify(&once), once);
    }
}

#[test]
fn ascii_case_does_not_change_a_slug() {
    for input in ["My Demo Project", "ABC-def", "Straße 7", "x.Y.z"] {
        assert_eq!(slugify(&input.to_ascii_uppercase()), slugify(input));
        assert_eq!(slugify(&input.to_ascii_lowercase()), slugify(input));
    }
}
