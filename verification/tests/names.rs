use ohg_bot::names::acceptable;
use ohg_bot::names::character_name;
use ohg_bot::names::judge;
use ohg_bot::names::pick;
use ohg_bot::names::NAME_LIMIT;

#[test]
fn plain_names_are_acceptable() {
    assert!(acceptable("Aria"));
    assert!(acceptable("Ann-Marie St. John"));
    assert!(acceptable("R2 D2"));
    assert!(acceptable("7"));
}

#[test]
fn the_empty_name_is_acceptable() {
    assert!(acceptable(""));
}

#[test]
fn a_name_takes_thirty_bytes_at_most() {
    assert_eq!(NAME_LIMIT, 30);
    assert!(acceptable(&"a".repeat(30)));
    assert!(!acceptable(&"a".repeat(31)));
    // Fifteen letters of two bytes each fit, sixteen do not.
    assert!(acceptable(&"é".repeat(15)));
    assert!(!acceptable(&"é".repeat(16)));
}

#[test]
fn letters_and_digits_of_any_script_are_acceptable() {
    assert!(acceptable("Éowyn"));
    assert!(acceptable("日本語"));
    assert!(acceptable("٣"));
}

#[test]
fn other_signs_are_not_acceptable() {
    assert!(!acceptable("a_b"));
    assert!(!acceptable("Aria!"));
    assert!(!acceptable("tab\there"));
    assert!(!acceptable("😀"));
    assert!(!acceptable("<@41>"));
}

#[test]
fn a_name_needs_a_letter_or_a_digit() {
    assert!(!acceptable("-"));
    assert!(!acceptable(". ."));
    assert!(!acceptable(" "));
    assert!(acceptable(" a "));
}

#[test]
fn the_chosen_name_loses_the_space_around_it() {
    assert_eq!(character_name("  Aria  ", Some("Nick"), "bob"), Some("Aria"));
    assert_eq!(character_name("Ann  Marie", None, "bob"), Some("Ann  Marie"));
}

#[test]
fn without_a_choice_the_character_is_called_as_the_player() {
    assert_eq!(character_name("", Some(" Nick "), "bob"), Some("Nick"));
    assert_eq!(character_name("   ", None, " bob "), Some("bob"));
    // The player's own name is taken as it is.
    assert_eq!(character_name("", Some("!!!"), "bob"), Some("!!!"));
    assert_eq!(character_name("", None, &"b".repeat(40)), Some("b".repeat(40).as_str()));
}

#[test]
fn a_choice_that_is_no_name_is_refused() {
    assert_eq!(character_name("Aria!", Some("Nick"), "bob"), None);
    assert_eq!(character_name(&"a".repeat(31), None, "bob"), None);
    assert_eq!(character_name(" -- ", None, "bob"), None);
    // Thirty bytes count after the space around them is gone.
    let padded = format!("   {}   ", "a".repeat(30));
    assert_eq!(character_name(&padded, None, "bob"), Some("a".repeat(30).as_str()));
}

#[test]
fn judge_goes_by_the_letters_it_is_given() {
    assert!(judge("a-b", &vec![true, false, true]));
    assert!(judge("", &vec![]));
    // A sign that is no letter and none of the three that may stand.
    assert!(!judge("a_b", &vec![true, false, true]));
    assert!(judge("a_b", &vec![true, true, true]));
    // No letter at all.
    assert!(!judge("- .", &vec![false, false, false]));
    assert!(judge("- .", &vec![false, false, true]));
    // One answer for each character.
    assert!(!judge("ab", &vec![true]));
    assert!(!judge("ab", &vec![true, true, true]));
    // Bytes count, not characters.
    assert!(judge(&"é".repeat(15), &vec![true; 15]));
    assert!(!judge(&"é".repeat(16), &vec![true; 16]));
    assert!(!judge(&"a".repeat(31), &vec![true; 31]));
}

#[test]
fn pick_takes_the_choice_then_the_nickname_then_the_author() {
    assert_eq!(pick("Aria", true, Some("Nick"), "bob"), Some("Aria"));
    assert_eq!(pick("", true, Some("Nick"), "bob"), Some("Nick"));
    assert_eq!(pick("", true, None, "bob"), Some("bob"));
    assert_eq!(pick("", true, Some(""), "bob"), Some(""));
    assert_eq!(pick("Aria", false, Some("Nick"), "bob"), None);
    assert_eq!(pick("", false, Some("Nick"), "bob"), None);
}
