use taghunter::text::str_le;

#[test]
fn a_text_comes_no_later_than_itself() {
    assert!(str_le("", ""));
    assert!(str_le("Mystery", "Mystery"));
}

#[test]
fn a_prefix_comes_first() {
    assert!(str_le("", "a"));
    assert!(!str_le("a", ""));
    assert!(str_le("Monster", "Monster Party"));
    assert!(!str_le("Monster Party", "Monster"));
}

#[test]
fn the_first_differing_byte_decides() {
    assert!(str_le("Mystery", "TagQuest"));
    assert!(!str_le("TagQuest", "Mystery"));
    assert!(str_le("Monster Kids Apocalypse", "Monster Party"));
    assert!(str_le("Monster Party", "Monstropolis"));
    assert!(!str_le("b", "abc"));
}

#[test]
fn upper_case_comes_before_lower_case() {
    assert!(str_le("Z", "a"));
    assert!(!str_le("a", "Z"));
}

#[test]
fn accented_letters_come_after_plain_ones() {
    assert!(str_le("L'Odyss\u{e9}e Spatiale", "L'\u{c9}cole des Sorciers"));
    assert!(!str_le("L'\u{c9}cole des Sorciers", "L'Odyss\u{e9}e Spatiale"));
    assert!(str_le("z", "\u{e9}"));
}

#[test]
fn the_order_agrees_with_the_order_of_bytes() {
    let texts = ["", "a", "ab", "b", "B", "\u{e9}", "e", "L'A", "La", "Le "];
    for a in texts {
        for b in texts {
            assert_eq!(str_le(a, b), a.as_bytes() <= b.as_bytes());
        }
    }
}
