use bob::release::{classify, commit_like, normalize, number_from, recognize, ReleaseKind};
use bob::text::to_chars;

#[test]
fn bare_number_gains_the_v() {
    assert_eq!(normalize("0.9.1"), "v0.9.1");
    assert_eq!(normalize("10.20.30"), "v10.20.30");
}

#[test]
fn capital_v_becomes_small() {
    assert_eq!(normalize("V0.9.1"), "v0.9.1");
}

#[test]
fn other_tokens_stand_as_typed() {
    assert_eq!(normalize("v0.9.1"), "v0.9.1");
    assert_eq!(normalize("nightly"), "nightly");
    assert_eq!(normalize("Nightly"), "Nightly");
    assert_eq!(normalize("0.9"), "0.9");
    assert_eq!(normalize("0.9.1.2"), "0.9.1.2");
    assert_eq!(normalize("V"), "V");
    assert_eq!(normalize("Vx.1.2"), "Vx.1.2");
    assert_eq!(normalize(""), "");
    assert_eq!(normalize("abcdef1"), "abcdef1");
}

#[test]
fn normalizing_twice_changes_nothing_more() {
    for token in ["0.9.1", "V1.2.3", "v1.2.3", "stable", "", "1.2", "VV1.2.3"] {
        let once = normalize(token);
        assert_eq!(normalize(&once), once);
    }
}

#[test]
fn number_needs_three_runs_of_digits() {
    assert!(number_from(&to_chars("1.2.3"), 0));
    assert!(number_from(&to_chars("v1.2.3"), 1));
    assert!(number_from(&to_chars("001.22.333"), 0));
    assert!(!number_from(&to_chars("v1.2.3"), 0));
    assert!(!number_from(&to_chars("1.2"), 0));
    assert!(!number_from(&to_chars("1.2."), 0));
    assert!(!number_from(&to_chars(".2.3"), 0));
    assert!(!number_from(&to_chars("1..3"), 0));
    assert!(!number_from(&to_chars("1.2.3.4"), 0));
    assert!(!number_from(&to_chars("1.2.3a"), 0));
    assert!(!number_from(&to_chars("1.2.3"), 5));
    assert!(!number_from(&to_chars("1.2.3"), 9));
    assert!(!number_from(&to_chars(""), 0));
}

#[test]
fn tags_tell_their_kind() {
    assert_eq!(recognize("v0.9.1"), Some(ReleaseKind::Stable));
    assert_eq!(recognize("nightly"), Some(ReleaseKind::Nightly));
    assert_eq!(recognize("0.9.1"), None);
    assert_eq!(recognize("stable"), None);
    assert_eq!(recognize("abcdef1"), None);
    assert_eq!(recognize(""), None);
}

#[test]
fn installed_tags_without_a_kind_are_commits() {
    assert_eq!(classify("v0.9.1"), ReleaseKind::Stable);
    assert_eq!(classify("nightly"), ReleaseKind::Nightly);
    assert_eq!(classify("abcdef1"), ReleaseKind::Commit);
    assert_eq!(classify("anything"), ReleaseKind::Commit);
}

#[test]
fn commit_names_are_seven_to_forty_hex_digits() {
    assert!(!commit_like("abcdef"));
    assert!(commit_like("abcdef1"));
    assert!(commit_like("0123456789abcdef0123456789abcdef01234567"));
    assert!(!commit_like("0123456789abcdef0123456789abcdef012345678"));
    assert!(!commit_like("ABCDEF1"));
    assert!(!commit_like("abcdefg"));
    assert!(!commit_like("nightly"));
    assert!(!commit_like(""));
}
