use devnet::text::{contains_bytes, is_behind_upstream, matches_at, BEHIND_MARKER};

#[test]
fn marker_is_the_status_wording() {
    assert_eq!(BEHIND_MARKER, "Your branch is behind 'origin/main'");
}

#[test]
fn needle_is_found_at_the_start_in_the_middle_and_at_the_end() {
    assert!(contains_bytes(b"abcdef", b"abc"));
    assert!(contains_bytes(b"abcdef", b"cd"));
    assert!(contains_bytes(b"abcdef", b"def"));
    assert!(contains_bytes(b"abcdef", b"abcdef"));
}

#[test]
fn needle_that_is_absent_is_not_found() {
    assert!(!contains_bytes(b"abcdef", b"abd"));
    assert!(!contains_bytes(b"abcdef", b"fa"));
    assert!(!contains_bytes(b"abc", b"abcd"));
    assert!(!contains_bytes(b"", b"a"));
}

#[test]
fn empty_needle_occurs_everywhere() {
    assert!(contains_bytes(b"abc", b""));
    assert!(contains_bytes(b"", b""));
}

#[test]
fn needle_after_a_false_start_is_found() {
    assert!(contains_bytes(b"aaab", b"aab"));
    assert!(contains_bytes(b"ababac", b"abac"));
}

#[test]
fn matches_at_compares_one_window() {
    assert!(matches_at(b"hello world", b"world", 6));
    assert!(!matches_at(b"hello world", b"world", 5));
    assert!(matches_at(b"hello", b"", 5));
}

#[test]
fn window_that_does_not_fit_does_not_match() {
    assert!(!matches_at(b"abc", b"abcd", 0));
    assert!(!matches_at(b"abc", b"c", 3));
    assert!(!matches_at(b"abc", b"", 4));
    assert!(!matches_at(b"abc", b"bc", usize::MAX));
}

#[test]
fn status_behind_upstream_is_recognised() {
    let status = b"On branch main\nYour branch is behind 'origin/main' by 3 commits, and can be fast-forwarded.\n  (use \"git pull\" to update your local branch)\n";
    assert!(is_behind_upstream(status));
}

#[test]
fn status_up_to_date_is_not_behind() {
    assert!(!is_behind_upstream(b"On branch main\nYour branch is up to date with 'origin/main'.\n"));
    assert!(!is_behind_upstream(b"Your branch is up to date"));
    assert!(!is_behind_upstream(b""));
}

#[test]
fn status_ahead_or_on_another_branch_is_not_behind() {
    assert!(!is_behind_upstream(b"Your branch is ahead of 'origin/main' by 1 commit."));
    assert!(!is_behind_upstream(b"Your branch is behind 'origin/dev' by 1 commit."));
    assert!(!is_behind_upstream(b"Your branch is behind 'origin/main"));
}

#[test]
fn status_with_bytes_that_are_no_text_is_still_searched() {
    let mut status: Vec<u8> = vec![0xff, 0xfe, b'\n'];
    status.extend_from_slice(BEHIND_MARKER.as_bytes());
    status.push(0x80);
    assert!(is_behind_upstream(&status));
}
