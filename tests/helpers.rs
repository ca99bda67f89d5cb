use intro::{append, exists_in, first_of, get_capital_for_state, increment, is_positive};

#[test]
fn increment_adds_one() {
    assert_eq!(increment(41), 42);
    assert_eq!(increment(-1), 0);
    assert_eq!(increment(i64::MAX - 1), i64::MAX);
}

#[test]
fn is_positive_counts_zero() {
    assert!(is_positive(0));
    assert!(!is_positive(-1));
    assert!(is_positive(i64::MAX));
    assert!(!is_positive(i64::MIN));
}

#[test]
fn append_pushes_at_end() {
    let mut v = vec![1, 2];
    append(3, &mut v);
    assert_eq!(v, vec![1, 2, 3]);
}

#[test]
fn exists_in_finds_only_members() {
    let v = vec![4, 8, 15];
    assert!(exists_in(8, &v));
    assert!(exists_in(15, &v));
    assert!(!exists_in(16, &v));
    assert!(!exists_in(0, &Vec::new()));
}

#[test]
fn first_of_empty_and_nonempty() {
    assert_eq!(first_of(&Vec::new()), None);
    assert_eq!(first_of(&vec![9, 3]), Some(9));
}

#[test]
fn capitals_in_the_table() {
    assert_eq!(get_capital_for_state("Washington"), Ok("Olympia"));
    assert_eq!(get_capital_for_state("Massachussetts"), Ok("Boston"));
}

#[test]
fn capital_of_unknown_state() {
    let e = get_capital_for_state("Texas").unwrap_err();
    assert_eq!(e.state, "Texas");
    assert!(get_capital_for_state("").is_err());
}
