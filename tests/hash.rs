use feta::hash::calculate;

#[test]
fn hash_is_deterministic() {
    let first = calculate("exp", "g");
    for _ in 0..10 {
        assert_eq!(calculate("exp", "g"), first);
    }
}

#[test]
fn hash_reads_the_concatenation_only() {
    assert_eq!(calculate("ab", "c"), calculate("a", "bc"));
    assert_eq!(calculate("", "expg"), calculate("exp", "g"));
}

#[test]
fn hash_is_murmur3_of_the_bytes() {
    assert_eq!(calculate("", ""), 0);
    assert_eq!(calculate("hello", " world"), 0x5e92_8f0f);
}

#[test]
fn hash_depends_on_the_user_key() {
    assert_ne!(calculate("exp", "g"), calculate("exp", "a"));
}
