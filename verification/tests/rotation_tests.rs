use base_agent::Rotator;

#[test]
fn round_robin_returns_each_key_once_then_repeats() {
    let keys = vec!["a".to_string(), "b".to_string(), "c".to_string()];
    let mut rot = Rotator::new(keys);
    assert_eq!(rot.next(), Some("a".to_string()));
    assert_eq!(rot.next(), Some("b".to_string()));
    assert_eq!(rot.next(), Some("c".to_string()));
    assert_eq!(rot.next(), Some("a".to_string()));
}

#[test]
fn empty_key_set_returns_none() {
    let mut rot = Rotator::new(Vec::new());
    assert_eq!(rot.next(), None);
    assert_eq!(rot.next(), None);
}

#[test]
fn single_key_repeats() {
    let mut rot = Rotator::new(vec!["only".to_string()]);
    assert_eq!(rot.next(), Some("only".to_string()));
    assert_eq!(rot.next(), Some("only".to_string()));
}
