use selfref::SelfRefer;

#[test]
fn test_pin() {
    let v: usize = 42;
    let mut home = SelfRefer::new(v);

    // Force the payload to move: a replacement container holding 420
    // overwrites the old home, and the original container lands in a new
    // binding.
    let mut sr = std::mem::replace(&mut home, SelfRefer::new(420));
    home.refer_self();
    assert_eq!(home.referred(), Some(420));

    assert_eq!(sr.referred(), None);

    sr.refer_self();
    assert_eq!(sr.referred(), Some(v));
}

#[test]
fn fresh_read_is_none_despite_sets() {
    let mut c = SelfRefer::new(7);
    assert_eq!(c.referred(), None);
    c.set(8);
    c.set(9);
    c.set(10);
    assert_eq!(c.referred(), None);
}

#[test]
fn established_read_returns_payload() {
    let mut c = SelfRefer::new(5);
    c.refer_self();
    assert_eq!(c.referred(), Some(5));
}

#[test]
fn relocation_before_pin_then_establish() {
    let mut home = SelfRefer::new(11);
    let mut moved = std::mem::replace(&mut home, SelfRefer::new(0));
    moved.refer_self();
    assert_eq!(moved.referred(), Some(11));
}

#[test]
fn in_place_mutation_updates_read() {
    let mut c = SelfRefer::new(1);
    c.refer_self();
    assert_eq!(c.referred(), Some(1));
    c.pinned_set(2);
    assert_eq!(c.referred(), Some(2));
    assert_ne!(c.referred(), Some(1));
}

#[test]
fn plain_set_keeps_reference_state() {
    let mut c = SelfRefer::new(3);
    c.refer_self();
    c.set(4);
    assert_eq!(c.referred(), Some(4));
}

#[test]
fn establishment_is_idempotent() {
    let mut c = SelfRefer::new(6);
    c.refer_self();
    let once = c.referred();
    c.refer_self();
    assert_eq!(c.referred(), once);
    assert_eq!(c.referred(), Some(6));
}

#[test]
fn extreme_payloads() {
    let mut zero = SelfRefer::new(0);
    zero.refer_self();
    assert_eq!(zero.referred(), Some(0));

    let mut big = SelfRefer::new(usize::MAX);
    big.refer_self();
    assert_eq!(big.referred(), Some(usize::MAX));
    big.pinned_set(0);
    assert_eq!(big.referred(), Some(0));
}

#[test]
fn end_to_end_scenario() {
    let mut home = SelfRefer::new(42);
    let mut sr = std::mem::replace(&mut home, SelfRefer::new(420));
    assert_eq!(sr.referred(), None);
    sr.refer_self();
    assert_eq!(sr.referred(), Some(42));
    sr.pinned_set(100);
    assert_eq!(sr.referred(), Some(100));
}
