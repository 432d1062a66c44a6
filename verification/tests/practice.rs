use rustbyve::practice::free_throws;

#[test]
fn ten_free_throws_make_three() {
    let p = free_throws(10);
    assert_eq!(p.made, 3);
    assert_eq!(
        p.outcomes,
        vec![false, false, true, false, false, true, false, false, true, false]
    );
}

#[test]
fn no_free_throws() {
    let p = free_throws(0);
    assert_eq!(p.made, 0);
    assert!(p.outcomes.is_empty());
}

#[test]
fn made_is_a_third_rounded_down() {
    for n in 0..50u32 {
        let p = free_throws(n);
        assert_eq!(p.made, n / 3);
        assert_eq!(p.outcomes.iter().filter(|b| **b).count() as u32, p.made);
    }
}
