use chatatui::backoff::Backoff;

#[test]
fn delays_double_up_to_the_cap() {
    let mut b = Backoff::new();
    let got: Vec<u64> = (0..10).map(|_| b.on_failure()).collect();
    assert_eq!(got, vec![100, 200, 400, 800, 1600, 3200, 6400, 10000, 10000, 10000]);
}

#[test]
fn success_resets_the_delay() {
    let mut b = Backoff::new();
    b.on_failure();
    b.on_failure();
    assert_eq!(b.next_delay(), 400);
    b.on_success();
    assert_eq!(b.next_delay(), 100);
    assert_eq!(b.on_failure(), 100);
}
