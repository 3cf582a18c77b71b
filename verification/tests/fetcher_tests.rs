use played_bot::fetcher::BoundedFetcher;

#[test]
fn new_fetcher_is_idle() {
    let f = BoundedFetcher::new(4);
    assert_eq!(f.capacity(), 4);
    assert_eq!(f.in_flight(), 0);
}

#[test]
fn admits_up_to_capacity_and_no_further() {
    let mut f = BoundedFetcher::new(2);
    assert!(f.try_acquire());
    assert!(f.try_acquire());
    assert!(!f.try_acquire());
    assert_eq!(f.in_flight(), 2);
}

#[test]
fn release_frees_a_slot() {
    let mut f = BoundedFetcher::new(2);
    assert!(f.try_acquire());
    assert!(f.try_acquire());
    assert!(!f.try_acquire());
    f.release();
    assert!(f.try_acquire());
    assert_eq!(f.in_flight(), 2);
}

#[test]
fn bound_holds_under_any_submission_pattern() {
    // Interleaves admissions with immediate failures (acquire then release at
    // once) and checks the in-flight count never exceeds the capacity.
    let capacity: u64 = 3;
    let mut f = BoundedFetcher::new(capacity);
    let mut held: u64 = 0;
    for round in 0..100u64 {
        assert!(f.in_flight() <= capacity);
        if round % 3 == 0 {
            if f.try_acquire() {
                held += 1;
            }
        } else if round % 3 == 1 {
            // A request that fails immediately still releases its slot.
            if f.try_acquire() {
                f.release();
            }
        } else if held > 0 {
            f.release();
            held -= 1;
        }
        assert!(f.in_flight() <= capacity);
    }
}

#[test]
fn zero_capacity_admits_nothing() {
    let mut f = BoundedFetcher::new(0);
    assert!(!f.try_acquire());
    assert_eq!(f.in_flight(), 0);
}
