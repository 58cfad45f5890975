use temp_mongo::port::{Allocation, PortGenerator, MAX_ATTEMPTS};

#[test]
fn new_generator_has_seen_nothing() {
    let generator = PortGenerator::new();
    assert_eq!(generator.attempts(), 0);
    assert_eq!(generator.selected_port(), None);
}

#[test]
fn generate_selects_the_port_that_a_probe_found() {
    let mut generator = PortGenerator::new();
    assert_eq!(generator.generate(Some(40123)), Allocation::Selected(40123));
    assert_eq!(generator.selected_port(), Some(40123));
    assert_eq!(generator.attempts(), 1);
}

#[test]
fn generate_retries_when_a_probe_found_nothing() {
    let mut generator = PortGenerator::new();
    assert_eq!(generator.generate(None), Allocation::Retry);
    assert_eq!(generator.selected_port(), None);
    assert_eq!(generator.attempts(), 1);
    assert_eq!(generator.generate(Some(50001)), Allocation::Selected(50001));
    assert_eq!(generator.attempts(), 2);
}

#[test]
fn generate_does_not_take_port_zero() {
    let mut generator = PortGenerator::new();
    assert_eq!(generator.generate(Some(0)), Allocation::Retry);
    assert_eq!(generator.selected_port(), None);
}

#[test]
fn generate_takes_the_smallest_and_the_largest_port() {
    let mut generator = PortGenerator::new();
    assert_eq!(generator.generate(Some(1)), Allocation::Selected(1));
    assert_eq!(generator.generate(Some(65535)), Allocation::Selected(65535));
    assert_eq!(generator.selected_port(), Some(65535));
}

#[test]
fn generate_gives_up_after_the_allowed_attempts() {
    assert_eq!(MAX_ATTEMPTS, 16);
    let mut generator = PortGenerator::new();
    for _ in 0..MAX_ATTEMPTS - 1 {
        assert_eq!(generator.generate(None), Allocation::Retry);
    }
    assert_eq!(generator.generate(None), Allocation::Exhausted);
    assert_eq!(generator.attempts(), MAX_ATTEMPTS);
    assert_eq!(generator.selected_port(), None);
}

#[test]
fn generate_takes_a_port_on_the_last_attempt() {
    let mut generator = PortGenerator::new();
    for _ in 0..MAX_ATTEMPTS - 1 {
        assert_eq!(generator.generate(None), Allocation::Retry);
    }
    assert_eq!(generator.generate(Some(40000)), Allocation::Selected(40000));
}

#[test]
fn generate_looks_at_no_probe_once_exhausted() {
    let mut generator = PortGenerator::new();
    for _ in 0..MAX_ATTEMPTS {
        generator.generate(None);
    }
    assert_eq!(generator.generate(Some(40000)), Allocation::Exhausted);
    assert_eq!(generator.selected_port(), None);
    assert_eq!(generator.attempts(), MAX_ATTEMPTS);
}
