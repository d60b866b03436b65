use trace_test::decimal::render_u64;

#[test]
fn renders_zero() {
    assert_eq!(render_u64(0), "0");
}

#[test]
fn renders_single_digits() {
    for d in 0..10u64 {
        assert_eq!(render_u64(d), d.to_string());
    }
}

#[test]
fn renders_multi_digit_numbers() {
    assert_eq!(render_u64(10), "10");
    assert_eq!(render_u64(42), "42");
    assert_eq!(render_u64(1000), "1000");
    assert_eq!(render_u64(125), "125");
}

#[test]
fn renders_largest_u64() {
    assert_eq!(render_u64(u64::MAX), "18446744073709551615");
}

#[test]
fn rendered_numbers_read_back() {
    for n in [0u64, 1, 9, 10, 99, 100, 12345, 4294967296, u64::MAX] {
        let s = render_u64(n);
        assert!(s.chars().all(|c| c.is_ascii_digit()));
        assert!(n == 0 || !s.starts_with('0'));
        assert_eq!(s.parse::<u64>().unwrap(), n);
    }
}

#[test]
fn distinct_numbers_render_differently() {
    assert_ne!(render_u64(12), render_u64(21));
    assert_ne!(render_u64(1), render_u64(10));
}
