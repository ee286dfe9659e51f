use commitlabs::ids::{format_sub_id, format_id};

#[test]
fn ids_are_prefix_then_decimal() {
    assert_eq!(format_id("c_", 0), "c_0");
    assert_eq!(format_id("c_", 7), "c_7");
    assert_eq!(format_id("tr", 12), "tr12");
    assert_eq!(format_id("t", 1_000_000), "t1000000");
    assert_eq!(format_id("col", u64::MAX), format!("col{}", u64::MAX));
    assert_eq!(format_id("", 42), "42");
}

#[test]
fn distinct_numbers_give_distinct_ids() {
    let mut seen = std::collections::HashSet::new();
    for n in 0..1_000u64 {
        assert!(seen.insert(format_id("c_", n)));
    }
}

#[test]
fn sub_ids_carry_both_numbers() {
    assert_eq!(format_sub_id("t", 3, 12), "t3_12");
    assert_eq!(format_sub_id("t", 0, 10), "t0_10");
    assert_ne!(format_sub_id("t", 1, 23), format_sub_id("t", 12, 3));
}
