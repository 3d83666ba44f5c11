use axvisor::text::append_decimal;

#[test]
fn decimal_text() {
    for (n, t) in [(0u64, "0"), (7, "7"), (10, "10"), (512, "512"), (u64::MAX, "18446744073709551615")] {
        let mut s = String::from("x=");
        append_decimal(&mut s, n);
        assert_eq!(s, format!("x={t}"));
    }
}
