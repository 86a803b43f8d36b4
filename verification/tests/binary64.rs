use qualirs::binary64::{
    from_count_exec, greater_exec, normalize_exec, quotient_exec, round_whole_exec, share_exec,
    times_hundred_exec, DoubleParts,
};

/// The value of a double, as the f64 that std computes.
fn value(d: DoubleParts) -> f64 {
    (d.mant as f64) * 2f64.powi(d.exp as i32)
}

fn counts() -> Vec<u64> {
    let mut v: Vec<u64> = (1..=70).collect();
    v.extend([
        99, 100, 101, 127, 1000, 4097, 65535, 1 << 40, (1 << 53) - 1, 1 << 53, (1 << 53) + 1,
        (1 << 53) + 3, (1 << 54) + 2, (1 << 60) + 12345, u64::MAX, u64::MAX - 2047, u64::MAX - 1024,
    ]);
    v
}

#[test]
fn counts_convert_as_std_does() {
    for n in counts() {
        let d = from_count_exec(n);
        assert_eq!(value(d), n as f64, "count {n}");
    }
}

#[test]
fn shares_divide_as_std_does() {
    let cs = counts();
    for &c in &cs {
        for &n in &cs {
            let q = share_exec(c, n);
            let expected = c as f64 / n as f64;
            assert_eq!(value(q), expected, "{c} / {n}");
            let p = times_hundred_exec(q);
            assert_eq!(value(p), expected * 100.0, "{c} / {n} * 100");
            assert_eq!(
                round_whole_exec(p).to_string(),
                format!("{:.0}", expected * 100.0),
                "{c} / {n} as a percentage"
            );
            assert_eq!(greater_exec(q, share_exec(2, 5)), expected > 0.4, "{c} / {n} > 0.4");
        }
    }
}

#[test]
fn a_share_on_a_float_tie_prints_as_std_does() {
    let q = share_exec(23, 40);
    assert_eq!(round_whole_exec(times_hundred_exec(q)), 57);
    let q = share_exec(5, 8);
    assert_eq!(round_whole_exec(times_hundred_exec(q)).to_string(), format!("{:.0}", 62.5f64));
    assert!(!greater_exec(share_exec(2, 5), share_exec(2, 5)));
    assert!(greater_exec(share_exec(41, 100), share_exec(2, 5)));
}

#[test]
fn normalizing_keeps_the_value() {
    for n in counts() {
        let d = from_count_exec(n);
        let m = normalize_exec(d);
        assert!(m.mant >= 1 << 52 && m.mant <= 1 << 53);
        assert_eq!(value(m), value(d));
        let q = quotient_exec(m, m);
        assert_eq!(value(q), 1.0);
    }
}
