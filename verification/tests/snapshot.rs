use hostmeter::snapshot::RawReading;
use hostmeter::snapshot::Snapshot;

fn reading() -> RawReading {
    RawReading {
        available_memory_bytes: 2147483648,
        total_memory_bytes: 8589934592,
        core_count: 4,
        cpu_percent_centi: 4567,
        total_swap_bytes: 1073741824,
        used_swap_bytes: 536870912,
        uptime_seconds: 3661,
        load_one_centi: 1,
        load_five_centi: 250,
        load_fifteen_centi: 12345,
    }
}

#[test]
fn used_memory_is_total_minus_available() {
    let s = Snapshot::from_raw(&reading());
    assert_eq!(s.used_memory_bytes, 8589934592 - 2147483648);
    assert_eq!(s.used_memory_percent_centi, 7500);
    assert_eq!(s.used_swap_percent_centi, 5000);
}

#[test]
fn used_memory_clamps_to_zero() {
    let mut r = reading();
    r.available_memory_bytes = r.total_memory_bytes + 1;
    let s = Snapshot::from_raw(&r);
    assert_eq!(s.used_memory_bytes, 0);
    assert_eq!(s.used_memory_percent_centi, 0);
}

#[test]
fn zero_total_memory_gives_zero_percent() {
    let mut r = reading();
    r.total_memory_bytes = 0;
    r.available_memory_bytes = 0;
    let s = Snapshot::from_raw(&r);
    assert_eq!(s.used_memory_bytes, 0);
    assert_eq!(s.used_memory_percent_centi, 0);
}

#[test]
fn zero_total_swap_gives_zero_percent() {
    let mut r = reading();
    r.total_swap_bytes = 0;
    r.used_swap_bytes = 0;
    let s = Snapshot::from_raw(&r);
    assert_eq!(s.used_swap_percent_centi, 0);
}

#[test]
fn percent_rounds_half_up() {
    // one of 32 is 3.125 percent: 312.5 hundredths round to 313
    let r = RawReading {
        available_memory_bytes: 31,
        total_memory_bytes: 32,
        core_count: 0,
        cpu_percent_centi: 0,
        total_swap_bytes: 0,
        used_swap_bytes: 0,
        uptime_seconds: 0,
        load_one_centi: 0,
        load_five_centi: 0,
        load_fifteen_centi: 0,
    };
    let s = Snapshot::from_raw(&r);
    assert_eq!(s.used_memory_bytes, 1);
    assert_eq!(s.used_memory_percent_centi, 313);
}

#[test]
fn collection_is_deterministic() {
    let r = reading();
    let a = Snapshot::from_raw(&r);
    let b = Snapshot::from_raw(&r);
    assert_eq!(a, b);
    assert_eq!(a.core_count, b.core_count);
}

#[test]
fn raw_fields_pass_through() {
    let r = reading();
    let s = Snapshot::from_raw(&r);
    assert_eq!(s.available_memory_bytes, r.available_memory_bytes);
    assert_eq!(s.total_memory_bytes, r.total_memory_bytes);
    assert_eq!(s.core_count, r.core_count);
    assert_eq!(s.cpu_percent_centi, r.cpu_percent_centi);
    assert_eq!(s.total_swap_bytes, r.total_swap_bytes);
    assert_eq!(s.used_swap_bytes, r.used_swap_bytes);
    assert_eq!(s.uptime_seconds, r.uptime_seconds);
    assert_eq!(s.load_one_centi, r.load_one_centi);
    assert_eq!(s.load_five_centi, r.load_five_centi);
    assert_eq!(s.load_fifteen_centi, r.load_fifteen_centi);
}
