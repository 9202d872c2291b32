use gzip_size::pipeline::RunResult;
use gzip_size::report::{decimal_string, report};

#[test]
fn formatting_matrix() {
    let res = RunResult { original: 1500, compressed: 400 };
    assert_eq!(report(&res, true, false), "400");
    assert_eq!(report(&res, true, true), "1500 → 400");
    assert_eq!(report(&res, false, false), "400 B");
    assert_eq!(report(&res, false, true), "1.46 KiB → 400 B");
}

#[test]
fn human_units_grow_with_the_size() {
    let res = RunResult { original: 2 * 1024 * 1024, compressed: 1024 };
    assert_eq!(report(&res, false, true), "2 MiB → 1 KiB");
}

#[test]
fn decimal_rendering() {
    assert_eq!(decimal_string(0), "0");
    assert_eq!(decimal_string(9), "9");
    assert_eq!(decimal_string(10), "10");
    assert_eq!(decimal_string(65536), "65536");
    assert_eq!(decimal_string(usize::MAX), format!("{}", usize::MAX));
}
