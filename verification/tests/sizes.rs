use minibooru::error::Error;
use minibooru::{decimal, readable_file_size};

fn size(raw: u64) -> String {
    readable_file_size(raw).ok().unwrap()
}

#[test]
fn bytes_below_one_kibibyte() {
    assert_eq!(size(0), "0.0\u{00A0}B");
    assert_eq!(size(1), "1.0\u{00A0}B");
    assert_eq!(size(1023), "1023.0\u{00A0}B");
}

#[test]
fn kibibytes() {
    assert_eq!(size(1024), "1.0\u{00A0}KiB");
    assert_eq!(size(1536), "1.5\u{00A0}KiB");
    assert_eq!(size(1408), "1.4\u{00A0}KiB");
    assert_eq!(size(10 * 1024 + 100), "10.1\u{00A0}KiB");
}

#[test]
fn ties_go_to_the_even_tenth() {
    assert_eq!(size(1280), "1.2\u{00A0}KiB");
    assert_eq!(size(1792), "1.8\u{00A0}KiB");
    assert_eq!(size(1024 + 51), "1.0\u{00A0}KiB");
    assert_eq!(size(1024 + 52), "1.1\u{00A0}KiB");
}

#[test]
fn rounding_may_reach_1024_of_a_unit() {
    assert_eq!(size(1024 * 1024 - 1), "1024.0\u{00A0}KiB");
    assert_eq!(size((1u64 << 40) - 1), "1024.0\u{00A0}GiB");
}

#[test]
fn mebibytes_and_gibibytes() {
    assert_eq!(size(1024 * 1024), "1.0\u{00A0}MiB");
    assert_eq!(size(5 * 1024 * 1024 + 512 * 1024), "5.5\u{00A0}MiB");
    assert_eq!(size(1 << 30), "1.0\u{00A0}GiB");
    assert_eq!(size(3 * (1 << 30) + (1 << 29)), "3.5\u{00A0}GiB");
}

#[test]
fn a_tebibyte_has_no_text() {
    for raw in [1u64 << 40, (1 << 40) + 1, u64::MAX] {
        match readable_file_size(raw) {
            Err(Error::Internal(why)) => {
                assert_eq!(why, "Given byte count too large to compute a human readable file size")
            },
            _ => panic!("expected a failure"),
        }
    }
}

#[test]
fn sizes_agree_with_floating_point_formatting() {
    let mut raw: u64 = 0;
    while raw < (1 << 40) {
        let mut value = raw as f64;
        let mut expected = String::new();
        for unit in ["", "Ki", "Mi", "Gi"] {
            if value < 1024.0 {
                expected = format!("{value:.1}\u{00A0}{unit}B");
                break;
            }
            value /= 1024.0;
        }
        assert_eq!(size(raw), expected);
        raw = raw * 3 / 2 + 7;
    }
}

#[test]
fn decimal_notation() {
    assert_eq!(decimal(0), "0");
    assert_eq!(decimal(7), "7");
    assert_eq!(decimal(10), "10");
    assert_eq!(decimal(1024), "1024");
    assert_eq!(decimal(u64::MAX), "18446744073709551615");
}
