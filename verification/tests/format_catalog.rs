use gaia::format::DatapackFormat;

const CODES: [i64; 10] = [6, 7, 8, 9, 10, 12, 15, 18, 26, 41];

#[test]
fn every_known_code_round_trips() {
    for code in CODES {
        let format = DatapackFormat::from_format_number(code).expect("a known code");
        assert_eq!(format.format_number() as i64, code);
    }
}

#[test]
fn every_format_resolves_from_its_own_code() {
    let all = DatapackFormat::variants();
    assert_eq!(all.len(), 10);
    for format in all {
        assert_eq!(DatapackFormat::from_format_number(format.format_number() as i64), Some(format));
    }
}

#[test]
fn unknown_codes_are_not_rounded_to_a_neighbour() {
    for code in [0, 1, 5, 11, 13, 14, 16, 17, 19, 25, 27, 34, 40, 42, 255, 256, 262, -6, i64::MAX, i64::MIN] {
        assert_eq!(DatapackFormat::from_format_number(code), None, "code {code}");
    }
}

#[test]
fn a_code_that_wraps_to_a_known_byte_is_unknown() {
    // 262 is 6 modulo 256.
    assert_eq!(DatapackFormat::from_format_number(262), None);
    assert_eq!(DatapackFormat::from_format_number(256 + 18), None);
}

#[test]
fn formats_compare_as_their_codes_do() {
    let all = DatapackFormat::variants();
    for a in &all {
        for b in &all {
            let (x, y) = (a.format_number(), b.format_number());
            assert_eq!(a >= b, x >= y);
            assert_eq!(a > b, x > y);
            assert_eq!(a <= b, x <= y);
            assert_eq!(a < b, x < y);
            assert_eq!(a == b, x == y);
        }
    }
}

#[test]
fn distinct_formats_never_tie() {
    let all = DatapackFormat::variants();
    for (i, a) in all.iter().enumerate() {
        for (j, b) in all.iter().enumerate() {
            if i != j {
                assert_ne!(a, b);
                assert!(a < b || a > b);
            }
        }
    }
}

#[test]
fn variants_are_listed_oldest_first() {
    let codes: Vec<i64> = DatapackFormat::variants().iter().map(|f| f.format_number() as i64).collect();
    assert_eq!(codes, CODES.to_vec());
}

#[test]
fn overlays_start_at_format_18() {
    assert_eq!(DatapackFormat::get_minimum_overlay_version(), DatapackFormat::Format18);
    for format in DatapackFormat::variants() {
        assert_eq!(format.supports_overlays(), format.format_number() >= 18, "{format:?}");
    }
    assert!(!DatapackFormat::Format15.supports_overlays());
    assert!(DatapackFormat::Format18.supports_overlays());
    assert!(DatapackFormat::Format26.supports_overlays());
    assert!(DatapackFormat::Format41.supports_overlays());
}

#[test]
fn version_ranges_are_exact() {
    assert_eq!(DatapackFormat::Format6.get_version_range(), [(16, 2), (16, 5)]);
    assert_eq!(DatapackFormat::Format7.get_version_range(), [(17, 0), (17, 1)]);
    assert_eq!(DatapackFormat::Format8.get_version_range(), [(18, 0), (18, 1)]);
    assert_eq!(DatapackFormat::Format9.get_version_range(), [(18, 2), (18, 2)]);
    assert_eq!(DatapackFormat::Format10.get_version_range(), [(19, 0), (19, 3)]);
    assert_eq!(DatapackFormat::Format12.get_version_range(), [(19, 4), (19, 4)]);
    assert_eq!(DatapackFormat::Format15.get_version_range(), [(20, 0), (20, 1)]);
    assert_eq!(DatapackFormat::Format18.get_version_range(), [(20, 2), (20, 2)]);
    assert_eq!(DatapackFormat::Format26.get_version_range(), [(20, 3), (20, 4)]);
    assert_eq!(DatapackFormat::Format41.get_version_range(), [(20, 5), (20, 5)]);
}

#[test]
fn later_formats_denote_later_versions() {
    let all = DatapackFormat::variants();
    for pair in all.windows(2) {
        let earlier = pair[0].get_version_range();
        let later = pair[1].get_version_range();
        assert!(earlier[0] <= earlier[1]);
        assert!(earlier[1] < later[0], "{:?} before {:?}", pair[0], pair[1]);
    }
}

#[test]
fn the_total_order_is_the_order_of_the_codes() {
    let all = DatapackFormat::variants();
    for a in &all {
        for b in &all {
            assert_eq!(a.cmp(b), a.format_number().cmp(&b.format_number()));
            assert_eq!(a.partial_cmp(b), Some(a.cmp(b)));
        }
    }
    let mut shuffled = vec![DatapackFormat::Format41, DatapackFormat::Format6, DatapackFormat::Format18];
    shuffled.sort();
    assert_eq!(shuffled, vec![DatapackFormat::Format6, DatapackFormat::Format18, DatapackFormat::Format41]);
}
