use gaia::error::ErrorKind;
use gaia::format::DatapackFormat;
use gaia::json::parse_json;
use gaia::range::FormatRange;

fn range(text: &str) -> Result<FormatRange, gaia::error::DatapackError> {
    FormatRange::from_json(&parse_json(text).unwrap())
}

#[test]
fn the_three_forms_of_one_format_are_the_same_range() {
    let single = range("6").unwrap();
    let pair = range("[6,6]").unwrap();
    let object = range("{\"min_inclusive\":6,\"max_inclusive\":6}").unwrap();
    let expected = FormatRange { min: DatapackFormat::Format6, max: DatapackFormat::Format6 };
    assert_eq!(single, expected);
    assert_eq!(pair, expected);
    assert_eq!(object, expected);
}

#[test]
fn the_forms_agree_for_every_known_format() {
    for format in DatapackFormat::variants() {
        let n = format.format_number();
        let expected = FormatRange { min: format, max: format };
        assert_eq!(range(&format!("{n}")).unwrap(), expected);
        assert_eq!(range(&format!("[{n}, {n}]")).unwrap(), expected);
        assert_eq!(
            range(&format!("{{\"max_inclusive\": {n}, \"min_inclusive\": {n}}}")).unwrap(),
            expected
        );
        assert_eq!(FormatRange::single(format), expected);
    }
}

#[test]
fn a_pair_and_an_object_give_both_bounds() {
    let expected = FormatRange { min: DatapackFormat::Format18, max: DatapackFormat::Format41 };
    assert_eq!(range("[18, 41]").unwrap(), expected);
    assert_eq!(range("{\"min_inclusive\": 18, \"max_inclusive\": 41, \"more\": 1}").unwrap(), expected);
}

#[test]
fn reading_does_not_ask_whether_the_range_is_allowed() {
    let reversed = range("[41, 18]").unwrap();
    assert_eq!(reversed, FormatRange { min: DatapackFormat::Format41, max: DatapackFormat::Format18 });
    assert!(!reversed.is_valid());
}

#[test]
fn an_unknown_bound_is_a_format_error_that_carries_it() {
    let e = range("11").unwrap_err();
    assert_eq!(e.kind(), ErrorKind::Format);
    assert_eq!(e.payload(), "11");
    let e = range("[18, 999]").unwrap_err();
    assert_eq!(e.kind(), ErrorKind::Format);
    assert_eq!(e.payload(), "999");
    let e = range("[5, 999]").unwrap_err();
    assert_eq!(e.payload(), "5");
    let e = range("{\"min_inclusive\": -6, \"max_inclusive\": 6}").unwrap_err();
    assert_eq!(e.kind(), ErrorKind::Format);
    assert_eq!(e.payload(), "-6");
    let e = range("18446744073709551615").unwrap_err();
    assert_eq!(e.kind(), ErrorKind::Format);
    assert_eq!(e.payload(), "18446744073709551615");
    assert_eq!(range("262").unwrap_err().payload(), "262");
}

#[test]
fn other_shapes_are_deserialize_errors() {
    for bad in ["\"6\"", "6.0", "[6]", "[6, 6, 6]", "[]", "[6, \"6\"]", "{\"min_inclusive\": 6}", "{\"max_inclusive\": 6}", "{}", "null", "true", "[6.5, 7]", "[999, \"x\"]"] {
        assert_eq!(range(bad).unwrap_err().kind(), ErrorKind::Deserialize, "{bad}");
    }
}

#[test]
fn a_range_of_one_format_is_always_allowed() {
    for format in DatapackFormat::variants() {
        assert!(FormatRange::single(format).is_valid());
    }
}

#[test]
fn a_wider_range_must_start_at_the_threshold_and_be_in_order() {
    let all = DatapackFormat::variants();
    for min in &all {
        for max in &all {
            let r = FormatRange { min: *min, max: *max };
            let expected = min == max || (min.format_number() >= 18 && min < max);
            assert_eq!(r.is_valid(), expected, "{r:?}");
        }
    }
}

#[test]
fn contains_is_inclusive() {
    let r = FormatRange { min: DatapackFormat::Format18, max: DatapackFormat::Format41 };
    assert!(r.contains(DatapackFormat::Format18));
    assert!(r.contains(DatapackFormat::Format26));
    assert!(r.contains(DatapackFormat::Format41));
    assert!(!r.contains(DatapackFormat::Format15));
}
