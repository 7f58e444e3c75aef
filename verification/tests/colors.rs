use gaia::color::Color;
use gaia::error::ErrorKind;

#[test]
fn the_sixteen_names_have_their_numbers() {
    let table = [
        ("black", 0x000000),
        ("dark_blue", 0x0000AA),
        ("dark_green", 0x00AA00),
        ("dark_aqua", 0x00AAAA),
        ("dark_red", 0xAA0000),
        ("dark_purple", 0xAA00AA),
        ("gold", 0xFFAA00),
        ("gray", 0xAAAAAA),
        ("dark_gray", 0x555555),
        ("blue", 0x5555FF),
        ("green", 0x55FF55),
        ("aqua", 0x55FFFF),
        ("red", 0xFF5555),
        ("light_purple", 0xFF55FF),
        ("yellow", 0xFFFF55),
        ("white", 0xFFFFFF),
    ];
    for (name, value) in table {
        assert_eq!(Color::get_color_from_str(name), Some(value), "{name}");
        assert_eq!(Color::Name(name.to_string()).get_color(), Some(value));
        assert_eq!(Color::parse(name).unwrap(), Color::Name(name.to_string()));
    }
}

#[test]
fn other_names_have_no_number() {
    for name in ["", "Black", "grey", "orange", "dark blue", "white "] {
        assert_eq!(Color::get_color_from_str(name), None, "{name:?}");
        assert_eq!(Color::Name(name.to_string()).get_color(), None);
    }
}

#[test]
fn a_number_is_its_own_colour() {
    assert_eq!(Color::Hex(0x123456).get_color(), Some(0x123456));
    assert_eq!(Color::parse("16711680").unwrap(), Color::Hex(16711680));
    assert_eq!(Color::parse("0").unwrap(), Color::Hex(0));
    assert_eq!(Color::parse("+7").unwrap(), Color::Hex(7));
    assert_eq!(Color::parse("4294967295").unwrap(), Color::Hex(u32::MAX));
}

#[test]
fn an_unknown_colour_is_a_deserialize_error_that_carries_it() {
    for bad in ["orange", "#ff0000", "4294967296", "-1", "", "0xff"] {
        let e = Color::parse(bad).unwrap_err();
        assert_eq!(e.kind(), ErrorKind::Deserialize, "{bad:?}");
        assert_eq!(e.payload(), bad);
    }
}
