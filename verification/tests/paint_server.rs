use rsvg_internals::paint_server::{CoordUnits, PaintServerSpread, SpreadMethod};
use rsvg_internals::parsers::{Parse, ParseError};

#[test]
fn paint_server_parsing_invalid_strings_yields_error() {
    assert!(CoordUnits::parse("", ()).is_err());
    assert!(CoordUnits::parse("foo", ()).is_err());
}

#[test]
fn paint_server_parses_paint_server_units() {
    assert_eq!(CoordUnits::parse("userSpaceOnUse", ()), Ok(CoordUnits::UserSpaceOnUse));
    assert_eq!(CoordUnits::parse("objectBoundingBox", ()), Ok(CoordUnits::ObjectBoundingBox));
}

#[test]
fn parses_spread_method() {
    assert_eq!(
        PaintServerSpread::parse("pad", ()),
        Ok(PaintServerSpread(SpreadMethod::Pad))
    );

    assert_eq!(
        PaintServerSpread::parse("reflect", ()),
        Ok(PaintServerSpread(SpreadMethod::Reflect))
    );

    assert_eq!(
        PaintServerSpread::parse("repeat", ()),
        Ok(PaintServerSpread(SpreadMethod::Repeat))
    );

    assert!(PaintServerSpread::parse("foobar", ()).is_err());
}

#[test]
fn spread_defaults_to_pad() {
    assert_eq!(PaintServerSpread::default(), PaintServerSpread(SpreadMethod::Pad));
}

#[test]
fn spread_error_names_the_three_keywords() {
    let expected = ParseError::new("expected 'pad' | 'reflect' | 'repeat'");
    assert_eq!(PaintServerSpread::parse("", ()), Err(expected.clone()));
    assert_eq!(PaintServerSpread::parse("foobar", ()), Err(expected.clone()));
    assert!(expected.display.contains("pad"));
    assert!(expected.display.contains("reflect"));
    assert!(expected.display.contains("repeat"));
}

#[test]
fn spread_match_is_exact() {
    assert!(PaintServerSpread::parse("Pad", ()).is_err());
    assert!(PaintServerSpread::parse("PAD", ()).is_err());
    assert!(PaintServerSpread::parse(" pad", ()).is_err());
    assert!(PaintServerSpread::parse("pad ", ()).is_err());
    assert!(PaintServerSpread::parse("pa", ()).is_err());
    assert!(PaintServerSpread::parse("padd", ()).is_err());
    assert!(PaintServerSpread::parse("reflec", ()).is_err());
    assert!(PaintServerSpread::parse("repeat\t", ()).is_err());
    assert!(PaintServerSpread::parse("none", ()).is_err());
    assert!(PaintServerSpread::parse("userSpaceOnUse", ()).is_err());
}

#[test]
fn spread_methods_differ() {
    assert_ne!(PaintServerSpread::parse("pad", ()), PaintServerSpread::parse("reflect", ()));
    assert_ne!(PaintServerSpread::parse("pad", ()), PaintServerSpread::parse("repeat", ()));
    assert_ne!(PaintServerSpread::parse("reflect", ()), PaintServerSpread::parse("repeat", ()));
}
