use pathfinder_view::geometry::Vector;
use pathfinder_view::scroll::{
    default_line_scroll_factor, default_pixel_scroll_factor, get_scroll_factors, split_pair,
};

fn pair(x: &str, y: &str) -> Option<(String, String)> {
    Some((x.to_string(), y.to_string()))
}

#[test]
fn text_is_split_at_the_first_comma() {
    assert_eq!(split_pair("1.5,-2"), pair("1.5", "-2"));
    assert_eq!(split_pair("a,b,c"), pair("a", "b,c"));
    assert_eq!(split_pair(","), pair("", ""));
    assert_eq!(split_pair(",1"), pair("", "1"));
    assert_eq!(split_pair("1,"), pair("1", ""));
    assert_eq!(split_pair("\u{e9}\u{20ac},\u{1f600}"), pair("\u{e9}\u{20ac}", "\u{1f600}"));
}

#[test]
fn text_without_a_comma_is_no_pair() {
    assert_eq!(split_pair(""), None);
    assert_eq!(split_pair("12"), None);
    assert_eq!(split_pair("1;2"), None);
}

#[test]
fn scroll_factors_fall_back_to_the_defaults() {
    assert_eq!(default_pixel_scroll_factor(), Vector::from_units(1, 1));
    assert_eq!(default_line_scroll_factor(), Vector::from_units(10, -10));
    assert_eq!(
        get_scroll_factors(None, None),
        (Vector::from_units(1, 1), Vector::from_units(10, -10))
    );
    assert_eq!(
        get_scroll_factors(Some(Vector::new(3, 4)), None),
        (Vector::new(3, 4), Vector::from_units(10, -10))
    );
    assert_eq!(
        get_scroll_factors(None, Some(Vector::new(5, 6))),
        (Vector::from_units(1, 1), Vector::new(5, 6))
    );
}
