use computex::display::geometry_query_args;
use computex::display::parse_geometry;
use computex::errors::ActionError;
use computex::geometry::scale_point;

#[test]
fn scale_stays_within_display_bounds() {
    let xs = [0i64, 1, 639, 640, 1278, 1279];
    let ys = [0i64, 1, 359, 360, 718, 719];
    let sizes = [(1u32, 1u32), (640, 480), (1920, 1080), (3840, 2160), (5, 7), (u32::MAX, u32::MAX)];
    for &x in &xs {
        for &y in &ys {
            for &(w, h) in &sizes {
                let (px, py) = scale_point(x, y, w, h);
                assert!(px <= w, "px {px} escapes width {w}");
                assert!(py <= h, "py {py} escapes height {h}");
            }
        }
    }
}

#[test]
fn scale_center_of_logical_viewport() {
    assert_eq!(scale_point(640, 360, 1920, 1080), (960, 540));
}

#[test]
fn scale_clamps_out_of_range_coordinates() {
    assert_eq!(scale_point(-5, -5, 1920, 1080), scale_point(0, 0, 1920, 1080));
    assert_eq!(scale_point(2000, 800, 1920, 1080), scale_point(1279, 719, 1920, 1080));
    assert_eq!(scale_point(-5, 0, 1920, 1080).0, 0);
    assert_eq!(scale_point(2000, 0, 1920, 1080).0, 1919);
}

#[test]
fn scale_is_a_pure_function() {
    let first = scale_point(123, 456, 2560, 1440);
    let second = scale_point(123, 456, 2560, 1440);
    assert_eq!(first, second);
}

#[test]
fn scale_rounds_half_up() {
    // 1 * 1920 / 1280 = 1.5 rounds away from zero to 2.
    assert_eq!(scale_point(1, 0, 1920, 1080).0, 2);
}

#[test]
fn geometry_report_parses() {
    assert_eq!(parse_geometry("1920 1080").unwrap(), (1920, 1080));
    assert_eq!(parse_geometry("  1920   1080  extra\n").unwrap(), (1920, 1080));
}

#[test]
fn geometry_report_missing_width() {
    let e = parse_geometry("   ").unwrap_err();
    assert!(matches!(e, ActionError::ArgumentParseFailure { .. }));
    assert_eq!(
        e.message(),
        "failed to parse function arguments: xdotool getdisplaygeometry returned no width"
    );
}

#[test]
fn geometry_report_invalid_width() {
    let e = parse_geometry("abc 1080").unwrap_err();
    assert_eq!(
        e.message(),
        "failed to parse function arguments: xdotool getdisplaygeometry invalid width"
    );
    let zero = parse_geometry("0 1080").unwrap_err();
    assert_eq!(
        zero.message(),
        "failed to parse function arguments: xdotool getdisplaygeometry invalid width"
    );
}

#[test]
fn geometry_report_missing_or_invalid_height() {
    let missing = parse_geometry("1920").unwrap_err();
    assert_eq!(
        missing.message(),
        "failed to parse function arguments: xdotool getdisplaygeometry returned no height"
    );
    let invalid = parse_geometry("1920 10x0").unwrap_err();
    assert_eq!(
        invalid.message(),
        "failed to parse function arguments: xdotool getdisplaygeometry invalid height"
    );
}

#[test]
fn geometry_query_arguments_are_reproduced_exactly() {
    assert_eq!(geometry_query_args(), vec!["getdisplaygeometry"]);
}
