use libewmh::layout::{
    center, edge, four_thirds_of, grow, position, shape_target, shrink, three_quarters_of,
    usable_extent,
};
use libewmh::{WinGravity, WinPosition, WinShape};

#[test]
fn it_works() {
    assert_eq!(2 + 2, 4);
}

#[test]
fn grow_adds_a_hundredth_of_the_content() {
    assert_eq!(grow(500, 20, 1000), 504);
    assert_eq!(grow(500, 0, 1000), 505);
    assert_eq!(grow(120, 20, 1000), 121);
}

#[test]
fn grow_stops_at_the_usable_extent() {
    assert_eq!(grow(975, 20, 1000), 980);
    assert_eq!(grow(980, 20, 1000), 980);
    assert_eq!(grow(2000, 20, 1000), 980);
}

#[test]
fn repeated_growth_ends_at_the_usable_extent() {
    let mut width = 500;
    let mut steps = 0;
    while width != 980 {
        let next = grow(width, 20, 1000);
        assert!(next > width);
        width = next;
        steps += 1;
        assert!(steps < 1000);
    }
    assert_eq!(grow(width, 20, 1000), 980);
}

#[test]
fn growth_of_a_small_content_stands_still() {
    assert_eq!(grow(70, 20, 1000), 70);
    assert_eq!(grow(10, 20, 1000), 20);
}

#[test]
fn shrink_takes_a_hundredth_of_the_content() {
    assert_eq!(shrink(520, 20), 515);
    assert_eq!(shrink(1000, 0), 990);
}

#[test]
fn shrink_keeps_a_hundred_pixels_of_content() {
    assert_eq!(shrink(120, 20), 120);
    assert_eq!(shrink(121, 20), 120);
    assert_eq!(shrink(50, 20), 120);
    assert_eq!(shrink(5, 20), 120);
    assert_eq!(shrink(u32::MAX, u32::MAX), u32::MAX);
}

#[test]
fn usable_extent_stops_at_zero() {
    assert_eq!(usable_extent(1000, 20), 980);
    assert_eq!(usable_extent(10, 20), 0);
}

#[test]
fn fractions_round_down() {
    assert_eq!(three_quarters_of(1001), 750);
    assert_eq!(four_thirds_of(1000), 1333);
    assert_eq!(four_thirds_of(u32::MAX), u32::MAX);
}

#[test]
fn shapes_on_a_wide_work_area() {
    let c = Some(WinGravity::Center);
    assert_eq!(shape_target(WinShape::Halfw, 1, 1, 10, 20, 1000, 800), (c, Some(495), Some(780)));
    assert_eq!(shape_target(WinShape::Halfh, 1, 1, 10, 20, 1000, 800), (c, Some(990), Some(390)));
    assert_eq!(shape_target(WinShape::Small, 1, 1, 10, 20, 1000, 800), (c, Some(495), Some(390)));
    assert_eq!(shape_target(WinShape::Medium, 1, 1, 10, 20, 1000, 800), (c, Some(780), Some(585)));
    assert_eq!(shape_target(WinShape::Large, 1, 1, 10, 20, 1000, 800), (c, Some(1040), Some(780)));
    assert_eq!(shape_target(WinShape::Grow, 500, 400, 20, 20, 1000, 800), (c, Some(504), Some(403)));
    assert_eq!(shape_target(WinShape::Shrink, 520, 120, 20, 20, 1000, 800), (c, Some(515), Some(120)));
}

#[test]
fn shapes_on_a_tall_work_area() {
    let c = Some(WinGravity::Center);
    assert_eq!(shape_target(WinShape::Medium, 1, 1, 0, 0, 800, 1000), (c, Some(600), Some(800)));
    assert_eq!(shape_target(WinShape::Large, 1, 1, 0, 0, 800, 1000), (c, Some(800), Some(1066)));
    assert_eq!(shape_target(WinShape::Medium, 1, 1, 0, 0, 800, 800), (c, Some(600), Some(800)));
}

#[test]
fn shapes_that_set_no_size() {
    assert_eq!(shape_target(WinShape::Max, 5, 6, 1, 2, 1000, 800), (None, None, None));
    assert_eq!(shape_target(WinShape::UnMax, 5, 6, 1, 2, 1000, 800), (None, None, None));
    assert_eq!(
        shape_target(WinShape::Square, 5, 6, 1, 2, 1000, 800),
        (Some(WinGravity::Unset), None, None)
    );
}

#[test]
fn a_shape_applied_twice_gives_the_same_size() {
    let shapes = [
        WinShape::Max,
        WinShape::UnMax,
        WinShape::Halfw,
        WinShape::Halfh,
        WinShape::Small,
        WinShape::Medium,
        WinShape::Large,
        WinShape::Square,
    ];
    for shape in shapes {
        let once = shape_target(shape, 640, 480, 8, 30, 1920, 1050);
        let w = once.1.unwrap_or(640);
        let h = once.2.unwrap_or(480);
        let twice = shape_target(shape, w, h, 8, 30, 1920, 1050);
        assert_eq!(once, twice);
    }
}

#[test]
fn position_right_and_center() {
    assert_eq!(position(WinPosition::Right, 300, 200, 0, 0, 1000, 800), (Some(700), None));
    assert_eq!(position(WinPosition::Center, 300, 200, 0, 0, 1000, 800), (Some(350), Some(300)));
}

#[test]
fn every_position() {
    let at = |pos| position(pos, 300, 200, 10, 30, 1000, 800);
    assert_eq!(at(WinPosition::Center), (Some(345), Some(285)));
    assert_eq!(at(WinPosition::Left), (Some(0), None));
    assert_eq!(at(WinPosition::Right), (Some(690), None));
    assert_eq!(at(WinPosition::Top), (None, Some(0)));
    assert_eq!(at(WinPosition::Bottom), (None, Some(570)));
    assert_eq!(at(WinPosition::TopLeft), (Some(0), Some(0)));
    assert_eq!(at(WinPosition::TopRight), (Some(690), Some(0)));
    assert_eq!(at(WinPosition::BottomLeft), (Some(0), Some(570)));
    assert_eq!(at(WinPosition::BottomRight), (Some(690), Some(570)));
    assert_eq!(at(WinPosition::LeftCenter), (Some(0), Some(285)));
    assert_eq!(at(WinPosition::RightCenter), (Some(690), Some(285)));
    assert_eq!(at(WinPosition::TopCenter), (Some(345), Some(0)));
    assert_eq!(at(WinPosition::BottomCenter), (Some(345), Some(570)));
}

#[test]
fn a_window_larger_than_the_work_area_is_put_at_zero() {
    assert_eq!(center(1000, 1200, 0), 0);
    assert_eq!(edge(1000, 1200, 0), 0);
    assert_eq!(edge(1000, 995, 10), 0);
    assert_eq!(center(1000, u32::MAX, u32::MAX), 0);
    assert_eq!(position(WinPosition::BottomRight, 2000, 2000, 0, 0, 1000, 800), (Some(0), Some(0)));
}
