use stl_gallery::camera::{Direction, View};

fn d(x: i8, y: i8, z: i8) -> Direction {
    Direction { x, y, z }
}

#[test]
fn all_lists_fourteen_views_in_order() {
    let all = View::all();
    assert_eq!(all.len(), 14);
    assert_eq!(all[0], View::Front);
    assert_eq!(all[5], View::Bottom);
    assert_eq!(all[6], View::IsoTopFrontRight);
    assert_eq!(all[13], View::IsoBottomBackLeft);
    for (i, a) in all.iter().enumerate() {
        for b in &all[i + 1..] {
            assert_ne!(a, b);
        }
    }
}

#[test]
fn names_match_gallery_listing() {
    let names: Vec<&str> = View::all().iter().map(|v| v.name()).collect();
    assert_eq!(
        names,
        vec![
            "front",
            "back",
            "left",
            "right",
            "top",
            "bottom",
            "iso_top_front_right",
            "iso_top_front_left",
            "iso_top_back_right",
            "iso_top_back_left",
            "iso_bottom_front_right",
            "iso_bottom_front_left",
            "iso_bottom_back_right",
            "iso_bottom_back_left",
        ]
    );
}

#[test]
fn names_are_distinct() {
    let mut names: Vec<&str> = View::all().iter().map(|v| v.name()).collect();
    names.sort();
    names.dedup();
    assert_eq!(names.len(), 14);
}

#[test]
fn cardinal_eye_directions_are_axes() {
    assert_eq!(View::Front.eye_direction(), d(0, 0, 1));
    assert_eq!(View::Back.eye_direction(), d(0, 0, -1));
    assert_eq!(View::Right.eye_direction(), d(1, 0, 0));
    assert_eq!(View::Left.eye_direction(), d(-1, 0, 0));
    assert_eq!(View::Top.eye_direction(), d(0, 1, 0));
    assert_eq!(View::Bottom.eye_direction(), d(0, -1, 0));
}

#[test]
fn iso_eye_directions_are_cube_corners() {
    assert_eq!(View::IsoTopFrontRight.eye_direction(), d(1, 1, 1));
    assert_eq!(View::IsoTopBackLeft.eye_direction(), d(-1, 1, -1));
    assert_eq!(View::IsoBottomFrontLeft.eye_direction(), d(-1, -1, 1));
    assert_eq!(View::IsoBottomBackRight.eye_direction(), d(1, -1, -1));
}

#[test]
fn up_vectors_avoid_degenerate_look_at() {
    assert_eq!(View::Top.up_vector(), d(0, 0, -1));
    assert_eq!(View::Bottom.up_vector(), d(0, 0, 1));
    assert_eq!(View::Front.up_vector(), d(0, 1, 0));
    assert_eq!(View::IsoBottomBackLeft.up_vector(), d(0, 1, 0));
    for v in View::all() {
        let e = v.eye_direction();
        let u = v.up_vector();
        let cross = (
            e.y as i32 * u.z as i32 - e.z as i32 * u.y as i32,
            e.z as i32 * u.x as i32 - e.x as i32 * u.z as i32,
            e.x as i32 * u.y as i32 - e.y as i32 * u.x as i32,
        );
        assert_ne!(cross, (0, 0, 0), "{:?}", v);
    }
}

#[test]
fn iso_names_describe_their_corner() {
    for v in &View::all()[6..] {
        let e = v.eye_direction();
        let expected = format!(
            "iso_{}_{}_{}",
            if e.y > 0 { "top" } else { "bottom" },
            if e.z > 0 { "front" } else { "back" },
            if e.x > 0 { "right" } else { "left" }
        );
        assert_eq!(v.name(), expected);
    }
}

#[test]
fn names_hold_exactly_the_words_of_their_direction() {
    for v in View::all() {
        let e = v.eye_direction();
        let n = v.name();
        assert_eq!(e.y > 0, n.contains("top"), "{:?}", v);
        assert_eq!(e.y < 0, n.contains("bottom"), "{:?}", v);
        assert_eq!(e.z > 0, n.contains("front"), "{:?}", v);
        assert_eq!(e.z < 0, n.contains("back"), "{:?}", v);
        assert_eq!(e.x > 0, n.contains("right"), "{:?}", v);
        assert_eq!(e.x < 0, n.contains("left"), "{:?}", v);
    }
}
