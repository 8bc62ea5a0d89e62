use nice_view::rotate::{rotate_dims, rotate_point, ScreenPoint};

#[test]
fn origin_lands_on_width() {
    let r = rotate_point(ScreenPoint { x: 0, y: 0 }, 144);
    assert_eq!(r, ScreenPoint { x: 144, y: 0 });
}

#[test]
fn point_rotation_formula() {
    let r = rotate_point(ScreenPoint { x: 3, y: 5 }, 100);
    assert_eq!(r, ScreenPoint { x: 95, y: 3 });
    let r = rotate_point(ScreenPoint { x: 67, y: 10 }, 160);
    assert_eq!(r, ScreenPoint { x: 150, y: 67 });
}

#[test]
fn dims_swap_is_involution() {
    let once = rotate_dims(400, 240);
    assert_eq!(once, (240, 400));
    let twice = rotate_dims(once.0, once.1);
    assert_eq!(twice, (400, 240));
}
