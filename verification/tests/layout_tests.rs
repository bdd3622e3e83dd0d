use snake_rs::Rect;

#[test]
fn rect_new_keeps_what_fits() {
    assert_eq!(Rect::new(1, 2, 3, 4), Rect { x: 1, y: 2, width: 3, height: 4 });
    assert_eq!(Rect::new(0, 0, u16::MAX, u16::MAX), Rect { x: 0, y: 0, width: u16::MAX, height: u16::MAX });
}

#[test]
fn rect_new_cuts_what_reaches_beyond_the_largest_coordinate() {
    assert_eq!(Rect::new(65530, 0, 10, 5), Rect { x: 65530, y: 0, width: 5, height: 5 });
    assert_eq!(Rect::new(3, 65535, 10, 5), Rect { x: 3, y: 65535, width: 10, height: 0 });
    assert_eq!(
        Rect::new(u16::MAX, u16::MAX, u16::MAX, u16::MAX),
        Rect { x: u16::MAX, y: u16::MAX, width: 0, height: 0 }
    );
}

#[test]
fn inside_border_shrinks_by_one_cell_on_every_side() {
    let area = Rect { x: 5, y: 7, width: 20, height: 10 };
    assert_eq!(area.inside_border(), Rect { x: 6, y: 8, width: 18, height: 8 });
    let frame = Rect { x: 0, y: 0, width: 82, height: 26 };
    assert_eq!(frame.inside_border(), Rect { x: 1, y: 1, width: 80, height: 24 });
}

#[test]
fn inside_border_of_a_thin_rect_is_empty() {
    assert_eq!(
        Rect { x: 5, y: 7, width: 2, height: 1 }.inside_border(),
        Rect { x: 6, y: 8, width: 0, height: 0 }
    );
    assert_eq!(
        Rect { x: 5, y: 7, width: 1, height: 2 }.inside_border(),
        Rect { x: 6, y: 8, width: 0, height: 0 }
    );
    assert_eq!(
        Rect { x: 5, y: 7, width: 0, height: 0 }.inside_border(),
        Rect { x: 5, y: 7, width: 0, height: 0 }
    );
}

#[test]
fn inside_border_stops_at_the_largest_coordinate() {
    assert_eq!(
        Rect { x: u16::MAX, y: u16::MAX, width: 4, height: 4 }.inside_border(),
        Rect { x: u16::MAX, y: u16::MAX, width: 2, height: 2 }
    );
    assert_eq!(
        Rect { x: u16::MAX - 1, y: 0, width: 0, height: 9 }.inside_border(),
        Rect { x: u16::MAX - 1, y: 1, width: 0, height: 7 }
    );
}
