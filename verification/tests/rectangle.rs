use growable_array::rectangle::Rectangle;

#[test]
fn area_of_rectangle() {
    let rect = Rectangle::new(30, 50);
    assert_eq!(rect.area(), 1500);
}

#[test]
fn double_size_doubles_both_sides() {
    let mut rect = Rectangle::new(30, 50);
    rect.double_size();
    assert_eq!(rect.width, 60);
    assert_eq!(rect.height, 100);
    assert_eq!(rect.area(), 6000);
}

#[test]
fn can_hold_is_strict_on_both_axes() {
    let rect = Rectangle::new(60, 100);
    let smaller = Rectangle::new(10, 40);
    let too_wide = Rectangle::new(60, 40);
    assert!(rect.can_hold(&smaller));
    assert!(!rect.can_hold(&too_wide));
    assert!(!smaller.can_hold(&rect));
}

#[test]
fn squares_are_square() {
    let square = Rectangle::square(25);
    assert!(square.is_square());
    assert_eq!(square.area(), 625);
    let rect = Rectangle::new(25, 26);
    assert!(!rect.is_square());
}

#[test]
fn consume_returns_final_area() {
    let rect = Rectangle::new(12, 4);
    assert_eq!(rect.consume(), 48);
}
