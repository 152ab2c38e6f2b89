use board_plugin::coordinates::Coordinates;

#[test]
fn coordinates_it_works() {
    let num = -2i16;
    println!("i16 number {} as u16 is {}", num, num as u16);
}

#[test]
fn signed_delta_wraps_negative_to_max() {
    let c = Coordinates { x: 0, y: 0 }.add((-1, 0));
    assert_eq!(c.x, u16::MAX);
    assert_eq!(c.y, 0);
    let c = Coordinates { x: 0, y: 0 }.add((0, -1));
    assert_eq!(c.x, 0);
    assert_eq!(c.y, u16::MAX);
    let c = Coordinates { x: 3, y: 4 }.add((-2, 1));
    assert_eq!(c, Coordinates { x: 1, y: 5 });
}

#[test]
fn signed_delta_wraps_over_the_top() {
    let c = Coordinates { x: u16::MAX, y: 7 }.add((1, 0));
    assert_eq!(c, Coordinates { x: 0, y: 7 });
}

#[test]
fn componentwise_add_wraps() {
    let c = Coordinates { x: 2, y: 3 }.add_coordinates(Coordinates { x: 4, y: 5 });
    assert_eq!(c, Coordinates { x: 6, y: 8 });
    let c = Coordinates { x: u16::MAX, y: 1 }.add_coordinates(Coordinates { x: 1, y: 2 });
    assert_eq!(c, Coordinates { x: 0, y: 3 });
}

#[test]
fn sub_saturates_at_zero() {
    let c = Coordinates { x: 5, y: 3 }.sub(Coordinates { x: 7, y: 1 });
    assert_eq!(c, Coordinates { x: 0, y: 2 });
    let c = Coordinates { x: 9, y: 9 }.sub(Coordinates { x: 4, y: 9 });
    assert_eq!(c, Coordinates { x: 5, y: 0 });
}
