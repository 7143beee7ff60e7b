use circuit_core::component::{Orientation, Pin, Shape};

fn sample_shape() -> Shape {
    Shape {
        width: 4,
        height: 2,
        pins: vec![
            Pin { x: 0, y: 0, name: "a".to_owned(), bits: 1 },
            Pin { x: 1, y: 2, name: "b".to_owned(), bits: 8 },
            Pin { x: 4, y: 1, name: "out".to_owned(), bits: 1 },
        ],
        image_name: "sample".to_owned(),
    }
}

#[test]
fn rotate_north_is_identity() {
    let s = sample_shape();
    let r = Orientation::North.map_shape(sample_shape());
    assert_eq!(r.width, s.width);
    assert_eq!(r.height, s.height);
    assert_eq!(r.pins, s.pins);
    assert_eq!(r.image_name, s.image_name);
}

#[test]
fn rotate_east_swaps_extents_and_maps_pins() {
    let r = Orientation::East.map_shape(sample_shape());
    assert_eq!(r.width, 2);
    assert_eq!(r.height, 4);
    // East maps (x, y) to (w - y, x) with the swapped extents (w, h).
    assert_eq!((r.pins[0].x, r.pins[0].y), (2, 0));
    assert_eq!((r.pins[1].x, r.pins[1].y), (0, 1));
    assert_eq!((r.pins[2].x, r.pins[2].y), (1, 4));
    assert_eq!(r.pins[1].name, "b");
    assert_eq!(r.pins[1].bits, 8);
    assert_eq!(r.image_name, "sample");
}

#[test]
fn rotate_west_then_east_is_identity() {
    let s = sample_shape();
    let r = Orientation::East.map_shape(Orientation::West.map_shape(sample_shape()));
    assert_eq!(r.width, s.width);
    assert_eq!(r.height, s.height);
    assert_eq!(r.pins, s.pins);
}

#[test]
fn rotate_east_then_west_is_identity() {
    let s = sample_shape();
    let r = Orientation::West.map_shape(Orientation::East.map_shape(sample_shape()));
    assert_eq!(r.width, s.width);
    assert_eq!(r.height, s.height);
    assert_eq!(r.pins, s.pins);
}

#[test]
fn four_quarter_turns_are_identity() {
    let s = sample_shape();
    let mut r = sample_shape();
    for _ in 0..4 {
        r = Orientation::East.map_shape(r);
    }
    assert_eq!(r.width, s.width);
    assert_eq!(r.height, s.height);
    assert_eq!(r.pins, s.pins);
    assert_eq!(r.image_name, s.image_name);
}

#[test]
fn south_maps_both_coordinates() {
    let r = Orientation::South.map_shape(sample_shape());
    assert_eq!(r.width, 4);
    assert_eq!(r.height, 2);
    // South maps (x, y) to (w - x, h - y).
    assert_eq!((r.pins[0].x, r.pins[0].y), (4, 2));
    assert_eq!((r.pins[1].x, r.pins[1].y), (3, 0));
}

#[test]
fn map_point_formulas() {
    assert_eq!(Orientation::North.map_point(1, 2, 7, 5), (1, 2));
    assert_eq!(Orientation::East.map_point(1, 2, 7, 5), (5, 1));
    assert_eq!(Orientation::South.map_point(1, 2, 7, 5), (6, 3));
    assert_eq!(Orientation::West.map_point(1, 2, 7, 5), (2, 4));
}
