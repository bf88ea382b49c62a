use casey_chess::notation::square_to_coords;

#[test]
fn square_to_coords_test() {
    let square = "e4";
    let coords = square_to_coords(square);
    assert_eq!(coords, Some((4, 3)));

    let square = "a1";
    let coords = square_to_coords(square);
    assert_eq!(coords, Some((0, 0)));

    let square = "h8";
    let coords = square_to_coords(square);
    assert_eq!(coords, Some((7, 7)));
}

#[test]
fn square_to_coords_rejects_bad_text() {
    assert_eq!(square_to_coords("i1"), None);
    assert_eq!(square_to_coords("a9"), None);
    assert_eq!(square_to_coords("a0"), None);
    assert_eq!(square_to_coords("e"), None);
    assert_eq!(square_to_coords("e44"), None);
    assert_eq!(square_to_coords(""), None);
    assert_eq!(square_to_coords("E4"), None);
}
