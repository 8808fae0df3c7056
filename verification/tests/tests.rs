use hexagon_tiles::doubled::DoubledCoord;
use hexagon_tiles::fractional::{Frac, FractionalHex};
use hexagon_tiles::hex::{hex, Hex};
use hexagon_tiles::offset::OffsetCoord;
use hexagon_tiles::tools::{HexDirection, HexDoubled, HexOffset, HEX_EVEN, HEX_ODD};
use hexagon_tiles::util::Offset;

#[test]
fn test_s_component() {
    let hex = Hex::new(1, 4);
    assert_eq!(-5, hex.s());

    let fractional_hex = FractionalHex::new(1, 4, 1);
    assert_eq!(Frac { num: -5, den: 1 }, fractional_hex.s());
}

#[test]
fn test_hex_arithmetic() {
    let add_expected = Hex::new(4, -10);
    let add_actual = Hex::new(1, -3).add(Hex::new(3, -7));
    assert_eq!(add_expected, add_actual);

    let sub_expected = Hex::new(-2, 4);
    let sub_actual = Hex::new(1, -3).sub(Hex::new(3, -7));
    assert_eq!(sub_expected, sub_actual);

    let scale_expected = Hex::new(4, -8);
    let scale_actual = Hex::new(1, -2).scale(4);
    assert_eq!(scale_expected, scale_actual);
}

#[test]
fn test_hex_direction() {
    let expected_direction = Hex::new(0, -1);
    assert_eq!(expected_direction, HexDirection::direction(2));
}

#[test]
fn test_hex_neighbor() {
    let expected_neighbor = Hex::new(1, -3);
    assert_eq!(expected_neighbor, HexDirection::neighbor(Hex::new(1, -2), 2));
}

#[test]
fn test_hex_diagonal() {
    let expected_neighbor = Hex::new(-1, -1);
    assert_eq!(
        expected_neighbor,
        HexDirection::diagonal_neighbor(Hex::new(1, -2), 3)
    );
}

#[test]
fn test_hex_distance() {
    let hex_from = Hex::new(3, -7);
    let hex_to = Hex::new(0, 0);
    let expected_distance = 7;

    assert_eq!(expected_distance, hex_from.distance(hex_to));
}

#[test]
fn test_hex_rotate_right() {
    let hex = Hex::new(1, -3);
    let hex_expected = Hex::new(3, -2);

    assert_eq!(hex_expected, hex.rotate_right());
}

#[test]
fn test_hex_rotate_left() {
    let hex = Hex::new(1, -3);
    let hex_expected = Hex::new(-2, -1);

    assert_eq!(hex_expected, hex.rotate_left());
}

#[test]
fn test_hex_round() {
    let a = FractionalHex::new(0, 0, 1);
    let b = FractionalHex::new(1, -1, 1);
    let c = FractionalHex::new(0, -1, 1);

    let actual_round_1 = a
        .linear_interpolation(FractionalHex::new(10, -20, 1), Frac { num: 1, den: 2 })
        .round();

    let expected_round_1 = Hex::new(5, -10);

    assert_eq!(expected_round_1, actual_round_1);

    assert_eq!(
        a.round(),
        a.linear_interpolation(b, Frac { num: 499, den: 1000 }).round()
    );
    assert_eq!(
        b.round(),
        a.linear_interpolation(b, Frac { num: 501, den: 1000 }).round()
    );

    // a, b and c mixed with weights 4/10, 3/10 and 3/10: componentwise
    // q = 3/10 and r = -6/10, as in the floating statement of the case.
    let expected_round_4 = a.round();
    let actual_round_4 = FractionalHex::new(3, -6, 10).round();
    assert_eq!(expected_round_4, actual_round_4);

    // Weights 3/10, 3/10 and 4/10: q = 3/10 and r = -7/10.
    let expected_round_5 = c.round();
    let actual_round_5 = FractionalHex::new(3, -7, 10).round();
    assert_eq!(expected_round_5, actual_round_5);
}

#[test]
fn test_hex_line() {
    let hex = Hex::new(0, 0);

    let expected_line = vec![
        Hex::new(0, 0),
        Hex::new(0, -1),
        Hex::new(0, -2),
        Hex::new(1, -3),
        Hex::new(1, -4),
        Hex::new(1, -5),
    ];

    let actual_line = hex.line(Hex::new(1, -5));

    assert_eq!(expected_line, actual_line);
}

#[test]
fn test_offset_roundtrip() {
    let expected_hex = Hex::new(3, 4);
    let expected_coord = OffsetCoord { col: 1, row: -3 };

    let actual_coord_1 = HexOffset::q_from_cube(HEX_EVEN, expected_hex);
    let hex_actual_1 = HexOffset::q_to_cube(HEX_EVEN, actual_coord_1);
    assert_eq!(expected_hex, hex_actual_1);

    let actual_hex_2 = HexOffset::q_to_cube(HEX_EVEN, expected_coord);
    let actual_coord_2 = HexOffset::q_from_cube(HEX_EVEN, actual_hex_2);
    assert_eq!(expected_coord, actual_coord_2);

    let actual_coord_3 = HexOffset::q_from_cube(HEX_ODD, expected_hex);
    let hex_actual_3 = HexOffset::q_to_cube(HEX_ODD, actual_coord_3);
    assert_eq!(expected_hex, hex_actual_3);

    let actual_hex_4 = HexOffset::q_to_cube(HEX_ODD, expected_coord);
    let actual_coord_4 = HexOffset::q_from_cube(HEX_ODD, actual_hex_4);
    assert_eq!(expected_coord, actual_coord_4);

    let actual_coord_5 = HexOffset::r_from_cube(HEX_EVEN, expected_hex);
    let hex_actual_5 = HexOffset::r_to_cube(HEX_EVEN, actual_coord_5);
    assert_eq!(expected_hex, hex_actual_5);

    let actual_hex_6 = HexOffset::r_to_cube(HEX_EVEN, expected_coord);
    let actual_coord_6 = HexOffset::r_from_cube(HEX_EVEN, actual_hex_6);
    assert_eq!(expected_coord, actual_coord_6);

    let actual_coord_7 = HexOffset::r_from_cube(HEX_ODD, expected_hex);
    let hex_actual_7 = HexOffset::r_to_cube(HEX_ODD, actual_coord_7);
    assert_eq!(expected_hex, hex_actual_7);

    let actual_hex_8 = HexOffset::r_to_cube(HEX_ODD, expected_coord);
    let actual_coord_8 = HexOffset::r_from_cube(HEX_ODD, actual_hex_8);
    assert_eq!(expected_coord, actual_coord_8);
}

#[test]
fn test_offset_from_cube() {
    let hex1 = Hex::new(1, 2);
    assert_eq!(
        OffsetCoord { col: 1, row: 3 },
        HexOffset::q_from_cube(HEX_EVEN, hex1)
    );

    let hex2 = Hex::new(1, 2);
    assert_eq!(
        OffsetCoord { col: 1, row: 2 },
        HexOffset::q_from_cube(HEX_ODD, hex2)
    );
}

#[test]
fn test_offset_to_cube() {
    let coord1 = OffsetCoord { col: 1, row: 3 };
    assert_eq!(Hex::new(1, 2), HexOffset::q_to_cube(HEX_EVEN, coord1));

    let coord2 = OffsetCoord { col: 1, row: 2 };
    assert_eq!(Hex::new(1, 2), HexOffset::q_to_cube(HEX_ODD, coord2));
}

#[test]
fn test_doubled_roundtrip() {
    let expected_hex = Hex::new(3, 4);
    let expected_coord = DoubledCoord { col: 1, row: -3 };

    let actual_coord_1 = HexDoubled::q_from_cube(expected_hex);
    let hex_actual_1 = HexDoubled::q_to_cube(actual_coord_1);
    assert_eq!(expected_hex, hex_actual_1);

    let actual_hex_2 = HexDoubled::q_to_cube(expected_coord);
    let actual_coord_2 = HexDoubled::q_from_cube(actual_hex_2);
    assert_eq!(expected_coord, actual_coord_2);

    let actual_coord_3 = HexDoubled::r_from_cube(expected_hex);
    let hex_actual_3 = HexDoubled::r_to_cube(actual_coord_3);
    assert_eq!(expected_hex, hex_actual_3);

    let actual_hex_4 = HexDoubled::r_to_cube(expected_coord);
    let actual_coord_4 = HexDoubled::r_from_cube(actual_hex_4);
    assert_eq!(expected_coord, actual_coord_4);
}

#[test]
fn test_doubled_from_cube() {
    let hex = Hex::new(1, 2);

    let expected_coord1 = DoubledCoord { col: 1, row: 5 };
    assert_eq!(expected_coord1, HexDoubled::q_from_cube(hex));

    let expected_coord2 = DoubledCoord { col: 4, row: 2 };
    assert_eq!(expected_coord2, HexDoubled::r_from_cube(hex));
}

#[test]
fn test_doubled_to_cube() {
    let expected_hex = Hex::new(1, 2);

    let coord1 = DoubledCoord { col: 1, row: 5 };
    assert_eq!(expected_hex, HexDoubled::q_to_cube(coord1));

    let coord2 = DoubledCoord { col: 4, row: 2 };
    assert_eq!(expected_hex, HexDoubled::r_to_cube(coord2));
}

#[test]
fn test_zero_sum_invariant() {
    let samples = vec![(0, 0), (1, 4), (-3, 7), (2147, -9000), (-1, -1)];
    for (q, r) in samples {
        let h = Hex::new(q, r);
        assert_eq!(0, h.q() + h.r() + h.s());
    }

    let fh = FractionalHex::new(7, -13, 5);
    assert_eq!(0, fh.q().num + fh.r().num + fh.s().num);
}

#[test]
fn test_hex_constructor() {
    let h = hex(2, -1, -1);
    assert_eq!(2, h.q());
    assert_eq!(-1, h.r());
    assert_eq!(-1, h.s());
}

#[test]
fn test_rotate_order_six() {
    let start = Hex::new(4, -9);
    let mut h = start;
    for _ in 0..6 {
        h = h.rotate_left();
    }
    assert_eq!(start, h);

    let left_then_right = start.rotate_left().rotate_right();
    assert_eq!(start, left_then_right);
    let right_then_left = start.rotate_right().rotate_left();
    assert_eq!(start, right_then_left);
}

#[test]
fn test_distance_symmetry() {
    let a = Hex::new(3, -7);
    let b = Hex::new(-2, 5);
    assert_eq!(a.distance(b), b.distance(a));
    assert_eq!(0, a.distance(a));
}

#[test]
fn test_hex_length() {
    assert_eq!(7, Hex::new(3, -7).length());
    assert_eq!(0, Hex::new(0, 0).length());
}

#[test]
fn test_direction_modulo() {
    // Any integer selects a direction: the index is taken modulo 6.
    assert_eq!(HexDirection::direction(2), HexDirection::direction(8));
    assert_eq!(HexDirection::direction(2), HexDirection::direction(-4));
    assert_eq!(
        Hex::new(1, -3),
        Hex::new(1, -2).neighbor(-4)
    );
    assert_eq!(
        Hex::new(1, -3),
        Hex::new(1, -2).neighbor(8)
    );
    assert_eq!(
        Hex::new(-1, -1),
        Hex::new(1, -2).diagonal(9)
    );
}

#[test]
fn test_round_tie_straddle() {
    // Interpolations just below and just above the midpoint of two
    // adjacent hexes round to different hexes.
    let a = FractionalHex::new(0, 0, 1);
    let b = FractionalHex::new(1, -1, 1);
    let below = a.lerp(b, Frac { num: 499, den: 1000 }).round();
    let above = a.lerp(b, Frac { num: 501, den: 1000 }).round();
    assert_ne!(below, above);
    assert_eq!(Hex::new(0, 0), below);
    assert_eq!(Hex::new(1, -1), above);
}

#[test]
fn test_round_half_away_from_zero() {
    // q = 1/2 rounds to 1 and r = -3/2 rounds to -2 before the residual
    // correction settles on r.
    let fh = FractionalHex::new(1, -3, 2);
    assert_eq!(Hex::new(1, -2), fh.round());
}

#[test]
fn test_line_degenerate() {
    let h = Hex::new(2, -5);
    assert_eq!(vec![h], h.line(h));
}

#[test]
fn test_line_endpoints() {
    let a = Hex::new(-40, 18);
    let b = Hex::new(31, -7);
    let path = a.line(b);
    assert_eq!((a.distance(b) + 1) as usize, path.len());
    assert_eq!(a, path[0]);
    assert_eq!(b, path[path.len() - 1]);
}

#[test]
fn test_hex_div_truncates() {
    let h = hex(7, -4, -3);
    assert_eq!(hex(3, -2, -1), h.div(2));
    assert_eq!(hex(-7, 4, 3), h.div(-1));
}

#[test]
fn test_lerp_exact() {
    let a = FractionalHex::new(0, 0, 1);
    let b = FractionalHex::new(10, -20, 1);
    let mid = a.lerp(b, Frac { num: 1, den: 2 });
    assert_eq!(Frac { num: 10, den: 2 }, mid.q());
    assert_eq!(Frac { num: -20, den: 2 }, mid.r());
    assert_eq!(Frac { num: 10, den: 2 }, mid.s());
}

#[test]
fn test_offset_parity_enum() {
    let h = Hex::new(1, 2);
    assert_eq!(
        OffsetCoord { col: 1, row: 3 },
        OffsetCoord::q_from_cube(h, Offset::Even)
    );
    assert_eq!(
        OffsetCoord { col: 1, row: 2 },
        OffsetCoord::q_from_cube(h, Offset::Odd)
    );
    assert_eq!(h, OffsetCoord { col: 1, row: 3 }.q_to_cube(Offset::Even));
    assert_eq!(h, OffsetCoord { col: 1, row: 2 }.q_to_cube(Offset::Odd));
    assert_eq!(1, Offset::Even.into());
    assert_eq!(-1, Offset::Odd.into());
}

#[test]
fn test_doubled_coord_methods() {
    let h = Hex::new(1, 2);
    assert_eq!(DoubledCoord { col: 1, row: 5 }, DoubledCoord::q_from_cube(h));
    assert_eq!(DoubledCoord { col: 4, row: 2 }, DoubledCoord::r_from_cube(h));
    assert_eq!(h, DoubledCoord { col: 1, row: 5 }.q_to_cube());
    assert_eq!(h, DoubledCoord { col: 4, row: 2 }.r_to_cube());
}
