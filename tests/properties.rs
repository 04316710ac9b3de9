use rubik_net::error::CubeError;
use rubik_net::facelet::Stiker;
use rubik_net::geometry::Face;
use rubik_net::moves::{Amount, Move, Sense};
use rubik_net::net::Cube;
use rubik_net::notation::{is_space_char, parse_token};

const SCRAMBLE: &str = "R2 D L2 B2 L2 U B2 D B2 U' L R' D R' B D' F L2 D F";

const SCRAMBLED: [[char; 12]; 9] = [
    [' ', ' ', ' ', 'r', 'g', 'w', ' ', ' ', ' ', ' ', ' ', ' '],
    [' ', ' ', ' ', 'b', 'y', 'w', ' ', ' ', ' ', ' ', ' ', ' '],
    [' ', ' ', ' ', 'o', 'y', 'o', ' ', ' ', ' ', ' ', ' ', ' '],
    ['y', 'r', 'b', 'y', 'r', 'y', 'g', 'o', 'b', 'o', 'w', 'g'],
    ['w', 'o', 'g', 'o', 'b', 'w', 'b', 'r', 'g', 'r', 'g', 'r'],
    ['r', 'g', 'w', 'r', 'b', 'w', 'b', 'b', 'o', 'w', 'y', 'y'],
    [' ', ' ', ' ', 'g', 'y', 'r', ' ', ' ', ' ', ' ', ' ', ' '],
    [' ', ' ', ' ', 'y', 'w', 'o', ' ', ' ', ' ', ' ', ' ', ' '],
    [' ', ' ', ' ', 'b', 'o', 'g', ' ', ' ', ' ', ' ', ' ', ' '],
];

const FACES: [Face; 7] = [
    Face::Front,
    Face::Right,
    Face::Up,
    Face::Left,
    Face::Down,
    Face::Back,
    Face::Middle,
];

fn all_moves() -> Vec<Move> {
    let mut moves = Vec::new();
    for face in FACES {
        for amount in [Amount::Quarter, Amount::Double] {
            for sense in [Sense::Clockwise, Sense::CounterClockwise] {
                moves.push(Move::new(face, amount, sense));
            }
        }
    }
    moves
}

fn counts(cube: &Cube) -> [usize; 7] {
    let mut n = [0usize; 7];
    for row in cube.scan.iter() {
        for s in row.iter() {
            let k = match s {
                Stiker::B => 0,
                Stiker::R => 1,
                Stiker::Y => 2,
                Stiker::O => 3,
                Stiker::G => 4,
                Stiker::W => 5,
                Stiker::V => 6,
            };
            n[k] += 1;
        }
    }
    n
}

#[test]
fn every_move_keeps_nine_stickers_of_each_colour() {
    let start = Cube::from_scan(SCRAMBLED);
    assert_eq!(counts(&start), [9, 9, 9, 9, 9, 9, 54]);
    for m in all_moves() {
        let mut cube = start;
        cube.apply(m);
        assert_eq!(counts(&cube), [9, 9, 9, 9, 9, 9, 54]);
        cube.apply_inverse(m);
        assert_eq!(counts(&cube), [9, 9, 9, 9, 9, 9, 54]);
    }
}

#[test]
fn moves_never_touch_padding_cells() {
    for m in all_moves() {
        let mut cube = Cube::from_scan(SCRAMBLED);
        cube.apply(m);
        for r in 0..9 {
            for c in 0..12 {
                let padding = !((3..6).contains(&r) || (3..6).contains(&c));
                assert_eq!(cube.scan[r][c] == Stiker::V, padding);
            }
        }
    }
}

#[test]
fn undoing_a_move_restores_the_net() {
    let start = Cube::from_scan(SCRAMBLED);
    for m in all_moves() {
        let mut cube = start;
        cube.apply(m);
        assert_ne!(cube, start);
        cube.apply_inverse(m);
        assert_eq!(cube, start);
    }
}

#[test]
fn inverse_move_restores_the_net() {
    let start = Cube::from_scan(SCRAMBLED);
    for m in all_moves() {
        let mut cube = start;
        cube.apply(m);
        cube.apply(m.inverse());
        assert_eq!(cube, start);
    }
}

#[test]
fn inverse_flips_the_sense_only() {
    let m = Move::new(Face::Back, Amount::Double, Sense::Clockwise);
    assert_eq!(m.inverse(), Move::new(Face::Back, Amount::Double, Sense::CounterClockwise));
    let m = Move::new(Face::Up, Amount::Quarter, Sense::CounterClockwise);
    assert_eq!(m.inverse(), Move::new(Face::Up, Amount::Quarter, Sense::Clockwise));
}

#[test]
fn four_quarter_turns_are_the_identity() {
    let start = Cube::from_scan(SCRAMBLED);
    for face in FACES {
        for sense in [Sense::Clockwise, Sense::CounterClockwise] {
            let m = Move::new(face, Amount::Quarter, sense);
            let mut cube = start;
            for k in 0..4 {
                cube.apply(m);
                assert_eq!(cube == start, k == 3);
            }
        }
    }
}

#[test]
fn two_double_turns_are_the_identity() {
    let start = Cube::from_scan(SCRAMBLED);
    for face in FACES {
        let m = Move::new(face, Amount::Double, Sense::Clockwise);
        let mut cube = start;
        cube.apply(m);
        assert_ne!(cube, start);
        cube.apply(m);
        assert_eq!(cube, start);
    }
}

#[test]
fn double_turn_is_two_quarter_turns() {
    let start = Cube::from_scan(SCRAMBLED);
    for face in FACES {
        for sense in [Sense::Clockwise, Sense::CounterClockwise] {
            let quarter = Move::new(face, Amount::Quarter, sense);
            let mut twice = start;
            twice.apply(quarter);
            twice.apply(quarter);
            let mut double = start;
            double.apply(Move::new(face, Amount::Double, sense));
            assert_eq!(double, twice);
        }
    }
}

#[test]
fn notation_f_is_a_front_quarter_turn() {
    let mut parsed = Cube::from_scan(SCRAMBLED);
    assert_eq!(parsed.apply_sequence("F"), Ok(()));
    let mut direct = Cube::from_scan(SCRAMBLED);
    direct.apply(Move::new(Face::Front, Amount::Quarter, Sense::Clockwise));
    assert_eq!(parsed, direct);
    let mut named = Cube::from_scan(SCRAMBLED);
    named.rotate_front();
    assert_eq!(parsed, named);
}

#[test]
fn notation_f_prime_is_the_inverse_turn() {
    let mut parsed = Cube::from_scan(SCRAMBLED);
    assert_eq!(parsed.apply_sequence("F'"), Ok(()));
    let mut direct = Cube::from_scan(SCRAMBLED);
    direct.rotate_front_inv();
    assert_eq!(parsed, direct);
}

#[test]
fn notation_f2_is_two_quarter_turns() {
    let mut parsed = Cube::from_scan(SCRAMBLED);
    assert_eq!(parsed.apply_sequence("F2"), Ok(()));
    let mut direct = Cube::from_scan(SCRAMBLED);
    direct.rotate_front();
    direct.rotate_front();
    assert_eq!(parsed, direct);
    let mut primed = Cube::from_scan(SCRAMBLED);
    assert_eq!(primed.apply_sequence("F2'"), Ok(()));
    assert_eq!(primed, direct);
}

#[test]
fn unknown_token_is_refused_and_net_kept() {
    let start = Cube::from_scan(SCRAMBLED);
    let mut cube = start;
    assert_eq!(cube.apply_sequence("bogus"), Err(CubeError::UnknownMoveToken));
    assert_eq!(cube, start);
}

#[test]
fn moves_before_an_unknown_token_stay_applied() {
    let start = Cube::from_scan(SCRAMBLED);
    let mut cube = start;
    assert_eq!(cube.apply_sequence("R U X F"), Err(CubeError::UnknownMoveToken));
    let mut expected = start;
    expected.rotate_rigth();
    expected.rotate_up();
    assert_eq!(cube, expected);
    assert!(Cube::from("R U3").is_err());
    assert!(Cube::from("r").is_err());
}

#[test]
fn empty_and_blank_notation_change_nothing() {
    let start = Cube::from_scan(SCRAMBLED);
    let mut cube = start;
    assert_eq!(cube.apply_sequence(""), Ok(()));
    assert_eq!(cube.apply_sequence(" \t\n "), Ok(()));
    assert_eq!(cube, start);
    assert_eq!(Cube::from("").unwrap(), Cube::default());
}

#[test]
fn any_whitespace_separates_tokens() {
    let spaced = Cube::from("R U' M2").unwrap();
    let mixed = Cube::from("\tR\n\nU'\u{3000}M2  ").unwrap();
    assert_eq!(spaced, mixed);
    let mut expected = Cube::default();
    expected.rotate_rigth();
    expected.rotate_up_inv();
    expected.rotate_middle();
    expected.rotate_middle();
    assert_eq!(spaced, expected);
    assert!(Cube::from("RU").is_err());
}

#[test]
fn scramble_then_front_and_back_again() {
    let scrambled = Cube::from(SCRAMBLE).unwrap();
    assert_eq!(scrambled, Cube::from_scan(SCRAMBLED));
    let mut cube = scrambled;
    assert_eq!(cube.apply_sequence("F"), Ok(()));
    assert_ne!(cube, scrambled);
    assert_eq!(cube.apply_sequence("F'"), Ok(()));
    assert_eq!(cube, scrambled);
}

#[test]
fn parse_token_reads_amount_and_sense() {
    let t = |s: &str| parse_token(&s.chars().collect());
    assert_eq!(t("L"), Some(Move::new(Face::Left, Amount::Quarter, Sense::Clockwise)));
    assert_eq!(t("D'"), Some(Move::new(Face::Down, Amount::Quarter, Sense::CounterClockwise)));
    assert_eq!(t("B2"), Some(Move::new(Face::Back, Amount::Double, Sense::Clockwise)));
    assert_eq!(t("M2'"), Some(Move::new(Face::Middle, Amount::Double, Sense::CounterClockwise)));
    assert_eq!(t(""), None);
    assert_eq!(t("X"), None);
    assert_eq!(t("F'2"), None);
    assert_eq!(t("F2''"), None);
    assert_eq!(t("f"), None);
}

#[test]
fn whitespace_is_unicode_white_space() {
    for c in [' ', '\t', '\n', '\r', '\u{0b}', '\u{0c}', '\u{85}', '\u{a0}', '\u{2003}', '\u{3000}'] {
        assert!(is_space_char(c));
        assert!(c.is_whitespace());
    }
    for c in ['F', '\'', '2', '_', '\u{200b}'] {
        assert!(!is_space_char(c));
        assert!(!c.is_whitespace());
    }
}

#[test]
fn grid_rows_of_wrong_shape_are_refused() {
    let good: Vec<Vec<char>> = SCRAMBLED.iter().map(|r| r.to_vec()).collect();
    assert_eq!(Cube::from_rows(&good), Ok(Cube::from_scan(SCRAMBLED)));
    let mut short = good.clone();
    short.pop();
    assert_eq!(Cube::from_rows(&short), Err(CubeError::InvalidGridLiteral));
    let mut narrow = good.clone();
    narrow[4].pop();
    assert_eq!(Cube::from_rows(&narrow), Err(CubeError::InvalidGridLiteral));
    let mut wide = good;
    wide[8].push('b');
    assert_eq!(Cube::from_rows(&wide), Err(CubeError::InvalidGridLiteral));
    assert_eq!(Cube::from_rows(&Vec::new()), Err(CubeError::InvalidGridLiteral));
}

#[test]
fn letters_map_to_facelets_and_back() {
    let letters = ['b', 'r', 'y', 'o', 'g', 'w'];
    let facelets = [Stiker::B, Stiker::R, Stiker::Y, Stiker::O, Stiker::G, Stiker::W];
    for (c, s) in letters.iter().zip(facelets.iter()) {
        assert_eq!(Stiker::from_char(*c), *s);
        assert_eq!(s.to_char(), *c);
    }
    assert_eq!(Stiker::from_char('x'), Stiker::V);
    assert_eq!(Stiker::from_char('B'), Stiker::V);
    assert_eq!(Stiker::V.to_char(), ' ');
    let s: Stiker = 'g'.into();
    assert_eq!(s, Stiker::G);
    let c: char = Stiker::O.into();
    assert_eq!(c, 'o');
    let v: char = Stiker::V.into();
    assert_eq!(v, ' ');
}

#[test]
fn solved_net_layout() {
    let cube = Cube::default();
    assert_eq!(cube.scan[0][3], Stiker::Y);
    assert_eq!(cube.scan[4][1], Stiker::O);
    assert_eq!(cube.scan[4][4], Stiker::B);
    assert_eq!(cube.scan[4][7], Stiker::R);
    assert_eq!(cube.scan[4][10], Stiker::G);
    assert_eq!(cube.scan[8][5], Stiker::W);
    assert_eq!(cube.scan[0][0], Stiker::V);
    assert_eq!(cube.scan[8][11], Stiker::V);
}
