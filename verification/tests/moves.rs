use chessboard::Direction;
use chessboard::Field;
use chessboard::MoveVector;

#[test]
fn here_is_the_identity() {
    for v in 0u8..=63 {
        let f = Field::from(v);
        assert_eq!(f.mv(Direction::H), f);
    }
}

#[test]
fn single_steps_from_the_corner() {
    let a1 = Field::from(0u8);
    assert_eq!(a1.mv(Direction::N), Field::from(8u8));
    assert_eq!(a1.mv(Direction::E), Field::from(1u8));
    assert_eq!(a1.mv(Direction::S), Field::INVALID);
    assert_eq!(a1.mv(Direction::W), Field::INVALID);

    let h8 = Field::from(63u8);
    assert_eq!(h8.mv(Direction::NE), Field::INVALID);
}

#[test]
fn knight_jumps() {
    // B1 (index 1) jumps NNE to C3 (index 18).
    assert_eq!(Field::from(1u8).mv(Direction::NNE), Field::from(18u8));
    // G1 (index 6) jumps NNW to F3 (index 21).
    assert_eq!(Field::from(6u8).mv(Direction::NNW), Field::from(21u8));
    // From A1 the file offset of NNWW would be -2.
    assert_eq!(Field::from(0u8).mv(Direction::NNWW), Field::INVALID);
}

#[test]
fn invalid_absorbs_every_move() {
    assert_eq!(Field::INVALID.mv(Direction::N), Field::INVALID);
    assert_eq!(Field::INVALID.mv(Direction::H), Field::INVALID);
    assert_eq!(Field::INVALID.mv(Direction::SSEE), Field::INVALID);
}

#[test]
fn two_steps_compose_to_their_sum() {
    // D4 (index 27): N then E lands where NE lands.
    let d4 = Field::from(27u8);
    assert_eq!(d4.mv(Direction::N).mv(Direction::E), d4.mv(Direction::NE));
    assert_eq!(d4.mv(Direction::NN).mv(Direction::E), d4.mv(Direction::NNE));
    assert_eq!(d4.mv(Direction::S).mv(Direction::W), d4.mv(Direction::SW));
    assert_eq!(d4.mv(Direction::E).mv(Direction::E), d4.mv(Direction::EE));
}

#[test]
fn every_direction_has_its_table_vector() {
    let table = [
        (Direction::NNWW, -2, 2),
        (Direction::NNW, -1, 2),
        (Direction::NN, 0, 2),
        (Direction::NNE, 1, 2),
        (Direction::NNEE, 2, 2),
        (Direction::NWW, -2, 1),
        (Direction::NW, -1, 1),
        (Direction::N, 0, 1),
        (Direction::NE, 1, 1),
        (Direction::NEE, 2, 1),
        (Direction::WW, -2, 0),
        (Direction::W, -1, 0),
        (Direction::H, 0, 0),
        (Direction::E, 1, 0),
        (Direction::EE, 2, 0),
        (Direction::SWW, -2, -1),
        (Direction::SW, -1, -1),
        (Direction::S, 0, -1),
        (Direction::SE, 1, -1),
        (Direction::SEE, 2, -1),
        (Direction::SSWW, -2, -2),
        (Direction::SSW, -1, -2),
        (Direction::SS, 0, -2),
        (Direction::SSE, 1, -2),
        (Direction::SSEE, 2, -2),
    ];
    for (d, df, dr) in table {
        assert_eq!(MoveVector::from(d), MoveVector(df, dr));
    }
}

#[test]
fn move_vectors_add_componentwise() {
    let n = MoveVector::from(Direction::N);
    let e = MoveVector::from(Direction::E);
    assert_eq!(n.add(e), MoveVector(1, 1));
    assert_eq!(MoveVector(-2, 1).add(MoveVector(2, -1)), MoveVector(0, 0));
    assert_eq!(
        MoveVector::from(Direction::NN).add(MoveVector::from(Direction::WW)),
        MoveVector::from(Direction::NNWW)
    );
}

#[test]
fn every_move_stays_on_a_64_square_board() {
    let directions = [
        Direction::NNWW,
        Direction::NNW,
        Direction::NN,
        Direction::NNE,
        Direction::NNEE,
        Direction::NWW,
        Direction::NW,
        Direction::N,
        Direction::NE,
        Direction::NEE,
        Direction::WW,
        Direction::W,
        Direction::H,
        Direction::E,
        Direction::EE,
        Direction::SWW,
        Direction::SW,
        Direction::S,
        Direction::SE,
        Direction::SEE,
        Direction::SSWW,
        Direction::SSW,
        Direction::SS,
        Direction::SSE,
        Direction::SSEE,
    ];
    for v in 0u8..=63 {
        let f = Field::from(v);
        for d in directions {
            let r = f.mv(d);
            if r.is_valid() {
                assert!(r.index() <= 63);
                let MoveVector(df, dr) = MoveVector::from(d);
                assert_eq!(r.file().index() as i8, f.file().index() as i8 + df);
                assert_eq!(r.rank().index() as i8, f.rank().index() as i8 + dr);
            } else {
                let nf = f.file().index() as i8 + MoveVector::from(d).0;
                let nr = f.rank().index() as i8 + MoveVector::from(d).1;
                assert!(nf < 0 || nf > 7 || nr < 0 || nr > 7);
            }
        }
    }
}
