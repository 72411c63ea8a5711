use chessboard::Bitboard;
use chessboard::Field;
use chessboard::FormatterFlags;
use chessboard::SetFields;
use chessboard::UnsetFields;

#[test]
fn make_mask_is_one_shifted_bit() {
    assert_eq!(Bitboard::make_mask(0), 1);
    assert_eq!(Bitboard::make_mask(5), 32);
    assert_eq!(Bitboard::make_mask(63), 1u64 << 63);
}

#[test]
fn default_is_the_empty_board() {
    assert_eq!(Bitboard::default(), Bitboard::new(0));
}

#[test]
fn set_then_get_then_unset() {
    let d4 = Field::from(27u8);
    let e4 = Field::from(28u8);
    let a1 = Field::from(0u8);

    let mut b = Bitboard::new(0);
    b.set(d4);
    b.set(e4);
    assert!(b.get(d4));
    assert!(b.get(e4));
    assert!(b.is_set(d4));
    assert!(!b.get(a1));

    let set: Vec<u8> = b.set_fields().iter().map(|f| f.index()).collect();
    assert_eq!(set, vec![27, 28]);

    b.unset(d4);
    assert!(!b.get(d4));
    assert!(b.get(e4));
}

#[test]
fn set_and_get_on_every_square() {
    for v in 0u8..=63 {
        let f = Field::from(v);
        let mut b = Bitboard::new(0);
        b.set(f);
        assert!(b.get(f));
        assert_eq!(b, Bitboard::new(1u64 << v));
        b.unset(f);
        assert!(!b.get(f));
        assert_eq!(b, Bitboard::new(0));
    }
}

#[test]
fn invalid_field_is_a_no_op() {
    let mut b = Bitboard::new(0xDEAD_BEEF_0123_4567);
    let before = b;
    b.set(Field::INVALID);
    assert_eq!(b, before);
    b.unset(Field::INVALID);
    assert_eq!(b, before);
    assert!(!b.get(Field::INVALID));
    assert!(!b.is_set(Field::INVALID));
}

#[test]
fn set_does_not_clobber_other_bits() {
    let mut b = Bitboard::new(0);
    b.set(Field::from(3u8));
    b.set(Field::from(40u8));
    b.set(Field::from(3u8));
    assert_eq!(b, Bitboard::new((1u64 << 3) | (1u64 << 40)));
}

#[test]
fn bitwise_composition_of_two_boards() {
    // b1 = {A1, H1}, b2 = {H1, A8}.
    let mut b1 = Bitboard::new(0);
    b1.set(Field::from(0u8));
    b1.set(Field::from(7u8));
    let mut b2 = Bitboard::new(0);
    b2.set(Field::from(7u8));
    b2.set(Field::from(56u8));

    assert_eq!(b1.bitor(b2), Bitboard::new(1 | (1u64 << 7) | (1u64 << 56)));
    assert_eq!(b1.bitand(b2), Bitboard::new(1u64 << 7));
    assert_eq!(b1.bitxor(b2), Bitboard::new(1 | (1u64 << 56)));

    let complement = b1.not();
    assert_eq!(complement.set_fields().len(), 62);
    assert!(!complement.get(Field::from(0u8)));
    assert!(!complement.get(Field::from(7u8)));
    assert!(complement.get(Field::from(1u8)));
}

#[test]
fn bitwise_operators_match_boolean_ops_per_position() {
    let a = Bitboard::new(0x0F0F_0F0F_AAAA_5555);
    let b = Bitboard::new(0x1234_5678_9ABC_DEF0);
    let or = a.bitor(b);
    let and = a.bitand(b);
    let xor = a.bitxor(b);
    let not = a.not();
    for v in 0u8..=63 {
        let f = Field::from(v);
        assert_eq!(or.get(f), a.get(f) || b.get(f));
        assert_eq!(and.get(f), a.get(f) && b.get(f));
        assert_eq!(xor.get(f), a.get(f) != b.get(f));
        assert_eq!(not.get(f), !a.get(f));
    }
}

#[test]
fn in_place_forms_match_the_operators() {
    let a = Bitboard::new(0x00FF_00FF_00FF_00FF);
    let b = Bitboard::new(0x0F0F_0F0F_0F0F_0F0F);

    let mut c = a;
    c.bitor_assign(b);
    assert_eq!(c, a.bitor(b));

    let mut c = a;
    c.bitand_assign(b);
    assert_eq!(c, a.bitand(b));

    let mut c = a;
    c.bitxor_assign(b);
    assert_eq!(c, a.bitxor(b));
}

#[test]
fn set_fields_walk_yields_each_set_bit_in_order() {
    let mut b = Bitboard::new(0);
    b.set(Field::from(27u8));
    b.set(Field::from(28u8));

    let mut it = b.set_fields_iter();
    assert_eq!(it.next(), Some(Field::from(27u8)));
    assert_eq!(it.next(), Some(Field::from(28u8)));
    assert_eq!(it.next(), None);
    assert_eq!(it.next(), None);
}

#[test]
fn unset_fields_walk_is_the_complement() {
    let b = Bitboard::new(!((1u64 << 5) | (1u64 << 60)));
    let mut it = b.unset_fields_iter();
    assert_eq!(it.next(), Some(Field::from(5u8)));
    assert_eq!(it.next(), Some(Field::from(60u8)));
    assert_eq!(it.next(), None);

    let unset: Vec<u8> = b.unset_fields().iter().map(|f| f.index()).collect();
    assert_eq!(unset, vec![5, 60]);
}

#[test]
fn full_board_walks_cover_every_square_once() {
    let full = Bitboard::new(u64::MAX);
    let set: Vec<u8> = full.set_fields().iter().map(|f| f.index()).collect();
    let expected: Vec<u8> = (0u8..=63).collect();
    assert_eq!(set, expected);
    assert!(full.unset_fields().is_empty());

    let empty = Bitboard::new(0);
    assert!(empty.set_fields().is_empty());
    let unset: Vec<u8> = empty.unset_fields().iter().map(|f| f.index()).collect();
    assert_eq!(unset, expected);
}

#[test]
fn walks_partition_the_board() {
    let b = Bitboard::new(0x1234_5678_9ABC_DEF0);
    let set: Vec<u8> = b.set_fields().iter().map(|f| f.index()).collect();
    let unset: Vec<u8> = b.unset_fields().iter().map(|f| f.index()).collect();
    assert_eq!(set.len() + unset.len(), 64);
    for v in 0u8..=63 {
        assert_ne!(set.contains(&v), unset.contains(&v));
    }
}

#[test]
fn formatter_defaults() {
    let ff = FormatterFlags::default();
    assert!(ff.show_board);
    assert!(ff.show_files);
    assert!(ff.show_ranks);
    assert_eq!(ff.files, ['A', 'B', 'C', 'D', 'E', 'F', 'G', 'H']);
    assert_eq!(ff.ranks, ['1', '2', '3', '4', '5', '6', '7', '8']);
    assert_eq!(ff.empty_field, ' ');
    assert_eq!(ff.not_empty_field, 'x');
}

#[test]
fn as_string_is_a_placeholder() {
    let b = Bitboard::new(42);
    assert_eq!(b.as_string(FormatterFlags::default()), " ");
}

#[test]
fn fresh_walks_restart_from_the_beginning() {
    let mut b = Bitboard::new(0);
    b.set(Field::from(9u8));
    let mut first = SetFields::new(&b);
    assert_eq!(first.next(), Some(Field::from(9u8)));
    let mut second = SetFields::new(&b);
    assert_eq!(second.next(), Some(Field::from(9u8)));

    let mut clear = UnsetFields::new(&Bitboard::new(u64::MAX));
    assert_eq!(clear.next(), None);
}
