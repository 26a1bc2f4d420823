use packed_char::Contents;
use packed_char::PackedChar;
use packed_char::U22;
use packed_char::U22FromU32Error;

#[test]
fn gets_back_chars() {
    let test_chars = [
        '\0',
        '\u{D7FF}',
        '\u{E000}',
        // Char containing the surrogate mask bits
        char::from_u32(0b1_11011_11111111111).unwrap(),
        // Char not containing the surrogate mask bits
        char::from_u32(0b1_00000_11111111111).unwrap(),
        char::REPLACEMENT_CHARACTER,
        char::MAX,
        'a',
        '1',
        '\u{1FAE0}',
    ];
    for c in test_chars {
        let packed = PackedChar::from_char(c);
        assert_eq!(packed.contents(), Contents::Char(c));
    }
}

#[test]
fn gets_back_ints() {
    let ints = [U22::MAX, 0x3FFFFF, 0, 42, 0b1010101010101010101010];
    for i in ints {
        let packed = PackedChar::try_from(i).unwrap();
        assert_eq!(packed.contents(), Contents::U22(U22::try_from(i).unwrap()));
    }
}

#[test]
fn fails_out_of_bounds_indices() {
    let ints = [U22::MAX + 1, u32::MAX, 0b10101010101010101010101010101010];
    for i in ints {
        let packed = PackedChar::try_from(i);
        assert_eq!(packed, Err(U22FromU32Error(i)));
    }
}

#[test]
fn scenario_char_a() {
    assert_eq!(PackedChar::from_char('a').contents(), Contents::Char('a'));
}

#[test]
fn scenario_int_42() {
    let packed = PackedChar::try_from(42).unwrap();
    assert_eq!(packed.contents(), Contents::U22(U22::from_u32(42).unwrap()));
}

#[test]
fn scenario_reject_just_past_max() {
    assert_eq!(PackedChar::try_from(4_194_304), Err(U22FromU32Error(4_194_304)));
}

#[test]
fn scenario_char_max() {
    let packed = PackedChar::from_char('\u{10FFFF}');
    assert_eq!(packed.contents(), Contents::Char('\u{10FFFF}'));
}

#[test]
fn scenario_int_max() {
    let decoded = PackedChar::try_from(4_194_303).map(|p| p.contents());
    assert_eq!(decoded, Ok(Contents::U22(U22::from_u32(4_194_303).unwrap())));
}

#[test]
fn u22_from_u32_bounds() {
    assert_eq!(U22::from_u32(0).unwrap().as_u32(), 0);
    assert_eq!(U22::from_u32(U22::MAX).unwrap().as_u32(), U22::MAX);
    assert_eq!(U22::from_u32(U22::MAX + 1), Err(U22FromU32Error(U22::MAX + 1)));
    assert_eq!(U22::from_u32(u32::MAX), Err(U22FromU32Error(u32::MAX)));
}

#[test]
fn variants_never_collide() {
    // 'a' has code point 97; the packed forms of the char 'a' and of the
    // integer 97 must differ.
    let from_char = PackedChar::from_char('a');
    let from_int = PackedChar::try_from(97).unwrap();
    assert_ne!(from_char, from_int);
    assert_eq!(from_char.contents(), Contents::Char('a'));
    assert_eq!(from_int.contents(), Contents::U22(U22::from_u32(97).unwrap()));
}

#[test]
fn encoding_is_injective() {
    assert_ne!(PackedChar::from_char('a'), PackedChar::from_char('b'));
    assert_ne!(
        PackedChar::try_from(1).unwrap(),
        PackedChar::try_from(2).unwrap()
    );
    // Values whose low 11 bits agree must still be told apart.
    assert_ne!(
        PackedChar::try_from(0x7FF).unwrap(),
        PackedChar::try_from(0x800 | 0x7FF).unwrap()
    );
}

#[test]
fn equal_contents_means_equal_values() {
    let a = PackedChar::try_from(42).unwrap();
    let b = PackedChar::from_u22(U22::from_u32(42).unwrap());
    assert_eq!(a, b);
    assert_eq!(a.contents(), b.contents());
    let c = PackedChar::from_char('x');
    let d = PackedChar::from('x');
    assert_eq!(c, d);
    assert_eq!(c.contents(), d.contents());
}

#[test]
fn conversions() {
    let u22 = U22::from_u32(42).unwrap();
    assert_eq!(u32::from(u22), 42);
    assert_eq!(PackedChar::from(u22).contents(), Contents::U22(u22));
    assert_eq!(U22::try_from(42), Ok(u22));
    assert_eq!(*u22, 42);
    assert_eq!(u22.as_ref(), &42);
    assert_eq!(std::borrow::Borrow::<u32>::borrow(&u22), &42);
}

#[test]
fn renders_magnitude_in_decimal() {
    assert_eq!(U22::from_u32(0).unwrap().to_string(), "0");
    assert_eq!(U22::from_u32(42).unwrap().to_string(), "42");
    assert_eq!(U22::from_u32(U22::MAX).unwrap().to_string(), "4194303");
}

#[test]
fn renders_error_message() {
    assert_eq!(
        U22FromU32Error(4_194_304).message(),
        "4194304 exceeds U22::MAX"
    );
    assert_eq!(
        U22::from_u32(u32::MAX).unwrap_err().message(),
        "4294967295 exceeds U22::MAX"
    );
}

#[test]
fn renders_decoded_contents() {
    assert_eq!(PackedChar::from_char('a').to_debug_string(), "Char('a')");
    assert_eq!(PackedChar::from_char('\0').to_debug_string(), "Char('\0')");
    assert_eq!(PackedChar::try_from(42).unwrap().to_debug_string(), "U22(42)");
    assert_eq!(
        PackedChar::try_from(U22::MAX).unwrap().to_debug_string(),
        "U22(4194303)"
    );
}

#[test]
fn defaults_are_zero() {
    assert_eq!(U22::default().as_u32(), 0);
    assert_eq!(PackedChar::default().contents(), Contents::Char('\0'));
}
