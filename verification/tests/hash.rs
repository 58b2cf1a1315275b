use decaf377_rdsa::frost::{Decaf377Group, Decaf377Rdsa, Decaf377ScalarField};
use decaf377_rdsa::{Element, Fr, HStar};

#[test]
fn hstar_of_the_empty_input() {
    let expected: [u8; 32] = [
        244, 109, 163, 101, 158, 73, 72, 45, 134, 89, 221, 28, 192, 79, 181, 3, 77, 96, 158, 42,
        106, 250, 16, 75, 56, 144, 117, 101, 245, 217, 202, 2,
    ];
    assert_eq!(HStar::default().finalize().to_bytes(), expected);
}

#[test]
fn hstar_of_abc() {
    let expected: [u8; 32] = [
        252, 255, 218, 75, 86, 83, 76, 234, 17, 35, 85, 144, 130, 61, 235, 153, 237, 144, 147, 3,
        17, 232, 144, 111, 237, 237, 48, 102, 120, 230, 91, 0,
    ];
    let mut h = HStar::default();
    h.update(b"abc");
    assert_eq!(h.finalize().to_bytes(), expected);
}

#[test]
fn hstar_of_a_long_input() {
    let expected: [u8; 32] = [
        225, 46, 12, 128, 17, 191, 197, 253, 18, 158, 42, 61, 57, 159, 197, 8, 54, 219, 88, 87, 15,
        197, 225, 21, 54, 223, 160, 237, 236, 39, 98, 4,
    ];
    let input = b"decaf377".repeat(40);
    let mut h = HStar::default();
    h.update(&input);
    assert_eq!(h.finalize().to_bytes(), expected);
}

#[test]
fn hstar_updates_concatenate() {
    let mut whole = HStar::default();
    whole.update(b"decaf377-rdsa");
    let mut parts = HStar::default();
    parts.update(b"decaf").update(b"").update(b"377-").update(b"rdsa");
    assert_eq!(whole.finalize(), parts.finalize());
    let mut other = HStar::default();
    other.update(b"decaf377-rdsb");
    assert_ne!(whole.finalize(), other.finalize());
}

#[test]
fn hstar_finalize_keeps_the_state() {
    let mut h = HStar::default();
    h.update(b"ab");
    let first = h.finalize();
    let second = h.finalize();
    assert_eq!(first, second);
    h.update(b"c");
    let mut abc = HStar::default();
    abc.update(b"abc");
    assert_eq!(h.finalize(), abc.finalize());
    assert_ne!(h.finalize(), first);
}

#[test]
fn frost_hashes() {
    let h1: [u8; 32] = [
        185, 101, 193, 22, 2, 244, 133, 149, 235, 75, 6, 80, 255, 41, 117, 174, 82, 134, 218, 65,
        77, 90, 93, 70, 242, 161, 89, 204, 238, 190, 81, 0,
    ];
    let h4: [u8; 32] = [
        223, 51, 173, 198, 116, 50, 72, 155, 219, 5, 54, 43, 34, 210, 83, 229, 173, 128, 77, 36,
        67, 2, 131, 31, 152, 68, 14, 183, 145, 23, 157, 2,
    ];
    let hid: [u8; 32] = [
        215, 155, 49, 53, 111, 129, 50, 185, 0, 79, 98, 15, 163, 30, 166, 110, 240, 244, 248, 164,
        94, 231, 21, 68, 35, 141, 189, 76, 240, 216, 214, 0,
    ];
    assert_eq!(Decaf377Rdsa::H1(b"hello").to_bytes(), h1);
    assert_eq!(Decaf377Rdsa::H4(b"hello"), h4);
    assert_eq!(Decaf377Rdsa::HID(&[1, 0]).unwrap().to_bytes(), hid);

    let mut plain = HStar::default();
    plain.update(b"hello");
    assert_eq!(Decaf377Rdsa::H2(b"hello"), plain.finalize());

    let mut nonce = HStar::default();
    nonce.update(b"FROST-decaf377-rdsa-v1").update(b"nonce").update(b"hello");
    assert_eq!(Decaf377Rdsa::H3(b"hello"), nonce.finalize());

    let mut com = HStar::default();
    com.update(b"FROST-decaf377-rdsa-v1").update(b"com").update(b"hello");
    assert_eq!(Decaf377Rdsa::H5(b"hello"), com.finalize().to_bytes());

    let mut dkg = HStar::default();
    dkg.update(b"FROST-decaf377-rdsa-v1").update(b"dkg").update(b"hello");
    assert_eq!(Decaf377Rdsa::HDKG(b"hello"), Some(dkg.finalize()));
}

#[test]
fn frost_field_and_group() {
    assert_eq!(Decaf377ScalarField::zero(), Fr::zero());
    assert_eq!(Decaf377ScalarField::one(), Fr::from_u128(1));
    assert_eq!(Decaf377ScalarField::invert(&Fr::zero()), None);
    let three = Fr::from_u128(3);
    let third = Decaf377ScalarField::invert(&three).unwrap();
    assert_eq!(third.mul(&three), Fr::one());
    let mut encoding = [0u8; 32];
    encoding[0] = 3;
    assert_eq!(Decaf377ScalarField::serialize(&three), encoding);
    assert_eq!(Decaf377ScalarField::little_endian_serialize(&three), encoding);
    assert_eq!(Decaf377ScalarField::deserialize(&encoding), Some(three));
    assert_eq!(Decaf377ScalarField::deserialize(&[0xffu8; 32]), None);

    assert_eq!(Decaf377Group::cofactor(), Fr::one());
    assert!(Decaf377Group::identity().is_identity());
    assert_eq!(Decaf377Group::generator(), Element::generator());
    let mut generator = [0u8; 32];
    generator[0] = 8;
    assert_eq!(Decaf377Group::serialize(&Element::generator()), generator);
    assert_eq!(Decaf377Group::deserialize(&generator), Some(Element::generator()));
    assert_eq!(Decaf377Group::deserialize(&[0xffu8; 32]), None);
}
