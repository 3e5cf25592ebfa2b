use idpf::field::{Field64, FIELD_MODULUS};

#[test]
fn from_reduces_modulo_p() {
    assert_eq!(Field64::from(0), Field64::from(FIELD_MODULUS));
    assert_eq!(Field64::from(1), Field64::from(FIELD_MODULUS.wrapping_add(1)));
    assert_eq!(
        Field64::from(u64::MAX),
        Field64::from(u64::MAX - FIELD_MODULUS)
    );
}

#[test]
fn add_wraps_at_modulus() {
    let a = Field64::from(FIELD_MODULUS - 1);
    assert_eq!(a.add(Field64::from(1)), Field64::from(0));
    assert_eq!(a.add(Field64::from(5)), Field64::from(4));
    assert_eq!(Field64::from(2).add(Field64::from(3)), Field64::from(5));
    assert_eq!(Field64::from(7).add(Field64::zero()), Field64::from(7));
}

#[test]
fn sub_wraps_below_zero() {
    assert_eq!(Field64::from(5).sub(Field64::from(3)), Field64::from(2));
    assert_eq!(
        Field64::from(3).sub(Field64::from(5)),
        Field64::from(FIELD_MODULUS - 2)
    );
    assert_eq!(Field64::from(3).sub(Field64::from(3)), Field64::from(0));
}

#[test]
fn neg_is_additive_inverse() {
    assert_eq!(Field64::from(0).neg(), Field64::from(0));
    assert_eq!(Field64::from(7).neg(), Field64::from(FIELD_MODULUS - 7));
    let x = Field64::from(123456789);
    assert_eq!(x.add(x.neg()), Field64::from(0));
}
