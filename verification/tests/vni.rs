use net::vni::{InvalidVni, Vni};

#[test]
fn zero_is_not_a_legal_vni() {
    assert_eq!(Vni::new_checked(0).unwrap_err(), InvalidVni::ReservedZero);
}

#[test]
fn one_is_a_legal_vni() {
    assert_eq!(Vni::new_checked(1).unwrap().as_u32(), 1);
}

#[test]
fn vni_max_is_a_legal_vni() {
    assert_eq!(Vni::new_checked(Vni::MAX).unwrap().as_u32(), Vni::MAX);
}

#[test]
fn vni_max_plus_one_is_not_a_legal_vni() {
    assert_eq!(
        Vni::new_checked(Vni::MAX + 1).unwrap_err(),
        InvalidVni::TooLarge(Vni::MAX + 1)
    );
}

#[test]
fn u32_max_is_not_a_legal_vni() {
    assert_eq!(
        Vni::new_checked(u32::MAX).unwrap_err(),
        InvalidVni::TooLarge(u32::MAX)
    );
}

#[test]
fn try_from_impl() {
    Vni::try_from(2).expect("2 is a legal Vni");
}

/// A deterministic stream of 32-bit values that covers the edges of the VNI
/// range and spreads over the rest.
fn sample_u32s() -> Vec<u32> {
    let mut values = vec![0, 1, 2, Vni::MAX - 1, Vni::MAX, Vni::MAX + 1, u32::MAX - 1, u32::MAX];
    let mut x: u32 = 0x1234_5678;
    for _ in 0..5000 {
        x = x.wrapping_mul(1_664_525).wrapping_add(1_013_904_223);
        values.push(x);
        values.push(x & Vni::MAX);
    }
    values
}

#[test]
fn arbitrary_value_complies_with_contract() {
    for raw in sample_u32s() {
        let masked = raw & Vni::MAX;
        let raw = if masked == 0 { 1 } else { masked };
        let vni = Vni::new_checked(raw).unwrap();
        assert_ne!(vni.as_u32(), 0);
        assert!(vni.as_u32() <= Vni::MAX);
    }
}

#[test]
fn try_from_produces_only_values_which_comply_with_contract_or_which_return_correct_errors() {
    for raw in sample_u32s() {
        match Vni::try_from(raw) {
            Ok(vni) => {
                assert_eq!(vni.as_u32(), raw);
                assert_ne!(vni.as_u32(), 0);
                assert!(vni.as_u32() <= Vni::MAX);
                assert_eq!(u32::from(vni), raw);
            }
            Err(InvalidVni::ReservedZero) => {
                assert_eq!(raw, 0);
            }
            Err(InvalidVni::TooLarge(too_large)) => {
                assert_eq!(raw, too_large);
                assert!(raw > Vni::MAX);
            }
        }
    }
}
