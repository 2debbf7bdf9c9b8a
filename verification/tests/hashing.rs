use poseidon::{compose_and_poseidon, compose_fields, poseidon_bytes, poseidon_fields};
use poseidon::{Fr, Poseidon, PoseidonError};

#[test]
fn test_ff() {
    let a = Fr::from_u128(2);
    assert_eq!(a, Fr::from_str_vartime("2").unwrap(),);

    let b: Fr = Fr::from_str_vartime(
        "21888242871839275222246405745257275088548364400416034343698204186575808495619",
    )
    .unwrap();
    assert_eq!(b, Fr::from_str_vartime("2").unwrap(),);
    assert_eq!(&a, &b);
}

#[test]
fn test_hash() {
    let b0: Fr = Fr::from_str_vartime("0").unwrap();
    let b1: Fr = Fr::from_str_vartime("1").unwrap();
    let b2: Fr = Fr::from_str_vartime("2").unwrap();
    let b3: Fr = Fr::from_str_vartime("3").unwrap();
    let b4: Fr = Fr::from_str_vartime("4").unwrap();
    let b5: Fr = Fr::from_str_vartime("5").unwrap();
    let b6: Fr = Fr::from_str_vartime("6").unwrap();
    let b7: Fr = Fr::from_str_vartime("7").unwrap();
    let b8: Fr = Fr::from_str_vartime("8").unwrap();
    let b9: Fr = Fr::from_str_vartime("9").unwrap();
    let b10: Fr = Fr::from_str_vartime("10").unwrap();
    let b11: Fr = Fr::from_str_vartime("11").unwrap();
    let b12: Fr = Fr::from_str_vartime("12").unwrap();
    let b13: Fr = Fr::from_str_vartime("13").unwrap();
    let b14: Fr = Fr::from_str_vartime("14").unwrap();
    let b15: Fr = Fr::from_str_vartime("15").unwrap();
    let b16: Fr = Fr::from_str_vartime("16").unwrap();

    let big_arr: Vec<Fr> = vec![b1];
    let h = poseidon_fields(&big_arr).unwrap();
    assert_eq!(
        h,
        Fr::from_str_vartime(
            "18586133768512220936620570745912940619677854269274689475585506675881198879027"
        )
        .unwrap()
    );

    let big_arr: Vec<Fr> = vec![b1, b2];
    let h = poseidon_fields(&big_arr).unwrap();
    assert_eq!(
        h,
        Fr::from_str_vartime(
            "7853200120776062878684798364095072458815029376092732009249414926327459813530"
        )
        .unwrap()
    );

    let big_arr: Vec<Fr> = vec![b1, b2, b0, b0, b0];
    let h = poseidon_fields(&big_arr).unwrap();
    assert_eq!(
        h,
        Fr::from_str_vartime(
            "1018317224307729531995786483840663576608797660851238720571059489595066344487"
        )
        .unwrap()
    );

    let big_arr: Vec<Fr> = vec![b1, b2, b0, b0, b0, b0];
    let h = poseidon_fields(&big_arr).unwrap();
    assert_eq!(
        h,
        Fr::from_str_vartime(
            "15336558801450556532856248569924170992202208561737609669134139141992924267169"
        )
        .unwrap()
    );

    let big_arr: Vec<Fr> = vec![b3, b4, b0, b0, b0];
    let h = poseidon_fields(&big_arr).unwrap();
    assert_eq!(
        h,
        Fr::from_str_vartime(
            "5811595552068139067952687508729883632420015185677766880877743348592482390548"
        )
        .unwrap(),
    );

    let big_arr: Vec<Fr> = vec![b3, b4, b0, b0, b0, b0];
    let h = poseidon_fields(&big_arr).unwrap();
    assert_eq!(
        h,
        Fr::from_str_vartime(
            "12263118664590987767234828103155242843640892839966517009184493198782366909018"
        )
        .unwrap()
    );

    let big_arr: Vec<Fr> = vec![b1, b2, b3, b4, b5, b6];
    let h = poseidon_fields(&big_arr).unwrap();
    assert_eq!(
        h,
        Fr::from_str_vartime(
            "20400040500897583745843009878988256314335038853985262692600694741116813247201"
        )
        .unwrap()
    );

    let big_arr: Vec<Fr> = vec![b1, b2, b3, b4, b5, b6, b7, b8, b9, b10, b11, b12, b13, b14];
    let h = poseidon_fields(&big_arr).unwrap();
    assert_eq!(
        h,
        Fr::from_str_vartime(
            "8354478399926161176778659061636406690034081872658507739535256090879947077494"
        )
        .unwrap()
    );

    let big_arr: Vec<Fr> = vec![b1, b2, b3, b4, b5, b6, b7, b8, b9, b0, b0, b0, b0, b0];
    let h = poseidon_fields(&big_arr).unwrap();
    assert_eq!(
        h,
        Fr::from_str_vartime(
            "5540388656744764564518487011617040650780060800286365721923524861648744699539"
        )
        .unwrap()
    );

    let big_arr: Vec<Fr> = vec![
        b1, b2, b3, b4, b5, b6, b7, b8, b9, b0, b0, b0, b0, b0, b0, b0,
    ];
    let h = poseidon_fields(&big_arr).unwrap();
    assert_eq!(
        h,
        Fr::from_str_vartime(
            "11882816200654282475720830292386643970958445617880627439994635298904836126497"
        )
        .unwrap()
    );

    let big_arr: Vec<Fr> = vec![
        b1, b2, b3, b4, b5, b6, b7, b8, b9, b10, b11, b12, b13, b14, b15, b16,
    ];
    let h = poseidon_fields(&big_arr).unwrap();
    assert_eq!(
        h,
        Fr::from_str_vartime(
            "9989051620750914585850546081941653841776809718687451684622678807385399211877"
        )
        .unwrap()
    );
}

#[test]
fn test_wrong_inputs() {
    let b0: Fr = Fr::from_str_vartime("0").unwrap();
    let b1: Fr = Fr::from_str_vartime("1").unwrap();
    let b2: Fr = Fr::from_str_vartime("2").unwrap();

    let big_arr: Vec<Fr> = vec![
        b1, b2, b0, b0, b0, b0, b0, b0, b0, b0, b0, b0, b0, b0, b0, b0, b0,
    ];
    poseidon_fields(&big_arr).expect_err("Wrong inputs length");
}

#[test]
fn wrong_inputs_carry_max_and_actual() {
    assert_eq!(
        poseidon_fields(&[]).unwrap_err(),
        PoseidonError::WrongInputsLength(16, 0)
    );
    let v = vec![Fr::from_u128(1); 17];
    assert_eq!(
        poseidon_fields(&v).unwrap_err(),
        PoseidonError::WrongInputsLength(16, 17)
    );
}

#[test]
fn same_inputs_same_digest() {
    let v = vec![Fr::from_u128(41), Fr::from_u128(42)];
    let h1 = poseidon_fields(&v).unwrap();
    let h2 = poseidon_fields(&v).unwrap();
    assert_eq!(h1, h2);
}

#[test]
fn trailing_zeros_change_digest() {
    let b0 = Fr::from_u128(0);
    let b1 = Fr::from_u128(1);
    let b2 = Fr::from_u128(2);
    let short = poseidon_fields(&[b1, b2, b0, b0, b0]).unwrap();
    let longer = poseidon_fields(&[b1, b2, b0, b0, b0, b0]).unwrap();
    assert_ne!(short, longer);
}

#[test]
fn compose_uses_doubling_weights() {
    // Two chunks of size two: [1 + 2*2, 3] = [5, 3].
    let v = vec![Fr::from_u128(1), Fr::from_u128(2), Fr::from_u128(3)];
    let composed = compose_fields(&v, 2);
    assert_eq!(composed.len(), 2);
    assert_eq!(composed[0], Fr::from_u128(5));
    assert_eq!(composed[1], Fr::from_u128(3));

    // Three full chunks of size one leave each value alone.
    let composed = compose_fields(&v, 1);
    assert_eq!(composed.len(), 3);
    assert_eq!(composed[0], Fr::from_u128(1));
    assert_eq!(composed[1], Fr::from_u128(2));
    assert_eq!(composed[2], Fr::from_u128(3));

    // One chunk of size four takes all three: 1 + 2*2 + 3*4 = 17.
    let composed = compose_fields(&v, 4);
    assert_eq!(composed.len(), 1);
    assert_eq!(composed[0], Fr::from_u128(17));
}

#[test]
fn compose_and_hash_matches_direct_hash_of_composed() {
    let v = vec![Fr::from_u128(1), Fr::from_u128(2), Fr::from_u128(3)];
    let h = compose_and_poseidon(&v, 2).unwrap();
    let direct = poseidon_fields(&[Fr::from_u128(5), Fr::from_u128(3)]).unwrap();
    assert_eq!(h, direct);
}

#[test]
fn bytes_pack_into_one_element_per_31() {
    // [1, 2, 3] packs to 1 + 2*2 + 3*4 = 17 and is hashed as one element.
    let h = poseidon_bytes(&[1u8, 2, 3]).unwrap();
    let direct = poseidon_fields(&[Fr::from_u128(17)]).unwrap();
    assert_eq!(h, direct);

    // The empty string has no chunks, so the length error of the empty
    // hash surfaces.
    assert_eq!(
        poseidon_bytes(&[]).unwrap_err(),
        PoseidonError::WrongInputsLength(16, 0)
    );

    // 497 bytes need 17 chunks, one above the widest table entry.
    let long = vec![0u8; 497];
    assert_eq!(
        poseidon_bytes(&long).unwrap_err(),
        PoseidonError::WrongInputsLength(16, 17)
    );
}

#[test]
fn limb_form_round_trips_and_rejects_unreduced() {
    let x = Fr::from_u128(123456789);
    let l = x.to_limbs();
    assert_eq!(Fr::from_limbs(l).unwrap(), x);

    // The modulus itself is not a reduced value.
    let p_limbs = [
        0x43e1f593f0000001u64,
        0x2833e84879b97091,
        0xb85045b68181585d,
        0x30644e72e131a029,
    ];
    assert!(Fr::from_limbs(p_limbs).is_none());

    // One below the modulus is.
    let p_minus_one = [
        0x43e1f593f0000000u64,
        0x2833e84879b97091,
        0xb85045b68181585d,
        0x30644e72e131a029,
    ];
    assert!(Fr::from_limbs(p_minus_one).is_some());
}

#[test]
fn decimal_strings_parse_and_reduce() {
    assert!(Fr::from_str_vartime("").is_none());
    assert!(Fr::from_str_vartime("12a").is_none());
    assert_eq!(Fr::from_str_vartime("0").unwrap(), Fr::from_u128(0));
    assert_eq!(
        Fr::from_str_vartime("340282366920938463463374607431768211455").unwrap(),
        Fr::from_u128(u128::MAX)
    );
}

#[test]
fn round_steps_on_known_values() {
    let p = Poseidon::new();

    // Adding constants [5, 7] at offset 0 to the state [1, 2] gives [6, 9].
    let mut state = vec![Fr::from_u128(1), Fr::from_u128(2)];
    let c = vec![Fr::from_u128(5), Fr::from_u128(7)];
    p.ark(&mut state, &c, 0);
    assert_eq!(state[0], Fr::from_u128(6));
    assert_eq!(state[1], Fr::from_u128(9));

    // A full round raises every slot to the fifth power: 2^5 = 32, and a
    // partial round only slot 0.
    let mut state = vec![Fr::from_u128(2), Fr::from_u128(3)];
    p.sbox(8, 56, &mut state, 0);
    assert_eq!(state[0], Fr::from_u128(32));
    assert_eq!(state[1], Fr::from_u128(243));
    let mut state = vec![Fr::from_u128(2), Fr::from_u128(3)];
    p.sbox(8, 56, &mut state, 4);
    assert_eq!(state[0], Fr::from_u128(32));
    assert_eq!(state[1], Fr::from_u128(3));

    // Mixing [1, 2] with [[1, 2], [3, 4]] gives [1*1 + 2*2, 3*1 + 4*2].
    let state = vec![Fr::from_u128(1), Fr::from_u128(2)];
    let m = vec![
        vec![Fr::from_u128(1), Fr::from_u128(2)],
        vec![Fr::from_u128(3), Fr::from_u128(4)],
    ];
    let mixed = p.mix(&state, &m);
    assert_eq!(mixed[0], Fr::from_u128(5));
    assert_eq!(mixed[1], Fr::from_u128(11));
}
