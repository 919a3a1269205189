use m2psu::f8b::F8b;
use m2psu::field::FieldElement;
use m2psu::prc::PseudorandomCode;
use aes::Aes128;
use cipher::generic_array::GenericArray;
use cipher::{BlockEncrypt, KeyInit};

fn fe(x: u64) -> FieldElement {
    FieldElement::from_small(x)
}

#[test]
fn field_arithmetic_small_values() {
    assert_eq!(fe(2).mul(&fe(3)).as_bytes(), fe(6).as_bytes());
    assert_eq!(fe(5).sub(&fe(7)).add(&fe(2)).as_bytes(), FieldElement::zero().as_bytes());
    assert_eq!(fe(9).square().as_bytes(), fe(81).as_bytes());
    assert_eq!(fe(3).invert().mul(&fe(3)).as_bytes(), FieldElement::one().as_bytes());
    assert!(FieldElement::zero().is_zero());
    assert!(!fe(1).is_zero());
    assert!(fe(1).is_negative());
    assert!(!fe(2).is_negative());
    // -1 encodes as p - 1
    let minus_one = fe(1).neg().as_bytes();
    let mut expected = [0xffu8; 32];
    expected[0] = 0xec;
    expected[31] = 0x7f;
    assert_eq!(minus_one, expected);
}

#[test]
fn sqrt_m1_squares_to_minus_one() {
    let i = FieldElement::sqrt_m1();
    assert_eq!(i.square().as_bytes(), fe(1).neg().as_bytes());
}

#[test]
fn sqrt_ratio_of_squares_and_non_squares() {
    // 4/1 is a square: the root is 2 (the nonnegative one)
    let (ok, r) = FieldElement::sqrt_ratio_i(&fe(4), &fe(1));
    assert!(ok);
    assert_eq!(r.as_bytes(), fe(2).as_bytes());
    // 2 is not a square modulo 2^255 - 19
    let (ok2, r2) = FieldElement::sqrt_ratio_i(&fe(2), &fe(1));
    assert!(!ok2);
    // then r^2 = i * 2
    let i = FieldElement::sqrt_m1();
    assert_eq!(r2.square().as_bytes(), i.mul(&fe(2)).as_bytes());
    // 0 / v is the square 0
    let (ok3, r3) = FieldElement::sqrt_ratio_i(&FieldElement::zero(), &fe(5));
    assert!(ok3);
    assert!(r3.is_zero());
}

#[test]
fn from_bytes_ignores_the_top_bit_and_reduces() {
    let mut b = [0u8; 32];
    b[0] = 5;
    let mut c = b;
    c[31] = 0x80;
    assert_eq!(FieldElement::from_bytes(&b).as_bytes(), FieldElement::from_bytes(&c).as_bytes());
    // p + 1 reduces to 1
    let mut p_plus_one = [0xffu8; 32];
    p_plus_one[0] = 0xee;
    p_plus_one[31] = 0x7f;
    assert_eq!(FieldElement::from_bytes(&p_plus_one).as_bytes(), fe(1).as_bytes());
}

#[test]
fn f8b_known_products() {
    // FIPS-197 examples over x^8 + x^4 + x^3 + x + 1
    assert_eq!(F8b(0x57).mul(&F8b(0x83)), F8b(0xc1));
    assert_eq!(F8b(0x57).mul(&F8b(0x13)), F8b(0xfe));
    assert_eq!(F8b(0x53).mul(&F8b(0xca)), F8b(0x01));
    assert_eq!(F8b(0x53).inverse(), F8b(0xca));
    let mut a = F8b(0x57);
    a.mul_assign(&F8b(0x02));
    assert_eq!(a, F8b(0xae));
}

#[test]
fn f8b_field_laws_on_all_elements() {
    for x in 0..=255u8 {
        let a = F8b(x);
        assert_eq!(a.mul(&F8b::one()), a);
        assert_eq!(a.mul(&F8b::zero()), F8b::zero());
        if x != 0 {
            assert_eq!(a.mul(&a.inverse()), F8b::one());
        }
        for y in [1u8, 2, 3, 0x53, 0xff] {
            let b = F8b(y);
            assert_eq!(a.mul(&b), b.mul(&a));
            let c = F8b(0x1d);
            let mut bc = b;
            bc.add_assign(&c);
            let mut ab_ac = a.mul(&b);
            ab_ac.add_assign(&a.mul(&c));
            assert_eq!(a.mul(&bc), ab_ac);
        }
    }
}

#[test]
fn f8b_additive_ops_and_encodings() {
    let mut a = F8b(0x0f);
    a.add_assign(&F8b(0xf0));
    assert_eq!(a, F8b(0xff));
    a.sub_assign(&F8b(0x0f));
    assert_eq!(a, F8b(0xf0));
    assert_eq!(F8b::from_bytes(&[7]), F8b(7));
    assert_eq!(F8b(9).to_bytes(), [9]);
    assert_eq!(F8b::from_uniform_bytes(&[3u8; 16]), F8b(3));
    assert!(F8b(4).ct_eq(&F8b(4)));
    assert!(!F8b(4).ct_eq(&F8b(5)));
    assert_eq!(F8b::conditional_select(&F8b(1), &F8b(2), true), F8b(2));
    assert_eq!(F8b::conditional_select(&F8b(1), &F8b(2), false), F8b(1));
    assert_eq!(F8b(0b1010_0101).bit_decomposition(), [true, false, true, false, false, true, false, true]);
    assert_eq!(F8b::generator(), F8b(0b10011));
    assert_eq!(F8b(2).pow_var_time(8), F8b(0x1b));
    assert_eq!(F8b(5).pow_var_time(0), F8b(1));
}

#[test]
fn f8b_generator_generates_the_multiplicative_group() {
    let g = F8b::generator();
    let mut seen = [false; 256];
    let mut x = F8b::one();
    for _ in 0..255 {
        assert!(!seen[x.0 as usize]);
        seen[x.0 as usize] = true;
        x = x.mul(&g);
    }
    assert_eq!(x, F8b::one());
}

#[test]
fn pseudorandom_code_encodes_with_four_aes_keys() {
    let keys = [[1u8; 16], [2u8; 16], [3u8; 16], [4u8; 16]];
    let code = PseudorandomCode::new(keys[0], keys[1], keys[2], keys[3]);
    let m = [0x42u8; 16];
    let mut out = [[0u8; 16]; 4];
    code.encode(m, &mut out);
    for i in 0..4 {
        let c = Aes128::new(GenericArray::from_slice(&keys[i]));
        let mut b = GenericArray::clone_from_slice(&m);
        c.encrypt_block(&mut b);
        let expected: [u8; 16] = b.into();
        assert_eq!(out[i], expected);
    }
    assert_ne!(out[0], out[1]);
}

/// The product of two polynomials of degree < 16 over F8b, reduced by the
/// degree-16 modulus that ties 16 F8b coefficients to F128b.
fn multiply_f8b_16_elements(a: [F8b; 16], b: [F8b; 16]) -> [F8b; 16] {
    // low coefficient first; the leading coefficient (1) is left out
    let modulus: [u8; 16] = [238, 218, 190, 148, 231, 18, 41, 86, 53, 206, 10, 181, 30, 210, 71, 9];
    let mut wide = [F8b::zero(); 31];
    for i in 0..16 {
        for j in 0..16 {
            wide[i + j].add_assign(&a[i].mul(&b[j]));
        }
    }
    // X^16 = -(m_15 X^15 + ... + m_0), and -x = x in characteristic 2
    for d in (16..31).rev() {
        let c = wide[d];
        wide[d] = F8b::zero();
        for k in 0..16 {
            wide[d - 16 + k].sub_assign(&c.mul(&F8b(modulus[k])));
        }
    }
    let mut out = [F8b::zero(); 16];
    out.copy_from_slice(&wide[..16]);
    out
}

#[test]
fn muliply_f8b_16_elements_works_for_known_value() {
    let expected_product = [
        36, 38, 68, 89, 231, 202, 205, 137, 64, 204, 182, 95, 83, 254, 119, 14,
    ];
    let mut a = [F8b::zero(); 16];
    for (x, v) in a.iter_mut().zip([0u8, 0, 0, 0, 0, 0, 0, 0, 0, 0, 0, 0, 0, 0, 0, 1]) {
        *x = F8b(v);
    }
    let a_squared = multiply_f8b_16_elements(a, a);
    for (e, a) in expected_product.iter().zip(a_squared.iter()) {
        assert_eq!(*e, a.0)
    }
}

#[test]
fn f8b_multiplication_is_associative() {
    for x in 0..=255u8 {
        for y in [0u8, 1, 2, 0x1b, 0x53, 0x80, 0xca, 0xff] {
            for z in [3u8, 0x57, 0x83, 0xfe] {
                let (a, b, c) = (F8b(x), F8b(y), F8b(z));
                assert_eq!(a.mul(&b).mul(&c), a.mul(&b.mul(&c)));
            }
        }
    }
}
