use wtvr3d::error::Error;
use wtvr3d::matrix::Matrix4;

fn from16(cells: [i64; 16]) -> Matrix4 {
    let mut v: Vec<i64> = Vec::new();
    for c in cells.iter() {
        v.push(*c);
    }
    Matrix4::from_flat(v)
}

#[test]
fn identity() {
    let id = Matrix4::identity();
    for i in 0..16 {
        assert_eq!(id.get(i), if i % 5 == 0 { 1 } else { 0 });
    }
}

#[test]
fn zero() {
    let zero = Matrix4::zero();
    for i in 0..16 {
        assert_eq!(zero.get(i), 0);
    }
}

#[test]
fn equals() {
    let mut mat1 = Matrix4::identity();
    let mut mat2 = Matrix4::identity();
    mat1.set(3, 3);
    assert!(!mat1.equals(&mat2));
    mat2.set(3, 3);
    assert!(mat1.equals(&mat2));
}

#[test]
fn index() {
    let mut id = Matrix4::identity();
    id.set(13, 5);
    id.set_rc(2, 1, 7);
    assert_eq!(id.get(13), 5);
    assert_eq!(id.get_rc(2, 1), 7);
    assert_eq!(id.get(13), id.get_rc(1, 3));
    assert_eq!(id.get(6), id.get_rc(2, 1));
}

#[test]
fn determinant() {
    let mut mat = Matrix4::identity();
    assert_eq!(mat.determinant(), 1);
    mat.scale_in_place(2);
    assert_eq!(mat.determinant(), 16);
    mat.set_rc(1, 0, 1);
    mat.set_rc(3, 1, 5);
    mat.set_rc(0, 3, -8);
    assert_eq!(mat.determinant(), -64);
}

#[test]
fn inverse() {
    let mat = Matrix4::identity();
    let mut id = mat.inverse().unwrap();
    assert_eq!(id.determinant(), 1);
    for i in 0..16 {
        assert_eq!(id.get(i), if i % 5 == 0 { 1 } else { 0 });
    }
    id.set(3, 1);
    id.set(6, 2);
    id.set(12, 2);
    let inv = id.inverse().unwrap();
    let res = from16([-1, 0, 0, 1, 0, 1, -2, 0, 0, 0, 1, 0, 2, 0, 0, -1]);
    assert!(inv.equals(&res));
}

#[test]
fn flat_and_paired_accessors_agree() {
    let mut m = from16([3, 1, 4, 1, 5, 9, 2, 6, 5, 3, 5, 8, 9, 7, 9, 3]);
    for a in 0..4 {
        for b in 0..4 {
            assert_eq!(m.get(a + 4 * b), m.get_rc(a, b));
        }
    }
    m.set_rc(2, 3, 42);
    assert_eq!(m.get(2 + 4 * 3), 42);
    m.set(1 + 4 * 2, -7);
    assert_eq!(m.get_rc(1, 2), -7);
}

#[test]
fn zero_matrix_is_singular() {
    let zero = Matrix4::zero();
    assert_eq!(zero.determinant(), 0);
    match zero.inverse() {
        Err(Error::SingularMatrix) => {}
        _ => panic!("inverting the zero matrix must report the singular-matrix error"),
    }
}

#[test]
fn determinant_of_scaled_matrix() {
    let m = from16([2, 0, 1, 0, 1, 1, 0, 3, 0, 2, 1, 0, 1, 0, 0, 1]);
    let d = m.determinant();
    let m3 = m.multiply_scalar(3);
    assert_eq!(m3.determinant(), 81 * d);
    let mk = m.multiply_scalar(-2);
    assert_eq!(mk.determinant(), 16 * d);
}

#[test]
fn inverse_multiplies_to_identity() {
    // An integer matrix with determinant -1, so its exact inverse exists.
    let m = from16([1, 0, 0, 1, 0, 1, 2, 0, 0, 0, 1, 0, 2, 0, 0, 1]);
    let inv = m.inverse().unwrap();
    let id = Matrix4::identity();
    assert!(m.multiply_matrix(&inv).equals(&id));
    assert!(inv.multiply_matrix(&m).equals(&id));
}

#[test]
fn inverse_is_involutive() {
    let m = from16([1, 0, 0, 1, 0, 1, 2, 0, 0, 0, 1, 0, 2, 0, 0, 1]);
    let inv = m.inverse().unwrap();
    let back = inv.inverse().unwrap();
    assert!(back.equals(&m));
}

#[test]
fn multiplication_is_associative_not_commutative() {
    let a = from16([1, 2, 0, 1, 0, 1, 3, 0, 2, 0, 1, 1, 0, 1, 0, 2]);
    let b = from16([0, 1, 1, 0, 2, 0, 0, 3, 1, 1, 2, 0, 0, 2, 0, 1]);
    let c = from16([1, 0, 2, 1, 1, 1, 0, 0, 0, 3, 1, 2, 2, 0, 0, 1]);
    let ab_c = a.multiply_matrix(&b).multiply_matrix(&c);
    let a_bc = a.multiply_matrix(&b.multiply_matrix(&c));
    assert!(ab_c.equals(&a_bc));
    let ab = a.multiply_matrix(&b);
    let ba = b.multiply_matrix(&a);
    assert!(!ab.equals(&ba));
}

#[test]
fn compound_forms_match_binary_forms() {
    let a = from16([1, 2, 0, 1, 0, 1, 3, 0, 2, 0, 1, 1, 0, 1, 0, 2]);
    let b = from16([0, 1, 1, 0, 2, 0, 0, 3, 1, 1, 2, 0, 0, 2, 0, 1]);
    let ab = a.multiply_matrix(&b);
    let mut a2 = from16([1, 2, 0, 1, 0, 1, 3, 0, 2, 0, 1, 1, 0, 1, 0, 2]);
    a2.compose_in_place(&b);
    assert!(a2.equals(&ab));
    let scaled = a.multiply_scalar(5);
    let mut a3 = from16([1, 2, 0, 1, 0, 1, 3, 0, 2, 0, 1, 1, 0, 1, 0, 2]);
    a3.scale_in_place(5);
    assert!(a3.equals(&scaled));
}

#[test]
fn from_flat_round_trips() {
    let cells = [7, -3, 0, 2, 1, 8, -5, 4, 0, 0, 9, 1, -2, 6, 3, 11];
    let m = from16(cells);
    let out = m.to_flat();
    for i in 0..16 {
        assert_eq!(out[i], cells[i]);
    }
}

#[test]
fn inexact_inverse_is_refused() {
    // Determinant 16 does not divide every adjugate cell of this
    // matrix, so the exact inverse is not representable.
    let mut m = Matrix4::identity();
    m.scale_in_place(2);
    m.set_rc(1, 0, 1);
    match m.inverse() {
        Err(Error::InexactInverse) => {}
        _ => panic!("the exact inverse must be refused when not representable"),
    }
}
