//! Operators: field binding, the completeness check in front of an
//! apply, and composite operators.

use ceed::{Ceed, CopyMode, Error, MemType, QuadMode};

fn bits(values: &[f64]) -> Vec<u64> {
    values.iter().map(|v| v.to_bits()).collect()
}

#[test]
fn t_missing_binding() {
    let ceed = Ceed::default_init();
    let ne: usize = 4;
    let q: usize = 4;
    let mut indx: Vec<i32> = vec![0; 2 * ne];
    for i in 0..ne {
        indx[2 * i] = i as i32;
        indx[2 * i + 1] = (i + 1) as i32;
    }
    let rx = ceed
        .elem_restriction(ne, 2, 1, 1, ne + 1, MemType::Host, CopyMode::CopyValues, &indx)
        .unwrap();
    let bx = ceed.basis_tensor_H1_Lagrange(1, 1, 2, q, QuadMode::Gauss).unwrap();
    let qf_build = ceed.q_function_interior_by_name("Mass1DBuild".to_string()).unwrap();
    let mut op = ceed.operator(&qf_build, &ceed::qfunction_none(), &ceed::qfunction_none());
    op.set_field("dx", &rx, &bx, &ceed::vector_active()).unwrap();
    // "weights" and "qdata" have no binding yet
    let x = ceed.vector_from_slice(&bits(&[-1.0, -0.5, 0.0, 0.5, 1.0]));
    let marker = bits(&vec![7.0; ne * q]);
    let mut qdata = ceed.vector_from_slice(&marker);
    assert_eq!(op.apply(&x, &mut qdata), Err(Error::MissingFieldBinding));
    // no partial computation: the output is untouched
    let h = qdata.get_array(MemType::Host).unwrap();
    for i in 0..ne * q {
        assert_eq!(h.at(i), marker[i]);
    }
    qdata.restore_array(h).unwrap();
}

#[test]
fn t_unknown_field() {
    let ceed = Ceed::default_init();
    let qf = ceed.q_function_interior_by_name("MassApply".to_string()).unwrap();
    let mut op = ceed.operator(&qf, &ceed::qfunction_none(), &ceed::qfunction_none());
    assert_eq!(
        op.set_field(
            "nonesuch",
            &ceed::elem_restriction_none(),
            &ceed::basis_collocated(),
            &ceed::vector_none(),
        ),
        Err(Error::UnknownFieldName)
    );
}

#[test]
fn t_duplicate_field() {
    let ceed = Ceed::default_init();
    let q: usize = 4;
    let rq = ceed.strided_elem_restriction(1, q, 1, q, [1, q as i32, q as i32]).unwrap();
    let qf = ceed.q_function_interior_by_name("MassApply".to_string()).unwrap();
    let mut op = ceed.operator(&qf, &ceed::qfunction_none(), &ceed::qfunction_none());
    op.set_field("u", &rq, &ceed::basis_collocated(), &ceed::vector_active()).unwrap();
    assert_eq!(op.num_fields(), 1);
    assert_eq!(
        op.set_field("u", &rq, &ceed::basis_collocated(), &ceed::vector_active()),
        Err(Error::DuplicateFieldBinding)
    );
    assert_eq!(op.num_fields(), 1);
}

#[test]
fn t_apply_length_mismatch() {
    let ceed = Ceed::default_init();
    let q: usize = 4;
    let rq = ceed.strided_elem_restriction(1, q, 1, q, [1, q as i32, q as i32]).unwrap();
    let qf = ceed.q_function_interior_by_name("MassApply".to_string()).unwrap();
    let mut op = ceed.operator(&qf, &ceed::qfunction_none(), &ceed::qfunction_none());
    op.set_field("u", &rq, &ceed::basis_collocated(), &ceed::vector_active()).unwrap();
    op.set_field("qdata", &rq, &ceed::basis_collocated(), &ceed::vector_active()).unwrap();
    op.set_field("v", &rq, &ceed::basis_collocated(), &ceed::vector_active()).unwrap();
    // the active bindings index containers of length q, but the input is shorter
    let u = ceed.vector(q - 1);
    let mut v = ceed.vector(q);
    assert_eq!(op.apply(&u, &mut v), Err(Error::LengthMismatch));
    let u_ok = ceed.vector(q);
    assert_eq!(op.apply(&u_ok, &mut v), Ok(()));
}

#[test]
fn t_apply_borrow_outstanding() {
    let ceed = Ceed::default_init();
    let qf = ceed.q_function_interior_by_name("MassApply".to_string()).unwrap();
    let op = ceed.operator(&qf, &ceed::qfunction_none(), &ceed::qfunction_none());
    let mut u = ceed.vector(4);
    let mut v = ceed.vector(4);
    let h = u.get_array(MemType::Host).unwrap();
    assert_eq!(op.apply(&u, &mut v), Err(Error::BorrowOutstanding));
    u.restore_array(h).unwrap();
}

/// The reference mass-matrix scenario: a 4-element, degree-2,
/// one-dimensional mesh on [-1, 1], a "build" operator producing
/// per-quadrature-point mass data, then a "mass-apply" operator on a
/// constant-one input. The numerical results live inside the compute
/// backend; what is checked here is everything this layer stands for:
/// the handles, the bindings, the validation, and the borrow round
/// trips.
#[test]
fn t_mass_setup_scenario() {
    let ceed = Ceed::default_init();
    let ne: usize = 4;
    let p: usize = 3;
    let q: usize = 4;
    let ndofs = p * ne - ne + 1;

    // Vectors
    let x = ceed.vector_from_slice(&bits(&[-1.0, -0.5, 0.0, 0.5, 1.0]));
    let mut qdata = ceed.vector(ne * q);
    qdata.set_value(0.0f64.to_bits()).unwrap();
    let mut u = ceed.vector(ndofs);
    u.set_value(1.0f64.to_bits()).unwrap();
    let mut v = ceed.vector(ndofs);
    v.set_value(0.0f64.to_bits()).unwrap();

    // Restrictions
    let mut indx: Vec<i32> = vec![0; 2 * ne];
    for i in 0..ne {
        indx[2 * i] = i as i32;
        indx[2 * i + 1] = (i + 1) as i32;
    }
    let rx = ceed
        .elem_restriction(ne, 2, 1, 1, ne + 1, MemType::Host, CopyMode::CopyValues, &indx)
        .unwrap();
    let mut indu: Vec<i32> = vec![0; p * ne];
    for i in 0..ne {
        indu[p * i] = i as i32;
        indu[p * i + 1] = (i + 1) as i32;
        indu[p * i + 2] = (i + 2) as i32;
    }
    let ru = ceed
        .elem_restriction(ne, 3, 1, 1, ndofs, MemType::Host, CopyMode::CopyValues, &indu)
        .unwrap();
    let strides: [i32; 3] = [1, q as i32, q as i32];
    let rq = ceed.strided_elem_restriction(ne, q, 1, q * ne, strides).unwrap();

    // Bases
    let bx = ceed.basis_tensor_H1_Lagrange(1, 1, 2, q, QuadMode::Gauss).unwrap();
    let bu = ceed.basis_tensor_H1_Lagrange(1, 1, p, q, QuadMode::Gauss).unwrap();

    // Build operator
    let qf_build = ceed.q_function_interior_by_name("Mass1DBuild".to_string()).unwrap();
    let mut op_build = ceed.operator(&qf_build, &ceed::qfunction_none(), &ceed::qfunction_none());
    op_build.set_field("dx", &rx, &bx, &ceed::vector_active()).unwrap();
    op_build
        .set_field("weights", &ceed::elem_restriction_none(), &bx, &ceed::vector_none())
        .unwrap();
    op_build.set_field("qdata", &rq, &ceed::basis_collocated(), &ceed::vector_active()).unwrap();

    assert_eq!(op_build.apply(&x, &mut qdata), Ok(()));

    // Mass operator
    let qf_mass = ceed.q_function_interior_by_name("MassApply".to_string()).unwrap();
    let mut op_mass = ceed.operator(&qf_mass, &ceed::qfunction_none(), &ceed::qfunction_none());
    op_mass.set_field("u", &ru, &bu, &ceed::vector_active()).unwrap();
    op_mass.set_field("qdata", &rq, &ceed::basis_collocated(), &qdata).unwrap();
    op_mass.set_field("v", &ru, &bu, &ceed::vector_active()).unwrap();

    v.set_value(0.0f64.to_bits()).unwrap();
    assert_eq!(op_mass.apply(&u, &mut v), Ok(()));

    // The output is readable and its shape is intact
    let array = v.get_array(MemType::Host).unwrap();
    assert_eq!(array.len(), ndofs);
    v.restore_array(array).unwrap();
}

#[test]
fn t_composite_operator() {
    let ceed = Ceed::default_init();
    let q: usize = 4;
    let rq = ceed.strided_elem_restriction(1, q, 1, q, [1, q as i32, q as i32]).unwrap();
    let qf1 = ceed.q_function_interior_by_name("MassApply".to_string()).unwrap();
    let mut op1 = ceed.operator(&qf1, &ceed::qfunction_none(), &ceed::qfunction_none());
    op1.set_field("u", &rq, &ceed::basis_collocated(), &ceed::vector_active()).unwrap();
    op1.set_field("qdata", &rq, &ceed::basis_collocated(), &ceed::vector_active()).unwrap();
    op1.set_field("v", &rq, &ceed::basis_collocated(), &ceed::vector_active()).unwrap();

    let qf2 = ceed.q_function_interior_by_name("MassApply".to_string()).unwrap();
    let mut op2 = ceed.operator(&qf2, &ceed::qfunction_none(), &ceed::qfunction_none());
    op2.set_field("u", &rq, &ceed::basis_collocated(), &ceed::vector_active()).unwrap();
    op2.set_field("qdata", &rq, &ceed::basis_collocated(), &ceed::vector_active()).unwrap();
    op2.set_field("v", &rq, &ceed::basis_collocated(), &ceed::vector_active()).unwrap();

    let mut comp = ceed.composite_operator();
    assert_eq!(comp.num_sub_operators(), 0);
    comp.add_sub_operator(op1);
    comp.add_sub_operator(op2);
    assert_eq!(comp.num_sub_operators(), 2);

    let u = ceed.vector(q);
    let mut v = ceed.vector(q);
    assert_eq!(comp.apply(&u, &mut v), Ok(()));

    // a child with a missing binding refuses the whole composite apply
    let qf3 = ceed.q_function_interior_by_name("MassApply".to_string()).unwrap();
    let mut op3 = ceed.operator(&qf3, &ceed::qfunction_none(), &ceed::qfunction_none());
    op3.set_field("u", &rq, &ceed::basis_collocated(), &ceed::vector_active()).unwrap();
    comp.add_sub_operator(op3);
    assert_eq!(comp.apply(&u, &mut v), Err(Error::MissingFieldBinding));
}
