//! The context, the boundary encodings, connectivity maps, bases, and
//! pointwise functions.

use ceed::basis::BasisKind;
use ceed::elem_restriction::RestrictionKind;
use ceed::qfunction_context::QFunctionContext;
use ceed::vector::BufferOwner;
use ceed::{
    Ceed, CopyMode, ElemTopology, Error, EvalMode, MemType, NormType, QuadMode, TransposeMode,
    MAX_BUFFER_LENGTH,
};

fn bits(values: &[f64]) -> Vec<u64> {
    values.iter().map(|v| v.to_bits()).collect()
}

#[test]
fn t_init_description() {
    let ceed = Ceed::init("/cpu/self/ref/serial");
    assert_eq!(ceed.description(), "/cpu/self/ref/serial");
    let ceed2 = Ceed::default_init();
    assert_eq!(ceed2.description(), "/cpu/self/ref/serial");
}

#[test]
fn t_description_truncates() {
    let long = "x".repeat(MAX_BUFFER_LENGTH + 100);
    let ceed = Ceed::init(&long);
    let shown = ceed.description();
    assert_eq!(shown.chars().count(), MAX_BUFFER_LENGTH);
    assert!(long.starts_with(&shown));
}

#[test]
fn t_enum_codes() {
    assert_eq!(MemType::Host.code(), 0);
    assert_eq!(MemType::Device.code(), 1);
    assert_eq!(CopyMode::CopyValues.code(), 0);
    assert_eq!(CopyMode::UsePointer.code(), 1);
    assert_eq!(CopyMode::OwnPointer.code(), 2);
    assert_eq!(NormType::One.code(), 0);
    assert_eq!(NormType::Two.code(), 1);
    assert_eq!(NormType::Max.code(), 2);
    assert_eq!(TransposeMode::NoTranspose.code(), 0);
    assert_eq!(TransposeMode::Transpose.code(), 1);
    assert_eq!(QuadMode::Gauss.code(), 0);
    assert_eq!(QuadMode::GaussLobatto.code(), 1);
    assert_eq!(EvalMode::NoEval.code(), 0);
    assert_eq!(EvalMode::Interp.code(), 1);
    assert_eq!(EvalMode::Grad.code(), 2);
    assert_eq!(EvalMode::Div.code(), 4);
    assert_eq!(EvalMode::Curl.code(), 8);
    assert_eq!(EvalMode::Weight.code(), 16);
    assert_eq!(ElemTopology::Line.code(), 1 << 16);
    assert_eq!(ElemTopology::Hex.code(), (3 << 16) | 6);
}

#[test]
fn t_topology_dimension() {
    assert_eq!(ElemTopology::Line.dimension(), 1);
    assert_eq!(ElemTopology::Triangle.dimension(), 2);
    assert_eq!(ElemTopology::Quad.dimension(), 2);
    assert_eq!(ElemTopology::Tet.dimension(), 3);
    assert_eq!(ElemTopology::Pyramid.dimension(), 3);
    assert_eq!(ElemTopology::Prism.dimension(), 3);
    assert_eq!(ElemTopology::Hex.dimension(), 3);
}

#[test]
fn t_elem_restriction() {
    let ceed = Ceed::default_init();
    let ne: usize = 3;
    let mut ind: Vec<i32> = vec![0; 2 * ne];
    for i in 0..ne {
        ind[2 * i] = i as i32;
        ind[2 * i + 1] = (i + 1) as i32;
    }
    let r = ceed
        .elem_restriction(ne, 2, 1, 1, ne + 1, MemType::Host, CopyMode::CopyValues, &ind)
        .unwrap();
    assert_eq!(r.num_elements(), ne);
    assert_eq!(r.elem_size(), 2);
    assert_eq!(r.num_components(), 1);
    assert_eq!(r.comp_stride(), 1);
    assert_eq!(r.l_size(), ne + 1);
    assert_eq!(r.kind(), RestrictionKind::Offsets);
    assert!(!r.is_sentinel());
    assert_eq!(r.offsets_owner(), BufferOwner::Wrapper);
    // row i of the table holds [i, i + 1]
    assert_eq!(r.offset_at(0, 0), 0);
    assert_eq!(r.offset_at(1, 1), 2);
    assert_eq!(r.offset_at(2, 1), 3);
}

#[test]
fn t_elem_restriction_shape_mismatch() {
    let ceed = Ceed::default_init();
    let ind: Vec<i32> = vec![0, 1, 2];
    assert_eq!(
        ceed.elem_restriction(2, 2, 1, 1, 4, MemType::Host, CopyMode::CopyValues, &ind)
            .err(),
        Some(Error::ShapeMismatch)
    );
}

#[test]
fn t_elem_restriction_offset_out_of_range() {
    let ceed = Ceed::default_init();
    let too_big: Vec<i32> = vec![0, 4];
    assert_eq!(
        ceed.elem_restriction(1, 2, 1, 1, 4, MemType::Host, CopyMode::CopyValues, &too_big)
            .err(),
        Some(Error::OffsetOutOfRange)
    );
    let negative: Vec<i32> = vec![0, -1];
    assert_eq!(
        ceed.elem_restriction(1, 2, 1, 1, 4, MemType::Host, CopyMode::CopyValues, &negative)
            .err(),
        Some(Error::OffsetOutOfRange)
    );
}

#[test]
fn t_strided_elem_restriction() {
    let ceed = Ceed::default_init();
    let ne: usize = 3;
    let strides: [i32; 3] = [1, 2, 2];
    let r = ceed.strided_elem_restriction(ne, 2, 1, ne * 2, strides).unwrap();
    assert_eq!(r.num_elements(), ne);
    assert_eq!(r.kind(), RestrictionKind::Strided);
    assert_eq!(r.l_size(), ne * 2);
    // node 1 of component 0 of element 2: 1*1 + 0*2 + 2*2
    assert_eq!(r.strided_index(1, 0, 2), 5);

    // the last reachable index must stay inside the container
    assert_eq!(
        ceed.strided_elem_restriction(ne, 2, 1, ne * 2 - 1, strides).err(),
        Some(Error::OffsetOutOfRange)
    );
    // a negative stride can form a negative index
    assert_eq!(
        ceed.strided_elem_restriction(ne, 2, 1, ne * 2, [-1, 2, 2]).err(),
        Some(Error::OffsetOutOfRange)
    );
    // with nothing to index, any strides are fine
    assert!(ceed.strided_elem_restriction(0, 2, 1, 0, [-1, -1, -1]).is_ok());
}

#[test]
fn t_basis_tensor() {
    let ceed = Ceed::default_init();
    let interp1d = bits(&[
        0.62994317, 0.47255875, -0.14950343, 0.04700152, -0.07069480, 0.97297619, 0.13253993,
        -0.03482132, -0.03482132, 0.13253993, 0.97297619, -0.07069480, 0.04700152, -0.14950343,
        0.47255875, 0.62994317,
    ]);
    let grad1d = bits(&[
        -2.34183742, 2.78794489, -0.63510411, 0.18899664, -0.51670214, -0.48795249, 1.33790510,
        -0.33325047, 0.33325047, -1.33790510, 0.48795249, 0.51670214, -0.18899664, 0.63510411,
        -2.78794489, 2.34183742,
    ]);
    let qref1d = bits(&[-0.86113631, -0.33998104, 0.33998104, 0.86113631]);
    let qweight1d = bits(&[0.34785485, 0.65214515, 0.65214515, 0.34785485]);
    let b = ceed
        .basis_tensor_H1(2, 1, 4, 4, &interp1d, &grad1d, &qref1d, &qweight1d)
        .unwrap();
    assert_eq!(b.dimension(), 2);
    assert_eq!(b.num_components(), 1);
    assert_eq!(b.num_nodes(), 16);
    assert_eq!(b.num_quadrature_points(), 16);
    assert_eq!(b.kind(), BasisKind::Tensor);

    assert_eq!(
        ceed.basis_tensor_H1(2, 1, 4, 4, &interp1d, &grad1d, &qref1d, &qweight1d[..3].to_vec())
            .err(),
        Some(Error::ShapeMismatch)
    );
    assert_eq!(
        ceed.basis_tensor_H1(0, 1, 4, 4, &interp1d, &grad1d, &qref1d, &qweight1d)
            .err(),
        Some(Error::ShapeMismatch)
    );
}

#[test]
fn t_basis_lagrange() {
    let ceed = Ceed::default_init();
    let b = ceed.basis_tensor_H1_Lagrange(2, 1, 3, 4, QuadMode::Gauss).unwrap();
    assert_eq!(b.dimension(), 2);
    assert_eq!(b.num_nodes(), 9);
    assert_eq!(b.num_quadrature_points(), 16);
    assert_eq!(b.kind(), BasisKind::TensorLagrange);

    assert_eq!(
        ceed.basis_tensor_H1_Lagrange(1, 1, 0, 4, QuadMode::Gauss).err(),
        Some(Error::ShapeMismatch)
    );
}

#[test]
fn t_basis_size_overflow() {
    let ceed = Ceed::default_init();
    let p: usize = 1 << 22;
    assert_eq!(
        ceed.basis_tensor_H1_Lagrange(3, 1, p, 2, QuadMode::Gauss).err(),
        Some(Error::SizeOverflow)
    );
}

#[test]
fn t_basis_h1() {
    let ceed = Ceed::default_init();
    let nnodes: usize = 6;
    let nqpts: usize = 4;
    let interp = bits(&vec![0.1; nqpts * nnodes]);
    let grad = bits(&vec![0.2; nqpts * 2 * nnodes]);
    let qref = bits(&vec![0.3; nqpts * 2]);
    let qweight = bits(&vec![0.4; nqpts]);
    let b = ceed
        .basis_H1(ElemTopology::Triangle, 1, nnodes, nqpts, &interp, &grad, &qref, &qweight)
        .unwrap();
    assert_eq!(b.dimension(), 2);
    assert_eq!(b.num_nodes(), nnodes);
    assert_eq!(b.num_quadrature_points(), nqpts);
    assert_eq!(b.kind(), BasisKind::General);

    assert_eq!(
        ceed.basis_H1(ElemTopology::Triangle, 1, nnodes, nqpts, &grad, &grad, &qref, &qweight)
            .err(),
        Some(Error::ShapeMismatch)
    );
}

#[test]
fn t_basis_collocated_sentinel() {
    let a = ceed::basis_collocated();
    let b = ceed::basis_collocated();
    assert!(a.is_sentinel());
    assert_eq!(a.kind(), BasisKind::SentinelCollocated);
    assert_eq!(a.kind(), b.kind());
    assert_eq!(a.num_nodes(), b.num_nodes());
}

#[test]
fn t_qfunction_gallery() {
    let ceed = Ceed::default_init();
    let qf = ceed.q_function_interior_by_name("Mass1DBuild".to_string()).unwrap();
    assert_eq!(qf.num_inputs(), 2);
    assert_eq!(qf.num_outputs(), 1);
    assert!(!qf.is_sentinel());

    let qm = ceed.q_function_interior_by_name("MassApply".to_string()).unwrap();
    assert_eq!(qm.num_inputs(), 2);
    assert_eq!(qm.num_outputs(), 1);

    assert_eq!(
        ceed.q_function_interior_by_name("NoSuchKernel".to_string()).err(),
        Some(Error::UnknownFunctionName)
    );
}

#[test]
fn t_qfunction_none_sentinel() {
    let a = ceed::qfunction_none();
    let b = ceed::qfunction_none();
    assert!(a.is_sentinel());
    assert_eq!(a.kind(), b.kind());
    assert_eq!(a.num_inputs(), 0);
    assert_eq!(a.num_outputs(), 0);
}

#[test]
fn t_elem_restriction_none_sentinel() {
    let a = ceed::elem_restriction_none();
    let b = ceed::elem_restriction_none();
    assert!(a.is_sentinel());
    assert_eq!(a.kind(), RestrictionKind::SentinelNone);
    assert_eq!(a.kind(), b.kind());
}

#[test]
fn t_qfunction_context() {
    let ceed = Ceed::default_init();
    let mut ctx: QFunctionContext = ceed.q_function_context();
    assert_eq!(ctx.data_len(), 0);
    assert_eq!(ctx.data_owner(), BufferOwner::Wrapper);
    ctx.set_data(MemType::Host, CopyMode::CopyValues, vec![1u8, 2, 3]);
    assert_eq!(ctx.data_len(), 3);
    assert_eq!(ctx.data_owner(), BufferOwner::Wrapper);
    ctx.set_data(MemType::Host, CopyMode::UsePointer, vec![1u8]);
    assert_eq!(ctx.data_owner(), BufferOwner::Caller);
    ctx.set_data(MemType::Host, CopyMode::OwnPointer, vec![]);
    assert_eq!(ctx.data_owner(), BufferOwner::Backend);
    assert_eq!(ctx.data_len(), 0);
}
