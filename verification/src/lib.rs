//! Safety layer for a handle-based numerical compute backend.
//!
//! The backend itself (quadrature evaluation, tensor contraction, element
//! assembly) is an opaque black box reached through opaque handles; this
//! crate verifies everything the wrapper layer is responsible for: how
//! handles are created, how buffer ownership is communicated across the
//! boundary (copy / borrow / transfer), how borrowed numeric buffers are
//! tracked so double borrows are refused, how the process-wide sentinel
//! handles stay immutable, and how an operator's field bindings are
//! validated before an apply.
//!
//! Numeric entries are carried as opaque 64-bit words (the bit pattern of
//! the caller's binary64 scalar). The layer never does arithmetic on them
//! beyond the sign-bit masking that magnitude ordering needs.

use vstd::prelude::*;

pub mod basis;
pub mod elem_restriction;
pub mod operator;
pub mod qfunction;
pub mod qfunction_context;
pub mod vector;

use vstd::arithmetic::power::pow;

use crate::basis::Basis;
use crate::elem_restriction::ElemRestriction;
use crate::operator::{CompositeOperator, Operator};
use crate::qfunction::QFunction;
use crate::qfunction_context::QFunctionContext;
use crate::vector::Vector;

verus! {

/// Bound on the scratch buffer used when the backend renders a textual
/// view of a context; a rendering longer than this is truncated, never
/// written past the bound.
pub const MAX_BUFFER_LENGTH: usize = 4096;

/// Where a numeric buffer crosses the boundary, this names the memory
/// space it lives in.
#[derive(Clone, Copy, PartialEq, Eq, Structural, Debug)]
pub enum MemType {
    Host,
    Device,
}

/// The three data-transfer contracts for a buffer crossing the boundary.
#[derive(Clone, Copy, PartialEq, Eq, Structural, Debug)]
pub enum CopyMode {
    /// The receiving side allocates and fills its own copy; the caller's
    /// buffer is untouched and stays the caller's.
    CopyValues,
    /// The receiving side uses the caller's memory in place; the caller
    /// must keep it alive and unmoved while it may be read.
    UsePointer,
    /// Ownership moves to the receiving side, which becomes solely
    /// responsible for freeing; the giving side must drop its own claim.
    OwnPointer,
}

/// Norm kinds a numeric container can be asked for.
#[derive(Clone, Copy, PartialEq, Eq, Structural, Debug)]
pub enum NormType {
    One,
    Two,
    Max,
}

#[derive(Clone, Copy, PartialEq, Eq, Structural, Debug)]
pub enum TransposeMode {
    NoTranspose,
    Transpose,
}

/// Distribution of the quadrature points of a tensor-product basis.
#[derive(Clone, Copy, PartialEq, Eq, Structural, Debug)]
pub enum QuadMode {
    Gauss,
    GaussLobatto,
}

/// Reference element topologies.
#[derive(Clone, Copy, PartialEq, Eq, Structural, Debug)]
pub enum ElemTopology {
    Line,
    Triangle,
    Quad,
    Tet,
    Pyramid,
    Prism,
    Hex,
}

/// How a field is evaluated at quadrature points.
#[derive(Clone, Copy, PartialEq, Eq, Structural, Debug)]
pub enum EvalMode {
    NoEval,
    Interp,
    Grad,
    Div,
    Curl,
    Weight,
}

/// The conditions under which the wrapper layer refuses an operation
/// before anything reaches the backend.
#[derive(Clone, Copy, PartialEq, Eq, Structural, Debug)]
pub enum Error {
    /// A buffer's length does not match the container's fixed length, or
    /// an active field binding does not match the container it is fed from.
    LengthMismatch,
    /// A mutating operation, a read needing a consistent buffer, or a
    /// second borrow was attempted while a borrow is outstanding.
    BorrowOutstanding,
    /// A borrow was returned to a container that has none outstanding.
    NoBorrowOutstanding,
    /// The returned handle cannot be the one lent out (its length differs
    /// from the container's).
    BorrowMismatch,
    /// Table dimensions are mutually inconsistent.
    ShapeMismatch,
    /// An offset points outside the container it indexes into.
    OffsetOutOfRange,
    /// The name resolves to nothing in the backend's built-in library of
    /// pointwise functions.
    UnknownFunctionName,
    /// The name is not a field declared by the bound pointwise function.
    UnknownFieldName,
    /// An operator was applied although a declared field has no binding.
    MissingFieldBinding,
    /// A field that already has its one binding was bound again.
    DuplicateFieldBinding,
    /// A node or quadrature-point count does not fit the address space.
    SizeOverflow,
    /// The requested reduction is done by the compute backend, not by
    /// this layer.
    UnsupportedNorm,
}

impl MemType {
    /// Integer encoding fixed by the backend ABI.
    pub open spec fn spec_code(self) -> u32 {
        match self {
            MemType::Host => 0,
            MemType::Device => 1,
        }
    }

    pub fn code(self) -> (c: u32)
        ensures
            c == self.spec_code(),
    {
        match self {
            MemType::Host => 0,
            MemType::Device => 1,
        }
    }
}

impl CopyMode {
    /// Integer encoding fixed by the backend ABI.
    pub open spec fn spec_code(self) -> u32 {
        match self {
            CopyMode::CopyValues => 0,
            CopyMode::UsePointer => 1,
            CopyMode::OwnPointer => 2,
        }
    }

    pub fn code(self) -> (c: u32)
        ensures
            c == self.spec_code(),
    {
        match self {
            CopyMode::CopyValues => 0,
            CopyMode::UsePointer => 1,
            CopyMode::OwnPointer => 2,
        }
    }
}

impl NormType {
    /// Integer encoding fixed by the backend ABI.
    pub open spec fn spec_code(self) -> u32 {
        match self {
            NormType::One => 0,
            NormType::Two => 1,
            NormType::Max => 2,
        }
    }

    pub fn code(self) -> (c: u32)
        ensures
            c == self.spec_code(),
    {
        match self {
            NormType::One => 0,
            NormType::Two => 1,
            NormType::Max => 2,
        }
    }
}

impl TransposeMode {
    /// Integer encoding fixed by the backend ABI.
    pub open spec fn spec_code(self) -> u32 {
        match self {
            TransposeMode::NoTranspose => 0,
            TransposeMode::Transpose => 1,
        }
    }

    pub fn code(self) -> (c: u32)
        ensures
            c == self.spec_code(),
    {
        match self {
            TransposeMode::NoTranspose => 0,
            TransposeMode::Transpose => 1,
        }
    }
}

impl QuadMode {
    /// Integer encoding fixed by the backend ABI.
    pub open spec fn spec_code(self) -> u32 {
        match self {
            QuadMode::Gauss => 0,
            QuadMode::GaussLobatto => 1,
        }
    }

    pub fn code(self) -> (c: u32)
        ensures
            c == self.spec_code(),
    {
        match self {
            QuadMode::Gauss => 0,
            QuadMode::GaussLobatto => 1,
        }
    }
}

impl ElemTopology {
    /// Integer encoding fixed by the backend ABI: the topological
    /// dimension in the high half-word, a running index in the low one.
    pub open spec fn spec_code(self) -> u32 {
        match self {
            ElemTopology::Line => 0x1_0000,
            ElemTopology::Triangle => 0x2_0001,
            ElemTopology::Quad => 0x2_0002,
            ElemTopology::Tet => 0x3_0003,
            ElemTopology::Pyramid => 0x3_0004,
            ElemTopology::Prism => 0x3_0005,
            ElemTopology::Hex => 0x3_0006,
        }
    }

    pub fn code(self) -> (c: u32)
        ensures
            c == self.spec_code(),
    {
        match self {
            ElemTopology::Line => 0x1_0000,
            ElemTopology::Triangle => 0x2_0001,
            ElemTopology::Quad => 0x2_0002,
            ElemTopology::Tet => 0x3_0003,
            ElemTopology::Pyramid => 0x3_0004,
            ElemTopology::Prism => 0x3_0005,
            ElemTopology::Hex => 0x3_0006,
        }
    }

    /// The topological dimension of the reference element, as the
    /// encoding carries it in its high half-word.
    pub open spec fn spec_dimension(self) -> usize {
        (self.spec_code() >> 16) as usize
    }

    /// The topological dimension of the reference element, as the
    /// encoding carries it.
    pub fn dimension(self) -> (d: usize)
        ensures
            d == self.spec_dimension(),
            1 <= d <= 3,
    {
        let d: usize = match self {
            ElemTopology::Line => 1,
            ElemTopology::Triangle => 2,
            ElemTopology::Quad => 2,
            ElemTopology::Tet => 3,
            ElemTopology::Pyramid => 3,
            ElemTopology::Prism => 3,
            ElemTopology::Hex => 3,
        };
        proof {
            assert(0x1_0000u32 >> 16 == 1 && 0x2_0001u32 >> 16 == 2 && 0x2_0002u32 >> 16 == 2
                && 0x3_0003u32 >> 16 == 3 && 0x3_0004u32 >> 16 == 3 && 0x3_0005u32 >> 16 == 3
                && 0x3_0006u32 >> 16 == 3) by (bit_vector);
        }
        d
    }
}

impl EvalMode {
    /// Integer encoding fixed by the backend ABI: one flag bit per mode.
    pub open spec fn spec_code(self) -> u32 {
        match self {
            EvalMode::NoEval => 0,
            EvalMode::Interp => 1,
            EvalMode::Grad => 2,
            EvalMode::Div => 4,
            EvalMode::Curl => 8,
            EvalMode::Weight => 16,
        }
    }

    pub fn code(self) -> (c: u32)
        ensures
            c == self.spec_code(),
    {
        match self {
            EvalMode::NoEval => 0,
            EvalMode::Interp => 1,
            EvalMode::Grad => 2,
            EvalMode::Div => 4,
            EvalMode::Curl => 8,
            EvalMode::Weight => 16,
        }
    }
}

/// One initialized connection to a compute backend, named by a resource
/// selector such as "/cpu/self/ref/serial". Every other handle is created
/// through a context and must not outlive it; the backend cannot detect a
/// violation, so handle release is left to Rust's ownership while the
/// model keeps each handle self-contained.
pub struct Ceed {
    resource: String,
}

impl View for Ceed {
    type V = Seq<char>;

    closed spec fn view(&self) -> Seq<char> {
        self.resource@
    }
}

impl Ceed {
    /// Open a context on the backend the resource selector names.
    pub fn init(resource: &str) -> (c: Ceed)
        ensures
            c@ == resource@,
    {
        Ceed { resource: resource.to_owned() }
    }

    /// The context used when nothing more specific is asked for: the
    /// serial reference backend on the host CPU.
    pub fn default_init() -> (c: Ceed)
        ensures
            c@ == "/cpu/self/ref/serial"@,
    {
        Ceed::init("/cpu/self/ref/serial")
    }

    /// A human-readable description of the active backend, rendered into
    /// a scratch buffer of at most `MAX_BUFFER_LENGTH` characters: a
    /// longer rendering is truncated at the bound, never written past it.
    pub fn description(&self) -> (s: String)
        ensures
            self@.len() <= MAX_BUFFER_LENGTH ==> s@ == self@,
            self@.len() > MAX_BUFFER_LENGTH ==> s@ == self@.subrange(0, MAX_BUFFER_LENGTH as int),
    {
        let n = self.resource.as_str().unicode_len();
        if n <= MAX_BUFFER_LENGTH {
            self.resource.clone()
        } else {
            self.resource.as_str().substring_char(0, MAX_BUFFER_LENGTH).to_owned()
        }
    }

    /// A numeric container of `n` entries with unspecified initial
    /// contents.
    pub fn vector<'a>(&'a self, n: usize) -> (v: Vector<'a>)
        ensures
            v@.entries.len() == n,
            !v@.borrowed,
            v@.owner == crate::vector::BufferOwner::Wrapper,
            v@.kind == crate::vector::VectorKind::Concrete,
    {
        Vector::create(self, n)
    }

    /// A numeric container created from and populated with the given
    /// data, by copy.
    pub fn vector_from_slice<'a>(&'a self, values: &[u64]) -> (v: Vector<'a>)
        ensures
            v@ == crate::vector::from_slice_view(values@),
    {
        Vector::from_slice(self, values)
    }

    /// A connectivity map from an explicit offset table; see
    /// `ElemRestriction::create` for the conditions under which it is
    /// refused.
    pub fn elem_restriction<'a>(
        &'a self,
        nelem: usize,
        elemsize: usize,
        ncomp: usize,
        compstride: usize,
        lsize: usize,
        mtype: MemType,
        cmode: CopyMode,
        offsets: &Vec<i32>,
    ) -> (r: Result<ElemRestriction<'a>, Error>)
        ensures
            !crate::elem_restriction::offsets_shape_ok(nelem, elemsize, offsets@.len()) ==> r
                == Err::<ElemRestriction<'a>, Error>(Error::ShapeMismatch),
            crate::elem_restriction::offsets_shape_ok(nelem, elemsize, offsets@.len())
                && !crate::elem_restriction::offsets_in_range(offsets@, lsize) ==> r == Err::<
                ElemRestriction<'a>,
                Error,
            >(Error::OffsetOutOfRange),
            crate::elem_restriction::offsets_shape_ok(nelem, elemsize, offsets@.len())
                && crate::elem_restriction::offsets_in_range(offsets@, lsize) ==> (r matches Ok(er)
                && er@.nelem == nelem && er@.elemsize == elemsize && er@.ncomp == ncomp
                && er@.compstride == compstride && er@.lsize == lsize && er@.offsets == offsets@
                && er@.owner == crate::vector::spec_resolve_owner(cmode) && er@.kind
                == crate::elem_restriction::RestrictionKind::Offsets),
    {
        ElemRestriction::create(
            self,
            nelem,
            elemsize,
            ncomp,
            compstride,
            lsize,
            mtype,
            cmode,
            offsets,
        )
    }

    /// A strided connectivity map for a regular layout; see
    /// `ElemRestriction::create_strided` for the conditions under which
    /// it is refused.
    pub fn strided_elem_restriction<'a>(
        &'a self,
        nelem: usize,
        elemsize: usize,
        ncomp: usize,
        lsize: usize,
        strides: [i32; 3],
    ) -> (r: Result<ElemRestriction<'a>, Error>)
        ensures
            !crate::elem_restriction::strided_in_range(nelem, elemsize, ncomp, lsize, strides@)
                ==> r == Err::<ElemRestriction<'a>, Error>(Error::OffsetOutOfRange),
            crate::elem_restriction::strided_in_range(nelem, elemsize, ncomp, lsize, strides@)
                ==> (r matches Ok(er) && er@.nelem == nelem && er@.elemsize == elemsize && er@.ncomp
                == ncomp && er@.compstride == 0 && er@.lsize == lsize && er@.strides == strides@
                && er@.kind == crate::elem_restriction::RestrictionKind::Strided),
    {
        ElemRestriction::create_strided(self, nelem, elemsize, ncomp, lsize, strides)
    }

    /// A tensor-product basis from explicit one-dimensional tables; see
    /// `Basis::create_tensor_H1` for the conditions under which it is
    /// refused.
    pub fn basis_tensor_H1<'a>(
        &'a self,
        dim: usize,
        ncomp: usize,
        p1d: usize,
        q1d: usize,
        interp1d: &Vec<u64>,
        grad1d: &Vec<u64>,
        qref1d: &Vec<u64>,
        qweight1d: &Vec<u64>,
    ) -> (r: Result<Basis<'a>, Error>)
        ensures
            dim == 0 || !crate::basis::tensor_shapes_ok(
                p1d,
                q1d,
                interp1d@.len(),
                grad1d@.len(),
                qref1d@.len(),
                qweight1d@.len(),
            ) ==> r == Err::<Basis<'a>, Error>(Error::ShapeMismatch),
            dim >= 1 && crate::basis::tensor_shapes_ok(
                p1d,
                q1d,
                interp1d@.len(),
                grad1d@.len(),
                qref1d@.len(),
                qweight1d@.len(),
            ) && (pow(p1d as int, dim as nat) > usize::MAX || pow(q1d as int, dim as nat)
                > usize::MAX) ==> r == Err::<Basis<'a>, Error>(Error::SizeOverflow),
            dim >= 1 && crate::basis::tensor_shapes_ok(
                p1d,
                q1d,
                interp1d@.len(),
                grad1d@.len(),
                qref1d@.len(),
                qweight1d@.len(),
            ) && pow(p1d as int, dim as nat) <= usize::MAX && pow(q1d as int, dim as nat)
                <= usize::MAX ==> (r matches Ok(b) && b@.dim == dim && b@.ncomp == ncomp && b@.nnodes
                == pow(p1d as int, dim as nat) && b@.nqpts == pow(q1d as int, dim as nat)
                && b@.interp == interp1d@ && b@.grad == grad1d@ && b@.qref == qref1d@ && b@.qweight
                == qweight1d@ && b@.qmode == QuadMode::Gauss && b@.topo == ElemTopology::Line
                && b@.kind == crate::basis::BasisKind::Tensor),
    {
        Basis::create_tensor_H1(self, dim, ncomp, p1d, q1d, interp1d, grad1d, qref1d, qweight1d)
    }

    /// A tensor-product Lagrange basis generated from counts and a
    /// quadrature mode; see `Basis::create_tensor_H1_Lagrange` for the
    /// conditions under which it is refused.
    pub fn basis_tensor_H1_Lagrange<'a>(
        &'a self,
        dim: usize,
        ncomp: usize,
        p: usize,
        q: usize,
        qmode: QuadMode,
    ) -> (r: Result<Basis<'a>, Error>)
        ensures
            dim == 0 || p == 0 || q == 0 ==> r == Err::<Basis<'a>, Error>(Error::ShapeMismatch),
            dim >= 1 && p >= 1 && q >= 1 && (pow(p as int, dim as nat) > usize::MAX || pow(
                q as int,
                dim as nat,
            ) > usize::MAX) ==> r == Err::<Basis<'a>, Error>(Error::SizeOverflow),
            dim >= 1 && p >= 1 && q >= 1 && pow(p as int, dim as nat) <= usize::MAX && pow(
                q as int,
                dim as nat,
            ) <= usize::MAX ==> (r matches Ok(b) && b@.dim == dim && b@.ncomp == ncomp && b@.nnodes
                == pow(p as int, dim as nat) && b@.nqpts == pow(q as int, dim as nat) && b@.qmode
                == qmode && b@.topo == ElemTopology::Line && b@.kind
                == crate::basis::BasisKind::TensorLagrange),
    {
        Basis::create_tensor_H1_Lagrange(self, dim, ncomp, p, q, qmode)
    }

    /// A fully explicit basis on an arbitrary element topology; see
    /// `Basis::create_H1` for the conditions under which it is refused.
    pub fn basis_H1<'a>(
        &'a self,
        topo: ElemTopology,
        ncomp: usize,
        nnodes: usize,
        nqpts: usize,
        interp: &Vec<u64>,
        grad: &Vec<u64>,
        qref: &Vec<u64>,
        qweight: &Vec<u64>,
    ) -> (r: Result<Basis<'a>, Error>)
        ensures
            !crate::basis::general_shapes_ok(
                topo.spec_dimension(),
                nnodes,
                nqpts,
                interp@.len(),
                grad@.len(),
                qref@.len(),
                qweight@.len(),
            ) ==> r == Err::<Basis<'a>, Error>(Error::ShapeMismatch),
            crate::basis::general_shapes_ok(
                topo.spec_dimension(),
                nnodes,
                nqpts,
                interp@.len(),
                grad@.len(),
                qref@.len(),
                qweight@.len(),
            ) ==> (r matches Ok(b) && b@.dim == topo.spec_dimension() && b@.ncomp == ncomp
                && b@.nnodes == nnodes && b@.nqpts == nqpts && b@.interp == interp@ && b@.grad
                == grad@ && b@.qref == qref@ && b@.qweight == qweight@ && b@.qmode
                == QuadMode::Gauss && b@.topo == topo && b@.kind
                == crate::basis::BasisKind::General),
    {
        Basis::create_H1(self, topo, ncomp, nnodes, nqpts, interp, grad, qref, qweight)
    }

    /// A pointwise function resolved by its well-known name in the
    /// built-in library; an unknown name is refused.
    pub fn q_function_interior_by_name<'a>(&'a self, name: String) -> (r: Result<
        QFunction<'a>,
        Error,
    >)
        ensures
            crate::qfunction::gallery_fields(name@) is None ==> r == Err::<QFunction<'a>, Error>(
                Error::UnknownFunctionName,
            ),
            crate::qfunction::gallery_fields(name@) matches Some(f) ==> (r matches Ok(qf)
                && qf@.name == name@ && qf@.inputs == f.0 && qf@.outputs == f.1 && qf@.kind
                == crate::qfunction::QFunctionKind::Named),
    {
        QFunction::create_by_name(self, name)
    }

    /// An empty context blob for a pointwise function's user data.
    pub fn q_function_context<'a>(&'a self) -> (c: QFunctionContext<'a>)
        ensures
            c@.data == Seq::<u8>::empty(),
            c@.owner == crate::vector::BufferOwner::Wrapper,
    {
        QFunctionContext::create(self)
    }

    /// An operator over a pointwise function; `dqf` and `dqft` give the
    /// actions of its Jacobian and transposed Jacobian, each the "no
    /// function" sentinel where not wanted.
    pub fn operator<'a>(
        &'a self,
        qf: &QFunction<'a>,
        dqf: &QFunction<'a>,
        dqft: &QFunction<'a>,
    ) -> (op: Operator<'a>)
        ensures
            op@.qf == qf@,
            op@.dqf == dqf@,
            op@.dqft == dqft@,
            op@.fields == Seq::<crate::operator::FieldBindingView>::empty(),
    {
        Operator::create(self, qf, dqf, dqft)
    }

    /// An operator that composes the action of several operators.
    pub fn composite_operator<'a>(&'a self) -> (op: CompositeOperator<'a>)
        ensures
            op@ == Seq::<crate::operator::OperatorView>::empty(),
    {
        CompositeOperator::create(self)
    }
}

/// The process-wide "no vector" sentinel. Any two calls give the same
/// value, and nothing in the verified interface can alter it.
pub fn vector_none() -> (v: Vector<'static>)
    ensures
        v@ == crate::vector::sentinel_none_view(),
{
    Vector::sentinel_none()
}

/// The process-wide "active vector" sentinel: stands for "this field is
/// the operator's own input or output". Any two calls give the same
/// value, and nothing in the verified interface can alter it.
pub fn vector_active() -> (v: Vector<'static>)
    ensures
        v@ == crate::vector::sentinel_active_view(),
{
    Vector::sentinel_active()
}

/// The process-wide "no restriction" sentinel.
pub fn elem_restriction_none() -> (er: ElemRestriction<'static>)
    ensures
        er@ == crate::elem_restriction::sentinel_none_view(),
{
    ElemRestriction::sentinel_none()
}

/// The process-wide "collocated basis" sentinel.
pub fn basis_collocated() -> (b: Basis<'static>)
    ensures
        b@ == crate::basis::sentinel_collocated_view(),
{
    Basis::sentinel_collocated()
}

/// The process-wide "no function" sentinel.
pub fn qfunction_none() -> (qf: QFunction<'static>)
    ensures
        qf@ == crate::qfunction::sentinel_none_view(),
{
    QFunction::sentinel_none()
}

} // verus!
