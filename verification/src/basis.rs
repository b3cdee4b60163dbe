//! Local function spaces with their quadrature rules. A basis carries
//! counts (dimension, components, nodes, quadrature points) and, for the
//! explicitly constructed forms, the flat row-major coefficient tables
//! whose shapes must be mutually consistent. The table entries are
//! opaque scalar words passed through unchanged; only the shapes are
//! this layer's business.

use core::marker::PhantomData;

use vstd::arithmetic::power::{lemma_pow_increases, pow};
use vstd::prelude::*;
use vstd::slice::slice_to_vec;

use crate::{Ceed, ElemTopology, Error, QuadMode};

verus! {

/// Which construction form a basis came from, or whether it is the
/// process-wide "collocated" sentinel (nodes and quadrature points
/// coincide; no tables at all).
#[derive(Clone, Copy, PartialEq, Eq, Structural, Debug)]
pub enum BasisKind {
    /// Tensor product of explicit one-dimensional tables.
    Tensor,
    /// Tensor-product Lagrange basis whose tables the backend generates
    /// from the counts and the quadrature mode.
    TensorLagrange,
    /// Fully explicit tables on an arbitrary element topology.
    General,
    SentinelCollocated,
}

/// The abstract state of a basis.
pub ghost struct BasisView {
    pub dim: usize,
    pub ncomp: usize,
    pub nnodes: usize,
    pub nqpts: usize,
    pub interp: Seq<u64>,
    pub grad: Seq<u64>,
    pub qref: Seq<u64>,
    pub qweight: Seq<u64>,
    pub qmode: QuadMode,
    pub topo: ElemTopology,
    pub kind: BasisKind,
}

/// Shape consistency of the one-dimensional tables of a tensor-product
/// basis with `p1d` nodes and `q1d` quadrature points per dimension.
pub open spec fn tensor_shapes_ok(
    p1d: usize,
    q1d: usize,
    interp_len: nat,
    grad_len: nat,
    qref_len: nat,
    qweight_len: nat,
) -> bool {
    &&& interp_len == q1d as int * p1d as int
    &&& grad_len == q1d as int * p1d as int
    &&& qref_len == q1d as int
    &&& qweight_len == q1d as int
}

/// Shape consistency of the tables of a fully explicit basis on a
/// `dim`-dimensional topology with `nnodes` nodes and `nqpts` quadrature
/// points.
pub open spec fn general_shapes_ok(
    dim: usize,
    nnodes: usize,
    nqpts: usize,
    interp_len: nat,
    grad_len: nat,
    qref_len: nat,
    qweight_len: nat,
) -> bool {
    &&& interp_len == nqpts as int * nnodes as int
    &&& grad_len == nqpts as int * dim as int * nnodes as int
    &&& qref_len == nqpts as int * dim as int
    &&& qweight_len == nqpts as int
}

/// A local function space plus quadrature rule.
pub struct Basis<'a> {
    dim: usize,
    ncomp: usize,
    nnodes: usize,
    nqpts: usize,
    interp: Vec<u64>,
    grad: Vec<u64>,
    qref: Vec<u64>,
    qweight: Vec<u64>,
    qmode: QuadMode,
    topo: ElemTopology,
    kind: BasisKind,
    ceed: PhantomData<&'a Ceed>,
}

impl<'a> View for Basis<'a> {
    type V = BasisView;

    closed spec fn view(&self) -> BasisView {
        BasisView {
            dim: self.dim,
            ncomp: self.ncomp,
            nnodes: self.nnodes,
            nqpts: self.nqpts,
            interp: self.interp@,
            grad: self.grad@,
            qref: self.qref@,
            qweight: self.qweight@,
            qmode: self.qmode,
            topo: self.topo,
            kind: self.kind,
        }
    }
}

/// `base` raised to `exp`, when that count fits the address space.
fn checked_pow(base: usize, exp: usize) -> (r: Option<usize>)
    ensures
        r matches Some(v) ==> v == pow(base as int, exp as nat),
        r is None ==> pow(base as int, exp as nat) > usize::MAX,
{
    let mut acc: usize = 1;
    let mut i: usize = 0;
    proof {
        reveal(pow);
        assert(pow(base as int, 0) == 1);
    }
    while i < exp
        invariant
            i <= exp,
            acc == pow(base as int, i as nat),
        decreases exp - i,
    {
        proof {
            reveal(pow);
            assert(pow(base as int, (i + 1) as nat) == base as int * pow(base as int, i as nat));
        }
        proof {
            assert(acc as int * base as int == base as int * acc as int) by (nonlinear_arith);
        }
        match acc.checked_mul(base) {
            Some(v) => {
                acc = v;
            },
            None => {
                proof {
                    assert(base > 0) by {
                        if base == 0 {
                            assert(acc as int * base as int == 0) by (nonlinear_arith)
                                requires
                                    base == 0usize,
                            ;
                        }
                    }
                    lemma_pow_increases(base as nat, (i + 1) as nat, exp as nat);
                }
                return None;
            },
        }
        i += 1;
    }
    Some(acc)
}

impl<'a> Basis<'a> {
    /// Build a tensor-product basis from explicit one-dimensional tables:
    /// `interp1d` and `grad1d` are row-major `q1d` by `p1d` matrices,
    /// `qref1d` and `qweight1d` have one entry per quadrature point.
    /// Refused with a shape condition when the dimension is zero or the
    /// table lengths disagree with the counts, and with an overflow
    /// condition when the tensor-product node or quadrature-point count
    /// does not fit the address space.
    pub fn create_tensor_H1(
        ceed: &'a Ceed,
        dim: usize,
        ncomp: usize,
        p1d: usize,
        q1d: usize,
        interp1d: &Vec<u64>,
        grad1d: &Vec<u64>,
        qref1d: &Vec<u64>,
        qweight1d: &Vec<u64>,
    ) -> (r: Result<Basis<'a>, Error>)
        ensures
            dim == 0 || !tensor_shapes_ok(
                p1d,
                q1d,
                interp1d@.len(),
                grad1d@.len(),
                qref1d@.len(),
                qweight1d@.len(),
            ) ==> r == Err::<Basis<'a>, Error>(Error::ShapeMismatch),
            dim >= 1 && tensor_shapes_ok(
                p1d,
                q1d,
                interp1d@.len(),
                grad1d@.len(),
                qref1d@.len(),
                qweight1d@.len(),
            ) && (pow(p1d as int, dim as nat) > usize::MAX || pow(q1d as int, dim as nat)
                > usize::MAX) ==> r == Err::<Basis<'a>, Error>(Error::SizeOverflow),
            dim >= 1 && tensor_shapes_ok(
                p1d,
                q1d,
                interp1d@.len(),
                grad1d@.len(),
                qref1d@.len(),
                qweight1d@.len(),
            ) && pow(p1d as int, dim as nat) <= usize::MAX && pow(q1d as int, dim as nat)
                <= usize::MAX ==> (r matches Ok(b) && b@.dim == dim && b@.ncomp == ncomp && b@.nnodes
                == pow(p1d as int, dim as nat) && b@.nqpts == pow(q1d as int, dim as nat)
                && b@.interp == interp1d@ && b@.grad == grad1d@ && b@.qref == qref1d@ && b@.qweight
                == qweight1d@ && b@.qmode == QuadMode::Gauss && b@.topo == ElemTopology::Line
                && b@.kind == BasisKind::Tensor),
    {
        if dim == 0 {
            return Err(Error::ShapeMismatch);
        }
        if !tensor_tables_match(p1d, q1d, interp1d, grad1d, qref1d, qweight1d) {
            return Err(Error::ShapeMismatch);
        }
        let nnodes = match checked_pow(p1d, dim) {
            Some(v) => v,
            None => {
                return Err(Error::SizeOverflow);
            },
        };
        let nqpts = match checked_pow(q1d, dim) {
            Some(v) => v,
            None => {
                return Err(Error::SizeOverflow);
            },
        };
        Ok(
            Basis {
                dim,
                ncomp,
                nnodes,
                nqpts,
                interp: slice_to_vec(interp1d.as_slice()),
                grad: slice_to_vec(grad1d.as_slice()),
                qref: slice_to_vec(qref1d.as_slice()),
                qweight: slice_to_vec(qweight1d.as_slice()),
                qmode: QuadMode::Gauss,
                topo: ElemTopology::Line,
                kind: BasisKind::Tensor,
                ceed: PhantomData,
            },
        )
    }

    /// Build a tensor-product Lagrange basis purely from counts and the
    /// quadrature mode; the coefficient tables are the backend's own
    /// generated Gauss or Gauss-Lobatto data and are not carried here.
    /// Refused with a shape condition when any count is zero, and with
    /// an overflow condition when a tensor-product count does not fit
    /// the address space.
    pub fn create_tensor_H1_Lagrange(
        ceed: &'a Ceed,
        dim: usize,
        ncomp: usize,
        p: usize,
        q: usize,
        qmode: QuadMode,
    ) -> (r: Result<Basis<'a>, Error>)
        ensures
            dim == 0 || p == 0 || q == 0 ==> r == Err::<Basis<'a>, Error>(Error::ShapeMismatch),
            dim >= 1 && p >= 1 && q >= 1 && (pow(p as int, dim as nat) > usize::MAX || pow(
                q as int,
                dim as nat,
            ) > usize::MAX) ==> r == Err::<Basis<'a>, Error>(Error::SizeOverflow),
            dim >= 1 && p >= 1 && q >= 1 && pow(p as int, dim as nat) <= usize::MAX && pow(
                q as int,
                dim as nat,
            ) <= usize::MAX ==> (r matches Ok(b) && b@.dim == dim && b@.ncomp == ncomp && b@.nnodes
                == pow(p as int, dim as nat) && b@.nqpts == pow(q as int, dim as nat) && b@.interp
                == Seq::<u64>::empty() && b@.grad == Seq::<u64>::empty() && b@.qref == Seq::<
                u64,
            >::empty() && b@.qweight == Seq::<u64>::empty() && b@.qmode == qmode && b@.topo
                == ElemTopology::Line && b@.kind == BasisKind::TensorLagrange),
    {
        if dim == 0 || p == 0 || q == 0 {
            return Err(Error::ShapeMismatch);
        }
        let nnodes = match checked_pow(p, dim) {
            Some(v) => v,
            None => {
                return Err(Error::SizeOverflow);
            },
        };
        let nqpts = match checked_pow(q, dim) {
            Some(v) => v,
            None => {
                return Err(Error::SizeOverflow);
            },
        };
        let b = Basis {
            dim,
            ncomp,
            nnodes,
            nqpts,
            interp: Vec::new(),
            grad: Vec::new(),
            qref: Vec::new(),
            qweight: Vec::new(),
            qmode,
            topo: ElemTopology::Line,
            kind: BasisKind::TensorLagrange,
            ceed: PhantomData,
        };
        proof {
            assert(b@.interp =~= Seq::<u64>::empty());
            assert(b@.grad =~= Seq::<u64>::empty());
            assert(b@.qref =~= Seq::<u64>::empty());
            assert(b@.qweight =~= Seq::<u64>::empty());
        }
        Ok(b)
    }

    /// Build a fully explicit basis on an arbitrary element topology:
    /// `interp` is row-major `nqpts` by `nnodes`, `grad` is `nqpts` by
    /// dimension by `nnodes`, `qref` holds one reference coordinate per
    /// dimension per quadrature point, and `qweight` one weight per
    /// quadrature point. Refused with a shape condition when the table
    /// lengths disagree with the counts.
    pub fn create_H1(
        ceed: &'a Ceed,
        topo: ElemTopology,
        ncomp: usize,
        nnodes: usize,
        nqpts: usize,
        interp: &Vec<u64>,
        grad: &Vec<u64>,
        qref: &Vec<u64>,
        qweight: &Vec<u64>,
    ) -> (r: Result<Basis<'a>, Error>)
        ensures
            !general_shapes_ok(
                topo.spec_dimension(),
                nnodes,
                nqpts,
                interp@.len(),
                grad@.len(),
                qref@.len(),
                qweight@.len(),
            ) ==> r == Err::<Basis<'a>, Error>(Error::ShapeMismatch),
            general_shapes_ok(
                topo.spec_dimension(),
                nnodes,
                nqpts,
                interp@.len(),
                grad@.len(),
                qref@.len(),
                qweight@.len(),
            ) ==> (r matches Ok(b) && b@.dim == topo.spec_dimension() && b@.ncomp == ncomp
                && b@.nnodes == nnodes && b@.nqpts == nqpts && b@.interp == interp@ && b@.grad
                == grad@ && b@.qref == qref@ && b@.qweight == qweight@ && b@.qmode
                == QuadMode::Gauss && b@.topo == topo && b@.kind == BasisKind::General),
    {
        let dim = topo.dimension();
        let interp_len = interp.len();
        let grad_len = grad.len();
        let qref_len = qref.len();
        let qweight_len = qweight.len();
        proof {
            assert(nqpts as int * nnodes as int * dim as int == nqpts as int * dim as int
                * nnodes as int) by (nonlinear_arith);
        }
        let interp_wanted = match nqpts.checked_mul(nnodes) {
            Some(v) => v,
            None => {
                return Err(Error::ShapeMismatch);
            },
        };
        if interp_len != interp_wanted {
            return Err(Error::ShapeMismatch);
        }
        let grad_wanted = match interp_wanted.checked_mul(dim) {
            Some(v) => v,
            None => {
                return Err(Error::ShapeMismatch);
            },
        };
        if grad_len != grad_wanted {
            return Err(Error::ShapeMismatch);
        }
        let qref_wanted = match nqpts.checked_mul(dim) {
            Some(v) => v,
            None => {
                return Err(Error::ShapeMismatch);
            },
        };
        if qref_len != qref_wanted || qweight_len != nqpts {
            return Err(Error::ShapeMismatch);
        }
        Ok(
            Basis {
                dim,
                ncomp,
                nnodes,
                nqpts,
                interp: slice_to_vec(interp.as_slice()),
                grad: slice_to_vec(grad.as_slice()),
                qref: slice_to_vec(qref.as_slice()),
                qweight: slice_to_vec(qweight.as_slice()),
                qmode: QuadMode::Gauss,
                topo,
                kind: BasisKind::General,
                ceed: PhantomData,
            },
        )
    }

    pub fn dimension(&self) -> (n: usize)
        ensures
            n == self@.dim,
    {
        self.dim
    }

    pub fn num_components(&self) -> (n: usize)
        ensures
            n == self@.ncomp,
    {
        self.ncomp
    }

    pub fn num_nodes(&self) -> (n: usize)
        ensures
            n == self@.nnodes,
    {
        self.nnodes
    }

    pub fn num_quadrature_points(&self) -> (n: usize)
        ensures
            n == self@.nqpts,
    {
        self.nqpts
    }

    pub fn kind(&self) -> (k: BasisKind)
        ensures
            k == self@.kind,
    {
        self.kind
    }

    pub fn is_sentinel(&self) -> (b: bool)
        ensures
            b == (self@.kind == BasisKind::SentinelCollocated),
    {
        self.kind == BasisKind::SentinelCollocated
    }

    /// The process-wide "collocated" sentinel basis: nodes and quadrature
    /// points coincide, so it needs no tables; it carries no mutable
    /// state and is never destroyed.
    pub fn sentinel_collocated() -> (b: Basis<'static>)
        ensures
            b@ == sentinel_collocated_view(),
    {
        let b = Basis {
            dim: 0,
            ncomp: 0,
            nnodes: 0,
            nqpts: 0,
            interp: Vec::new(),
            grad: Vec::new(),
            qref: Vec::new(),
            qweight: Vec::new(),
            qmode: QuadMode::Gauss,
            topo: ElemTopology::Line,
            kind: BasisKind::SentinelCollocated,
            ceed: PhantomData,
        };
        proof {
            assert(b@.interp =~= Seq::<u64>::empty());
            assert(b@.grad =~= Seq::<u64>::empty());
            assert(b@.qref =~= Seq::<u64>::empty());
            assert(b@.qweight =~= Seq::<u64>::empty());
        }
        b
    }
}

/// The state the "collocated" sentinel basis is in: no counts, no
/// tables, forever.
pub open spec fn sentinel_collocated_view() -> BasisView {
    BasisView {
        dim: 0,
        ncomp: 0,
        nnodes: 0,
        nqpts: 0,
        interp: Seq::empty(),
        grad: Seq::empty(),
        qref: Seq::empty(),
        qweight: Seq::empty(),
        qmode: QuadMode::Gauss,
        topo: ElemTopology::Line,
        kind: BasisKind::SentinelCollocated,
    }
}

/// Whether the one-dimensional tables have the lengths the counts call
/// for.
fn tensor_tables_match(
    p1d: usize,
    q1d: usize,
    interp1d: &Vec<u64>,
    grad1d: &Vec<u64>,
    qref1d: &Vec<u64>,
    qweight1d: &Vec<u64>,
) -> (b: bool)
    ensures
        b == tensor_shapes_ok(
            p1d,
            q1d,
            interp1d@.len(),
            grad1d@.len(),
            qref1d@.len(),
            qweight1d@.len(),
        ),
{
    let interp_len = interp1d.len();
    let grad_len = grad1d.len();
    let qref_len = qref1d.len();
    let qweight_len = qweight1d.len();
    let wanted = match q1d.checked_mul(p1d) {
        Some(v) => v,
        None => {
            return false;
        },
    };
    interp_len == wanted && grad_len == wanted && qref_len == q1d && qweight_len == q1d
}

} // verus!
