//! Connectivity maps: how a batch of elements' local nodes index into a
//! global numeric container, either through an explicit offset table or
//! through a strided description of a regular layout. Construction
//! validates the cheap shape and range conditions, since the backend on
//! the other side of the boundary performs no defensive checking.

use core::marker::PhantomData;

use vstd::prelude::*;
use vstd::slice::slice_to_vec;

use crate::vector::{resolve_owner, spec_resolve_owner, BufferOwner};
use crate::{Ceed, CopyMode, Error, MemType};

verus! {

/// Which construction form a connectivity map came from, or whether it is
/// the process-wide "no restriction" sentinel.
#[derive(Clone, Copy, PartialEq, Eq, Structural, Debug)]
pub enum RestrictionKind {
    Offsets,
    Strided,
    SentinelNone,
}

/// The abstract state of a connectivity map.
pub ghost struct ElemRestrictionView {
    pub nelem: usize,
    pub elemsize: usize,
    pub ncomp: usize,
    pub compstride: usize,
    pub lsize: usize,
    pub offsets: Seq<i32>,
    pub strides: Seq<i32>,
    /// Who owns the offset table's memory after construction.
    pub owner: BufferOwner,
    pub kind: RestrictionKind,
}

/// The offset table must have exactly one entry per (element, local node)
/// pair.
pub open spec fn offsets_shape_ok(nelem: usize, elemsize: usize, table_len: nat) -> bool {
    nelem as int * elemsize as int == table_len
}

/// Every offset must point into the global container.
pub open spec fn offsets_in_range(offsets: Seq<i32>, lsize: usize) -> bool {
    forall|j: int|
        0 <= j < offsets.len() ==> 0 <= (#[trigger] offsets[j]) as int && (offsets[j] as int) < (
        lsize as int)
}

/// A strided layout is in range when the largest index it can form —
/// last local node of the last component of the last element — lies in
/// the global container; with no elements, nodes or components there is
/// no index to form.
pub open spec fn strided_in_range(
    nelem: usize,
    elemsize: usize,
    ncomp: usize,
    lsize: usize,
    strides: Seq<i32>,
) -> bool {
    if nelem == 0 || elemsize == 0 || ncomp == 0 {
        true
    } else {
        &&& 0 <= strides[0]
        &&& 0 <= strides[1]
        &&& 0 <= strides[2]
        &&& (elemsize as int - 1) * (strides[0] as int) + (ncomp as int - 1) * (strides[1] as int)
            + (nelem as int - 1) * (strides[2] as int) < lsize as int
    }
}

/// The well-formedness a successful construction establishes: the shape
/// and range conditions of the form the map was built in.
pub open spec fn wf(v: ElemRestrictionView) -> bool {
    match v.kind {
        RestrictionKind::Offsets => offsets_shape_ok(v.nelem, v.elemsize, v.offsets.len())
            && offsets_in_range(v.offsets, v.lsize),
        RestrictionKind::Strided => strided_in_range(
            v.nelem,
            v.elemsize,
            v.ncomp,
            v.lsize,
            v.strides,
        ) && v.strides.len() == 3,
        RestrictionKind::SentinelNone => true,
    }
}

/// An element-to-global-index map for `nelem` elements of `elemsize`
/// local nodes and `ncomp` components each, into a container of `lsize`
/// entries.
pub struct ElemRestriction<'a> {
    nelem: usize,
    elemsize: usize,
    ncomp: usize,
    compstride: usize,
    lsize: usize,
    offsets: Vec<i32>,
    strides: [i32; 3],
    owner: BufferOwner,
    kind: RestrictionKind,
    ceed: PhantomData<&'a Ceed>,
}

impl<'a> View for ElemRestriction<'a> {
    type V = ElemRestrictionView;

    closed spec fn view(&self) -> ElemRestrictionView {
        ElemRestrictionView {
            nelem: self.nelem,
            elemsize: self.elemsize,
            ncomp: self.ncomp,
            compstride: self.compstride,
            lsize: self.lsize,
            offsets: self.offsets@,
            strides: self.strides@,
            owner: self.owner,
            kind: self.kind,
        }
    }
}

impl<'a> ElemRestriction<'a> {
    /// Build from an explicit offset table of shape `[nelem, elemsize]`.
    /// Refused with a shape condition when the table's length is not
    /// `nelem * elemsize`, and with a range condition when an offset
    /// points outside a container of `lsize` entries.
    pub fn create(
        ceed: &'a Ceed,
        nelem: usize,
        elemsize: usize,
        ncomp: usize,
        compstride: usize,
        lsize: usize,
        mtype: MemType,
        cmode: CopyMode,
        offsets: &Vec<i32>,
    ) -> (r: Result<ElemRestriction<'a>, Error>)
        ensures
            !offsets_shape_ok(nelem, elemsize, offsets@.len()) ==> r == Err::<
                ElemRestriction<'a>,
                Error,
            >(Error::ShapeMismatch),
            offsets_shape_ok(nelem, elemsize, offsets@.len()) && !offsets_in_range(
                offsets@,
                lsize,
            ) ==> r == Err::<ElemRestriction<'a>, Error>(Error::OffsetOutOfRange),
            offsets_shape_ok(nelem, elemsize, offsets@.len()) && offsets_in_range(
                offsets@,
                lsize,
            ) ==> (r matches Ok(er) && er@.nelem == nelem && er@.elemsize == elemsize && er@.ncomp
                == ncomp && er@.compstride == compstride && er@.lsize == lsize && er@.offsets
                == offsets@ && er@.owner == spec_resolve_owner(cmode) && er@.kind
                == RestrictionKind::Offsets && wf(er@)),
    {
        let _ = mtype;
        let table_len = offsets.len();
        match nelem.checked_mul(elemsize) {
            Some(p) => {
                if p != table_len {
                    return Err(Error::ShapeMismatch);
                }
            },
            None => {
                return Err(Error::ShapeMismatch);
            },
        }
        proof {
            assert(offsets_shape_ok(nelem, elemsize, offsets@.len()));
        }
        let mut j: usize = 0;
        while j < table_len
            invariant
                j <= table_len,
                table_len == offsets@.len(),
                offsets_shape_ok(nelem, elemsize, offsets@.len()),
                forall|k: int|
                    0 <= k < j ==> 0 <= (#[trigger] offsets@[k]) as int && (offsets@[k] as int) < (
                    lsize as int),
            decreases table_len - j,
        {
            let o = offsets[j];
            if o < 0 || o as usize >= lsize {
                return Err(Error::OffsetOutOfRange);
            }
            j += 1;
        }
        Ok(
            ElemRestriction {
                nelem,
                elemsize,
                ncomp,
                compstride,
                lsize,
                offsets: slice_to_vec(offsets.as_slice()),
                strides: [0i32; 3],
                owner: resolve_owner(cmode),
                kind: RestrictionKind::Offsets,
                ceed: PhantomData,
            },
        )
    }

    /// Build a strided description of a regular, non-overlapping layout:
    /// local node `i` of component `j` of element `k` lives at global
    /// index `i * strides[0] + j * strides[1] + k * strides[2]`. Refused
    /// with a range condition when the largest such index does not lie
    /// in a container of `lsize` entries.
    pub fn create_strided(
        ceed: &'a Ceed,
        nelem: usize,
        elemsize: usize,
        ncomp: usize,
        lsize: usize,
        strides: [i32; 3],
    ) -> (r: Result<ElemRestriction<'a>, Error>)
        ensures
            !strided_in_range(nelem, elemsize, ncomp, lsize, strides@) ==> r == Err::<
                ElemRestriction<'a>,
                Error,
            >(Error::OffsetOutOfRange),
            strided_in_range(nelem, elemsize, ncomp, lsize, strides@) ==> (r matches Ok(er)
                && er@.nelem == nelem && er@.elemsize == elemsize && er@.ncomp == ncomp
                && er@.compstride == 0 && er@.lsize == lsize && er@.strides == strides@ && er@.kind
                == RestrictionKind::Strided && er@.owner == BufferOwner::Wrapper && wf(er@)),
    {
        if nelem != 0 && elemsize != 0 && ncomp != 0 {
            if strides[0] < 0 || strides[1] < 0 || strides[2] < 0 {
                return Err(Error::OffsetOutOfRange);
            }
            let s0 = strides[0] as u128;
            let s1 = strides[1] as u128;
            let s2 = strides[2] as u128;
            let node_count = elemsize as u128;
            let comp_count = ncomp as u128;
            let elem_count = nelem as u128;
            proof {
                lemma_stride_term_bound(node_count, s0);
                lemma_stride_term_bound(comp_count, s1);
                lemma_stride_term_bound(elem_count, s2);
            }
            let max_index: u128 = (node_count - 1) * s0 + (comp_count - 1) * s1 + (elem_count - 1)
                * s2;
            if max_index >= lsize as u128 {
                return Err(Error::OffsetOutOfRange);
            }
        }
        Ok(
            ElemRestriction {
                nelem,
                elemsize,
                ncomp,
                compstride: 0,
                lsize,
                offsets: Vec::new(),
                strides,
                owner: BufferOwner::Wrapper,
                kind: RestrictionKind::Strided,
                ceed: PhantomData,
            },
        )
    }

    /// The offset-table entry for local node `node` of element `elem`.
    /// Construction guarantees it points inside the global container.
    pub fn offset_at(&self, elem: usize, node: usize) -> (o: i32)
        requires
            wf(self@),
            self@.kind == RestrictionKind::Offsets,
            elem < self@.nelem,
            node < self@.elemsize,
        ensures
            o == self@.offsets[elem as int * self@.elemsize as int + node as int],
            0 <= (o as int) && (o as int) < (self@.lsize as int),
    {
        let table_len = self.offsets.len();
        proof {
            let es = self@.elemsize as int;
            let ne = self@.nelem as int;
            let e = elem as int;
            let nd = node as int;
            assert(e * es + nd < ne * es) by (nonlinear_arith)
                requires
                    e < ne,
                    nd < es,
                    0 <= e,
                    0 <= nd,
                    0 <= es,
            ;
            assert(0 <= e * es) by (nonlinear_arith)
                requires
                    0 <= e,
                    0 <= es,
            ;
            assert(ne * es == table_len as int);
        }
        let idx = elem * self.elemsize + node;
        self.offsets[idx]
    }

    /// The global index for local node `node` of component `comp` of
    /// element `elem` of a strided map. Construction guarantees it lies
    /// inside the global container — the point of the range check.
    pub fn strided_index(&self, node: usize, comp: usize, elem: usize) -> (g: usize)
        requires
            wf(self@),
            self@.kind == RestrictionKind::Strided,
            node < self@.elemsize,
            comp < self@.ncomp,
            elem < self@.nelem,
        ensures
            g as int == (node as int) * (self@.strides[0] as int) + (comp as int) * (
            self@.strides[1] as int) + (elem as int) * (self@.strides[2] as int),
            g < self@.lsize,
    {
        proof {
            let s0 = self@.strides[0] as int;
            let s1 = self@.strides[1] as int;
            let s2 = self@.strides[2] as int;
            let es = self@.elemsize as int;
            let nc = self@.ncomp as int;
            let ne = self@.nelem as int;
            let nd = node as int;
            let cp = comp as int;
            let e = elem as int;
            assert(nd * s0 <= (es - 1) * s0) by (nonlinear_arith)
                requires
                    nd <= es - 1,
                    0 <= s0,
            ;
            assert(cp * s1 <= (nc - 1) * s1) by (nonlinear_arith)
                requires
                    cp <= nc - 1,
                    0 <= s1,
            ;
            assert(e * s2 <= (ne - 1) * s2) by (nonlinear_arith)
                requires
                    e <= ne - 1,
                    0 <= s2,
            ;
            assert(0 <= nd * s0) by (nonlinear_arith)
                requires
                    0 <= nd,
                    0 <= s0,
            ;
            assert(0 <= cp * s1) by (nonlinear_arith)
                requires
                    0 <= cp,
                    0 <= s1,
            ;
            assert(0 <= e * s2) by (nonlinear_arith)
                requires
                    0 <= e,
                    0 <= s2,
            ;
        }
        node * (self.strides[0] as usize) + comp * (self.strides[1] as usize) + elem
            * (self.strides[2] as usize)
    }

    pub fn num_elements(&self) -> (n: usize)
        ensures
            n == self@.nelem,
    {
        self.nelem
    }

    pub fn elem_size(&self) -> (n: usize)
        ensures
            n == self@.elemsize,
    {
        self.elemsize
    }

    pub fn num_components(&self) -> (n: usize)
        ensures
            n == self@.ncomp,
    {
        self.ncomp
    }

    pub fn comp_stride(&self) -> (n: usize)
        ensures
            n == self@.compstride,
    {
        self.compstride
    }

    /// The size of the global container this map indexes into.
    pub fn l_size(&self) -> (n: usize)
        ensures
            n == self@.lsize,
    {
        self.lsize
    }

    /// Who owns the offset table's memory.
    pub fn offsets_owner(&self) -> (o: BufferOwner)
        ensures
            o == self@.owner,
    {
        self.owner
    }

    pub fn kind(&self) -> (k: RestrictionKind)
        ensures
            k == self@.kind,
    {
        self.kind
    }

    pub fn is_sentinel(&self) -> (b: bool)
        ensures
            b == (self@.kind == RestrictionKind::SentinelNone),
    {
        self.kind == RestrictionKind::SentinelNone
    }

    /// The process-wide "no restriction" sentinel: carries no map at all
    /// and is never destroyed. Used where a field has no element
    /// structure.
    pub fn sentinel_none() -> (er: ElemRestriction<'static>)
        ensures
            er@ == sentinel_none_view(),
    {
        let er = ElemRestriction {
            nelem: 0,
            elemsize: 0,
            ncomp: 0,
            compstride: 0,
            lsize: 0,
            offsets: Vec::new(),
            strides: [0i32; 3],
            owner: BufferOwner::Wrapper,
            kind: RestrictionKind::SentinelNone,
            ceed: PhantomData,
        };
        proof {
            assert(er@.offsets =~= Seq::<i32>::empty());
            assert(er@.strides =~= Seq::new(3, |i: int| 0i32));
        }
        er
    }
}

/// The state the "no restriction" sentinel is in: no elements, no map,
/// forever.
pub open spec fn sentinel_none_view() -> ElemRestrictionView {
    ElemRestrictionView {
        nelem: 0,
        elemsize: 0,
        ncomp: 0,
        compstride: 0,
        lsize: 0,
        offsets: Seq::empty(),
        strides: Seq::new(3, |i: int| 0i32),
        owner: BufferOwner::Wrapper,
        kind: RestrictionKind::SentinelNone,
    }
}

/// With `count >= 1` elements and a nonnegative stride bounded by the
/// stride type, one term of a strided layout's largest index stays far
/// inside the wide integers the range check is done in.
proof fn lemma_stride_term_bound(count: u128, s: u128)
    requires
        1 <= count <= 0xffff_ffff_ffff_ffff,
        s <= 0x8000_0000,
    ensures
        (count - 1) * s <= 0xffff_ffff_ffff_ffff * 0x8000_0000,
{
    assert((count - 1) * s <= 0xffff_ffff_ffff_ffff * 0x8000_0000) by (nonlinear_arith)
        requires
            1 <= count <= 0xffff_ffff_ffff_ffff,
            s <= 0x8000_0000,
    ;
}

} // verus!
