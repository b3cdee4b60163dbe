//! Numeric containers and the borrowed-array tracker.
//!
//! A container holds a fixed number of opaque 64-bit scalar words. Its
//! backing buffer can be lent out as a directly addressable handle; while
//! that borrow is outstanding every mutating operation, every read that
//! needs a consistent buffer, and every further borrow is refused, and the
//! buffer is reconciled exactly when the handle is returned.

use core::marker::PhantomData;

use vstd::prelude::*;
use vstd::slice::slice_to_vec;

use crate::{Ceed, CopyMode, Error, MemType, NormType};

verus! {

/// Mask clearing the sign bit of a scalar word: the word of the scalar's
/// magnitude. For the binary64 encoding, magnitude order of scalars is
/// the unsigned order of these masked words.
pub const ABS_MASK: u64 = 0x7fff_ffff_ffff_ffff;

/// What a container value stands for: an ordinary container, or one of
/// the two process-wide sentinels ("no vector", "active vector"), which
/// carry no mutable state and are never destroyed.
#[derive(Clone, Copy, PartialEq, Eq, Structural, Debug)]
pub enum VectorKind {
    Concrete,
    SentinelNone,
    SentinelActive,
}

/// Who is responsible for the container's backing memory after the most
/// recent buffer transfer.
#[derive(Clone, Copy, PartialEq, Eq, Structural, Debug)]
pub enum BufferOwner {
    /// This layer owns its own copy and frees it itself.
    Wrapper,
    /// The caller's memory is used in place; the caller keeps it alive
    /// and frees it.
    Caller,
    /// Ownership was transferred across the boundary; the receiving side
    /// alone frees it, and this layer has dropped its claim.
    Backend,
}

/// The ownership-mode resolver: the owner that each data-transfer
/// contract leaves responsible for the buffer.
pub open spec fn spec_resolve_owner(cmode: CopyMode) -> BufferOwner {
    match cmode {
        CopyMode::CopyValues => BufferOwner::Wrapper,
        CopyMode::UsePointer => BufferOwner::Caller,
        CopyMode::OwnPointer => BufferOwner::Backend,
    }
}

/// Executable form of the ownership-mode resolver. A copy leaves the
/// wrapper with its own independent buffer; a borrow leaves the memory
/// the caller's; a transfer obliges the wrapper to suppress its own
/// deallocation, since the receiving side will free the buffer.
pub fn resolve_owner(cmode: CopyMode) -> (o: BufferOwner)
    ensures
        o == spec_resolve_owner(cmode),
{
    match cmode {
        CopyMode::CopyValues => BufferOwner::Wrapper,
        CopyMode::UsePointer => BufferOwner::Caller,
        CopyMode::OwnPointer => BufferOwner::Backend,
    }
}

/// The abstract state of a container.
pub ghost struct VectorView {
    pub entries: Seq<u64>,
    pub borrowed: bool,
    pub owner: BufferOwner,
    pub kind: VectorKind,
}

/// The state a container created from a data slice is in.
pub open spec fn from_slice_view(data: Seq<u64>) -> VectorView {
    VectorView {
        entries: data,
        borrowed: false,
        owner: BufferOwner::Wrapper,
        kind: VectorKind::Concrete,
    }
}

/// A borrow is granted: only a free container grants one, the handle
/// carries exactly the current entries, and the only state change is the
/// borrow record.
pub open spec fn borrow_granted(pre: VectorView, post: VectorView, lent: Seq<u64>) -> bool {
    &&& !pre.borrowed
    &&& lent == pre.entries
    &&& post == (VectorView { borrowed: true, ..pre })
}

/// A returned handle is accepted when a borrow is outstanding and the
/// handle can be the lent buffer (same length as the backing storage).
pub open spec fn can_restore(pre: VectorView, returned: Seq<u64>) -> bool {
    pre.borrowed && returned.len() == pre.entries.len()
}

/// A borrow is returned: the handle's contents become the backing
/// storage again and the borrow record is cleared.
pub open spec fn borrow_returned(pre: VectorView, returned: Seq<u64>, post: VectorView) -> bool {
    &&& can_restore(pre, returned)
    &&& post == (VectorView { entries: returned, borrowed: false, ..pre })
}

/// The word of the scalar's magnitude.
pub open spec fn abs_word(w: u64) -> u64 {
    w & ABS_MASK
}

/// The largest magnitude word among the entries; zero for an empty
/// container.
pub open spec fn max_abs_word(s: Seq<u64>) -> u64
    decreases s.len(),
{
    if s.len() == 0 {
        0
    } else {
        let m = max_abs_word(s.drop_last());
        if abs_word(s.last()) > m {
            abs_word(s.last())
        } else {
            m
        }
    }
}

/// A fixed-length sequence of scalar words backing one field's nodal
/// values. The lifetime ties the container to the context it was
/// created through: a handle cannot outlive its context.
pub struct Vector<'a> {
    entries: Vec<u64>,
    borrowed: bool,
    owner: BufferOwner,
    kind: VectorKind,
    ceed: PhantomData<&'a Ceed>,
}

impl<'a> View for Vector<'a> {
    type V = VectorView;

    closed spec fn view(&self) -> VectorView {
        VectorView {
            entries: self.entries@,
            borrowed: self.borrowed,
            owner: self.owner,
            kind: self.kind,
        }
    }
}

/// The directly addressable handle a container lends out. It is consumed
/// when it is returned, so a handle cannot be returned twice.
pub struct ArrayHandle {
    data: Vec<u64>,
}

impl View for ArrayHandle {
    type V = Seq<u64>;

    closed spec fn view(&self) -> Seq<u64> {
        self.data@
    }
}

impl ArrayHandle {
    pub fn len(&self) -> (n: usize)
        ensures
            n == self@.len(),
    {
        self.data.len()
    }

    pub fn at(&self, i: usize) -> (w: u64)
        requires
            i < self@.len(),
        ensures
            w == self@[i as int],
    {
        self.data[i]
    }

    pub fn set(&mut self, i: usize, w: u64)
        requires
            i < old(self)@.len(),
        ensures
            final(self)@ == old(self)@.update(i as int, w),
    {
        self.data.set(i, w);
    }
}

impl<'a> Vector<'a> {
    /// A container of `n` entries with unspecified initial contents: no
    /// zeroing is promised.
    pub fn create(ceed: &'a Ceed, n: usize) -> (v: Vector<'a>)
        ensures
            v@.entries.len() == n,
            !v@.borrowed,
            v@.owner == BufferOwner::Wrapper,
            v@.kind == VectorKind::Concrete,
    {
        let mut entries: Vec<u64> = Vec::new();
        while entries.len() < n
            invariant
                entries@.len() <= n,
            decreases n - entries@.len(),
        {
            entries.push(0);
        }
        Vector {
            entries,
            borrowed: false,
            owner: BufferOwner::Wrapper,
            kind: VectorKind::Concrete,
            ceed: PhantomData,
        }
    }

    /// A container wrapping an existing backing buffer: the buffer is
    /// adopted as the container's storage, not copied.
    pub fn new(ceed: &'a Ceed, entries: Vec<u64>) -> (v: Vector<'a>)
        ensures
            v@ == (VectorView {
                entries: entries@,
                borrowed: false,
                owner: BufferOwner::Wrapper,
                kind: VectorKind::Concrete,
            }),
    {
        Vector {
            entries,
            borrowed: false,
            owner: BufferOwner::Wrapper,
            kind: VectorKind::Concrete,
            ceed: PhantomData,
        }
    }

    /// A container created from and immediately populated with the given
    /// data, by copy: the caller's slice stays the caller's.
    pub fn from_slice(ceed: &'a Ceed, values: &[u64]) -> (v: Vector<'a>)
        ensures
            v@ == from_slice_view(values@),
    {
        Vector {
            entries: slice_to_vec(values),
            borrowed: false,
            owner: BufferOwner::Wrapper,
            kind: VectorKind::Concrete,
            ceed: PhantomData,
        }
    }

    /// The container's element count, constant for its whole life.
    pub fn length(&self) -> (n: usize)
        ensures
            n == self@.entries.len(),
    {
        self.entries.len()
    }

    pub fn len(&self) -> (n: usize)
        ensures
            n == self@.entries.len(),
    {
        self.length()
    }

    pub fn kind(&self) -> (k: VectorKind)
        ensures
            k == self@.kind,
    {
        self.kind
    }

    pub fn is_sentinel(&self) -> (b: bool)
        ensures
            b == (self@.kind != VectorKind::Concrete),
    {
        self.kind != VectorKind::Concrete
    }

    /// Whether the backing buffer is currently lent out.
    pub fn is_borrowed(&self) -> (b: bool)
        ensures
            b == self@.borrowed,
    {
        self.borrowed
    }

    /// Who currently owns the backing buffer.
    pub fn buffer_owner(&self) -> (o: BufferOwner)
        ensures
            o == self@.owner,
    {
        self.owner
    }

    /// Fill every entry with the same word. Refused while a borrow is
    /// outstanding; sentinels are immutable, so none can be given.
    pub fn set_value(&mut self, value: u64) -> (r: Result<(), Error>)
        requires
            old(self)@.kind == VectorKind::Concrete,
        ensures
            old(self)@.borrowed ==> r == Err::<(), Error>(Error::BorrowOutstanding)
                && final(self)@ == old(self)@,
            !old(self)@.borrowed ==> r == Ok::<(), Error>(()) && final(self)@ == (VectorView {
                entries: Seq::new(old(self)@.entries.len(), |i: int| value),
                ..old(self)@
            }),
    {
        if self.borrowed {
            return Err(Error::BorrowOutstanding);
        }
        let n = self.entries.len();
        let mut i: usize = 0;
        while i < n
            invariant
                i <= n,
                n == self@.entries.len(),
                self@.borrowed == old(self)@.borrowed,
                self@.owner == old(self)@.owner,
                self@.kind == old(self)@.kind,
                n == old(self)@.entries.len(),
                forall|j: int| 0 <= j < i ==> self@.entries[j] == value,
            decreases n - i,
        {
            self.entries.set(i, value);
            i += 1;
        }
        proof {
            assert(self@.entries =~= Seq::new(old(self)@.entries.len(), |i: int| value));
        }
        Ok(())
    }

    /// Populate from a slice of the container's exact length, by copy.
    /// Refused with a length-mismatch condition otherwise, and refused
    /// while a borrow is outstanding.
    pub fn set_slice(&mut self, values: &[u64]) -> (r: Result<(), Error>)
        requires
            old(self)@.kind == VectorKind::Concrete,
        ensures
            old(self)@.borrowed ==> r == Err::<(), Error>(Error::BorrowOutstanding)
                && final(self)@ == old(self)@,
            !old(self)@.borrowed && values@.len() != old(self)@.entries.len() ==> r == Err::<
                (),
                Error,
            >(Error::LengthMismatch) && final(self)@ == old(self)@,
            !old(self)@.borrowed && values@.len() == old(self)@.entries.len() ==> r == Ok::<
                (),
                Error,
            >(()) && final(self)@ == (VectorView {
                entries: values@,
                owner: BufferOwner::Wrapper,
                ..old(self)@
            }),
    {
        if self.borrowed {
            return Err(Error::BorrowOutstanding);
        }
        if values.len() != self.entries.len() {
            return Err(Error::LengthMismatch);
        }
        self.entries = slice_to_vec(values);
        self.owner = BufferOwner::Wrapper;
        Ok(())
    }

    /// Attach `buffer` as the backing storage under the given ownership
    /// mode, releasing whatever backing was attached before. The buffer
    /// must have the container's fixed length; the recorded owner
    /// afterward is what the ownership-mode resolver assigns to the mode.
    pub fn set_array(&mut self, mtype: MemType, cmode: CopyMode, buffer: Vec<u64>) -> (r: Result<
        (),
        Error,
    >)
        requires
            old(self)@.kind == VectorKind::Concrete,
        ensures
            old(self)@.borrowed ==> r == Err::<(), Error>(Error::BorrowOutstanding)
                && final(self)@ == old(self)@,
            !old(self)@.borrowed && buffer@.len() != old(self)@.entries.len() ==> r == Err::<
                (),
                Error,
            >(Error::LengthMismatch) && final(self)@ == old(self)@,
            !old(self)@.borrowed && buffer@.len() == old(self)@.entries.len() ==> r == Ok::<
                (),
                Error,
            >(()) && final(self)@ == (VectorView {
                entries: buffer@,
                owner: spec_resolve_owner(cmode),
                ..old(self)@
            }),
    {
        let _ = mtype;
        if self.borrowed {
            return Err(Error::BorrowOutstanding);
        }
        if buffer.len() != self.entries.len() {
            return Err(Error::LengthMismatch);
        }
        self.owner = resolve_owner(cmode);
        self.entries = buffer;
        Ok(())
    }

    /// Begin a borrow of the backing buffer. Refused while one is
    /// already outstanding; otherwise the handle carries exactly the
    /// current entries and the borrow is recorded.
    pub fn get_array(&mut self, mtype: MemType) -> (r: Result<ArrayHandle, Error>)
        requires
            old(self)@.kind == VectorKind::Concrete,
        ensures
            old(self)@.borrowed ==> r == Err::<ArrayHandle, Error>(Error::BorrowOutstanding)
                && final(self)@ == old(self)@,
            !old(self)@.borrowed ==> (r matches Ok(h) && borrow_granted(
                old(self)@,
                final(self)@,
                h@,
            )),
    {
        let _ = mtype;
        if self.borrowed {
            return Err(Error::BorrowOutstanding);
        }
        self.borrowed = true;
        Ok(ArrayHandle { data: slice_to_vec(self.entries.as_slice()) })
    }

    /// End the borrow by returning the handle, which reconciles the
    /// backing storage with the handle's contents. Refused when no
    /// borrow is outstanding, or when the handle cannot be the lent
    /// buffer because its length differs from the container's.
    pub fn restore_array(&mut self, handle: ArrayHandle) -> (r: Result<(), Error>)
        requires
            old(self)@.kind == VectorKind::Concrete,
        ensures
            !old(self)@.borrowed ==> r == Err::<(), Error>(Error::NoBorrowOutstanding)
                && final(self)@ == old(self)@,
            old(self)@.borrowed && handle@.len() != old(self)@.entries.len() ==> r == Err::<
                (),
                Error,
            >(Error::BorrowMismatch) && final(self)@ == old(self)@,
            can_restore(old(self)@, handle@) ==> r == Ok::<(), Error>(()) && borrow_returned(
                old(self)@,
                handle@,
                final(self)@,
            ),
    {
        if !self.borrowed {
            return Err(Error::NoBorrowOutstanding);
        }
        if handle.data.len() != self.entries.len() {
            return Err(Error::BorrowMismatch);
        }
        self.entries = handle.data;
        self.borrowed = false;
        Ok(())
    }

    /// Make the requested memory space's copy current. The model holds
    /// one coherent copy of the entries, so there is nothing to move and
    /// the container is unchanged.
    pub fn sync(&self, mtype: MemType) {
        let _ = mtype;
    }

    /// A norm of the container, as far as this layer can fold it: the
    /// max norm is the largest magnitude word, exactly; the one- and
    /// two-norms sum scalars, which is the compute backend's work, and
    /// are refused here. Like other reads that need a consistent buffer,
    /// a norm is refused while a borrow is outstanding.
    pub fn norm(&self, ntype: NormType) -> (r: Result<u64, Error>)
        ensures
            self@.borrowed ==> r == Err::<u64, Error>(Error::BorrowOutstanding),
            !self@.borrowed && ntype == NormType::Max ==> r == Ok::<u64, Error>(
                max_abs_word(self@.entries),
            ),
            !self@.borrowed && ntype != NormType::Max ==> r == Err::<u64, Error>(
                Error::UnsupportedNorm,
            ),
    {
        if self.borrowed {
            return Err(Error::BorrowOutstanding);
        }
        if ntype != NormType::Max {
            return Err(Error::UnsupportedNorm);
        }
        let n = self.entries.len();
        let mut m: u64 = 0;
        let mut i: usize = 0;
        while i < n
            invariant
                i <= n,
                n == self@.entries.len(),
                m == max_abs_word(self@.entries.take(i as int)),
            decreases n - i,
        {
            let w = self.entries[i] & ABS_MASK;
            proof {
                assert(self@.entries.take(i + 1).drop_last() =~= self@.entries.take(i as int));
            }
            if w > m {
                m = w;
            }
            i += 1;
        }
        proof {
            assert(self@.entries.take(n as int) =~= self@.entries);
        }
        Ok(m)
    }
}

/// The state the "no vector" sentinel is in: empty, free, forever.
pub open spec fn sentinel_none_view() -> VectorView {
    VectorView {
        entries: Seq::empty(),
        borrowed: false,
        owner: BufferOwner::Wrapper,
        kind: VectorKind::SentinelNone,
    }
}

/// The state the "active vector" sentinel is in: empty, free, forever.
pub open spec fn sentinel_active_view() -> VectorView {
    VectorView {
        entries: Seq::empty(),
        borrowed: false,
        owner: BufferOwner::Wrapper,
        kind: VectorKind::SentinelActive,
    }
}

impl Vector<'static> {
    /// The process-wide "no vector" sentinel: bound to a field that
    /// carries no container. It has no entries and no mutable state;
    /// every state-changing container operation requires a concrete
    /// container, so no caller of the verified interface can alter it.
    pub fn sentinel_none() -> (v: Vector<'static>)
        ensures
            v@ == sentinel_none_view(),
    {
        let v = Vector {
            entries: Vec::new(),
            borrowed: false,
            owner: BufferOwner::Wrapper,
            kind: VectorKind::SentinelNone,
            ceed: PhantomData,
        };
        proof {
            assert(v@.entries =~= Seq::<u64>::empty());
        }
        v
    }

    /// The process-wide "active vector" sentinel: bound to a field that
    /// is fed from the operator's own input or output at apply time.
    /// Immutable for the life of the process, like every sentinel.
    pub fn sentinel_active() -> (v: Vector<'static>)
        ensures
            v@ == sentinel_active_view(),
    {
        let v = Vector {
            entries: Vec::new(),
            borrowed: false,
            owner: BufferOwner::Wrapper,
            kind: VectorKind::SentinelActive,
            ceed: PhantomData,
        };
        proof {
            assert(v@.entries =~= Seq::<u64>::empty());
        }
        v
    }
}

/// Sentinel handles: any two values obtained for the same sentinel have
/// the same abstract state — there is one logical "no vector" and one
/// logical "active vector" — the two are distinct from each other, and
/// neither is a concrete container, so the state-changing container
/// operations, which all require a concrete one, can never touch them.
pub proof fn lemma_sentinel_identity(a: VectorView, b: VectorView, c: VectorView)
    requires
        a == sentinel_none_view(),
        b == sentinel_none_view(),
        c == sentinel_active_view(),
    ensures
        a == b,
        a != c,
        a.kind != VectorKind::Concrete,
        c.kind != VectorKind::Concrete,
{
}

/// After every entry is filled with the same word, the largest magnitude
/// word among the entries is exactly that word's magnitude. Together
/// with the contracts of `set_value` and `norm`, this gives: fill with a
/// scalar, and the max norm is that scalar's magnitude.
pub proof fn lemma_fill_max_norm(value: u64, n: nat)
    requires
        n >= 1,
    ensures
        max_abs_word(Seq::new(n, |i: int| value)) == abs_word(value),
    decreases n,
{
    let s = Seq::new(n, |i: int| value);
    assert(s.last() == value);
    if n == 1 {
        assert(s.drop_last() =~= Seq::<u64>::empty());
        assert(max_abs_word(s.drop_last()) == 0);
    } else {
        assert(s.drop_last() =~= Seq::new((n - 1) as nat, |i: int| value));
        lemma_fill_max_norm(value, (n - 1) as nat);
    }
}

/// Round trip: borrowing from a container created from given data hands
/// out exactly that data, and returning the handle untouched leaves the
/// container holding that data, with no borrow outstanding.
pub proof fn lemma_round_trip(
    data: Seq<u64>,
    created: VectorView,
    mid: VectorView,
    lent: Seq<u64>,
    restored: VectorView,
)
    requires
        created == from_slice_view(data),
        borrow_granted(created, mid, lent),
        borrow_returned(mid, lent, restored),
    ensures
        lent == data,
        restored.entries == data,
        !restored.borrowed,
{
}

/// Borrow exclusivity: while a borrow is outstanding no further one can
/// be granted, and once the handle is returned a new borrow can be
/// granted again.
pub proof fn lemma_borrow_exclusive(
    pre: VectorView,
    mid: VectorView,
    lent: Seq<u64>,
    returned: Seq<u64>,
    post: VectorView,
)
    requires
        borrow_granted(pre, mid, lent),
        borrow_returned(mid, returned, post),
    ensures
        forall|v2: VectorView, l2: Seq<u64>| !borrow_granted(mid, v2, l2),
        borrow_granted(post, (VectorView { borrowed: true, ..post }), post.entries),
{
    assert forall|v2: VectorView, l2: Seq<u64>| !borrow_granted(mid, v2, l2) by {
        assert(mid.borrowed);
    }
}

} // verus!
