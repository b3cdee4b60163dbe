//! Context blobs: opaque byte buffers a pointwise function may read and
//! write across invocations. A blob crosses the boundary under the same
//! three data-transfer contracts as a numeric buffer, and the recorded
//! owner afterward is what the ownership-mode resolver assigns.

use core::marker::PhantomData;

use vstd::prelude::*;

use crate::vector::{resolve_owner, spec_resolve_owner, BufferOwner};
use crate::{Ceed, CopyMode, Error, MemType};

verus! {

/// The abstract state of a context blob.
pub ghost struct QFunctionContextView {
    pub data: Seq<u8>,
    pub owner: BufferOwner,
}

/// Opaque user data carried for a pointwise function.
pub struct QFunctionContext<'a> {
    data: Vec<u8>,
    owner: BufferOwner,
    ceed: PhantomData<&'a Ceed>,
}

impl<'a> View for QFunctionContext<'a> {
    type V = QFunctionContextView;

    closed spec fn view(&self) -> QFunctionContextView {
        QFunctionContextView { data: self.data@, owner: self.owner }
    }
}

impl<'a> QFunctionContext<'a> {
    /// An empty blob, owned by this layer.
    pub fn create(ceed: &'a Ceed) -> (c: QFunctionContext<'a>)
        ensures
            c@.data == Seq::<u8>::empty(),
            c@.owner == BufferOwner::Wrapper,
    {
        let c = QFunctionContext { data: Vec::new(), owner: BufferOwner::Wrapper, ceed: PhantomData };
        proof {
            assert(c@.data =~= Seq::<u8>::empty());
        }
        c
    }

    /// Attach `data` under the given ownership mode, releasing whatever
    /// was attached before. Unlike a numeric container, a blob has no
    /// fixed length.
    pub fn set_data(&mut self, mtype: MemType, cmode: CopyMode, data: Vec<u8>)
        ensures
            final(self)@ == (QFunctionContextView {
                data: data@,
                owner: spec_resolve_owner(cmode),
            }),
    {
        let _ = mtype;
        self.owner = resolve_owner(cmode);
        self.data = data;
    }

    /// The blob's current size in bytes.
    pub fn data_len(&self) -> (n: usize)
        ensures
            n == self@.data.len(),
    {
        self.data.len()
    }

    /// Who currently owns the blob's memory.
    pub fn data_owner(&self) -> (o: BufferOwner)
        ensures
            o == self@.owner,
    {
        self.owner
    }
}

} // verus!
