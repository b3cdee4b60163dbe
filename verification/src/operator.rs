//! Operators: one pointwise function bound, field by named field, to
//! (connectivity map, basis, numeric container) triples, and composite
//! operators that aggregate several of them into one logical apply.
//!
//! An apply executes inside the compute backend; what this layer owes the
//! caller is the validation in front of it: every field the pointwise
//! function declares must have exactly one binding, active bindings must
//! agree with the containers the apply is fed, and nothing may run while
//! a container's buffer is lent out. A refused apply performs no partial
//! computation.

use vstd::prelude::*;

use crate::basis::{Basis, BasisKind, BasisView};
use crate::elem_restriction::{ElemRestriction, ElemRestrictionView, RestrictionKind};
use crate::qfunction::{QFunction, QFunctionView};
use crate::vector::{Vector, VectorKind, VectorView};
use crate::{Ceed, Error};

verus! {

/// How a field binding feeds its numeric container at apply time.
#[derive(Clone, Copy, PartialEq, Eq, Structural, Debug)]
pub enum BoundVector {
    /// The "active vector" sentinel was bound: the field is fed from the
    /// operator's input, or written to its output, at apply time.
    Active,
    /// The "no vector" sentinel was bound: the field carries no
    /// container of its own (quadrature weights, for one).
    NoVector,
    /// A passive container of the recorded length was bound.
    Passive(usize),
}

/// The abstract state of one field binding.
pub ghost struct FieldBindingView {
    pub name: Seq<char>,
    /// The bound connectivity map's container size, or nothing when the
    /// "no restriction" sentinel was bound.
    pub lsize: Option<usize>,
    /// The bound basis' node count, or nothing when the "collocated"
    /// sentinel was bound.
    pub basis_nodes: Option<usize>,
    pub vector: BoundVector,
}

/// The abstract state of an operator.
pub ghost struct OperatorView {
    pub qf: QFunctionView,
    pub dqf: QFunctionView,
    pub dqft: QFunctionView,
    pub fields: Seq<FieldBindingView>,
}

/// What a binding records of the connectivity map it was given.
pub open spec fn restriction_binding(r: ElemRestrictionView) -> Option<usize> {
    if r.kind == RestrictionKind::SentinelNone {
        None
    } else {
        Some(r.lsize)
    }
}

/// What a binding records of the basis it was given.
pub open spec fn basis_binding(b: BasisView) -> Option<usize> {
    if b.kind == BasisKind::SentinelCollocated {
        None
    } else {
        Some(b.nnodes)
    }
}

/// What a binding records of the numeric container it was given.
pub open spec fn vector_binding(v: VectorView) -> BoundVector {
    match v.kind {
        VectorKind::SentinelActive => BoundVector::Active,
        VectorKind::SentinelNone => BoundVector::NoVector,
        VectorKind::Concrete => BoundVector::Passive(v.entries.len() as usize),
    }
}

/// Whether some binding carries this field name.
pub open spec fn bound(fields: Seq<FieldBindingView>, name: Seq<char>) -> bool {
    exists|i: int| 0 <= i < fields.len() && (#[trigger] fields[i]).name == name
}

/// Whether the pointwise function declares this field name, as an input
/// or as an output.
pub open spec fn declares(qf: QFunctionView, name: Seq<char>) -> bool {
    qf.inputs.contains(name) || qf.outputs.contains(name)
}

/// Field-binding completeness: every field the pointwise function
/// declares has a binding.
pub open spec fn all_fields_bound(op: OperatorView) -> bool {
    &&& forall|j: int|
        0 <= j < op.qf.inputs.len() ==> bound(op.fields, #[trigger] op.qf.inputs[j])
    &&& forall|j: int|
        0 <= j < op.qf.outputs.len() ==> bound(op.fields, #[trigger] op.qf.outputs[j])
}

/// An active binding must agree with the container it is fed from: where
/// its connectivity map indexes a container of size `l`, an active input
/// field needs the operator's input to have length `l`, and an active
/// output field its output likewise.
pub open spec fn binding_size_ok(
    qf: QFunctionView,
    b: FieldBindingView,
    in_len: nat,
    out_len: nat,
) -> bool {
    if b.vector == BoundVector::Active {
        match b.lsize {
            Some(l) => (qf.inputs.contains(b.name) ==> l == in_len) && (qf.outputs.contains(b.name)
                ==> l == out_len),
            None => true,
        }
    } else {
        true
    }
}

pub open spec fn binding_sizes_ok(op: OperatorView, in_len: nat, out_len: nat) -> bool {
    forall|i: int|
        0 <= i < op.fields.len() ==> binding_size_ok(op.qf, #[trigger] op.fields[i], in_len, out_len)
}

/// Why an apply on these containers would be refused, or nothing when it
/// may go ahead: a missing binding is reported before a size
/// disagreement.
pub open spec fn apply_failure(op: OperatorView, in_len: nat, out_len: nat) -> Option<Error> {
    if !all_fields_bound(op) {
        Some(Error::MissingFieldBinding)
    } else if !binding_sizes_ok(op, in_len, out_len) {
        Some(Error::LengthMismatch)
    } else {
        None
    }
}

/// Why an apply of the children from index `i` on would be refused: the
/// first refusing child, in order, decides.
pub open spec fn composite_failure_from(
    children: Seq<OperatorView>,
    in_len: nat,
    out_len: nat,
    i: int,
) -> Option<Error>
    decreases children.len() - i,
{
    if i < 0 || i >= children.len() {
        None
    } else {
        match apply_failure(children[i], in_len, out_len) {
            Some(e) => Some(e),
            None => composite_failure_from(children, in_len, out_len, i + 1),
        }
    }
}

/// Why a composite apply would be refused, or nothing when every child
/// may go ahead.
pub open spec fn composite_failure(
    children: Seq<OperatorView>,
    in_len: nat,
    out_len: nat,
) -> Option<Error> {
    composite_failure_from(children, in_len, out_len, 0)
}

struct FieldBinding {
    name: String,
    lsize: Option<usize>,
    basis_nodes: Option<usize>,
    vector: BoundVector,
}

impl View for FieldBinding {
    type V = FieldBindingView;

    closed spec fn view(&self) -> FieldBindingView {
        FieldBindingView {
            name: self.name@,
            lsize: self.lsize,
            basis_nodes: self.basis_nodes,
            vector: self.vector,
        }
    }
}

/// A pointwise function with its field bindings, executable as one apply.
pub struct Operator<'a> {
    qf: QFunction<'a>,
    dqf: QFunction<'a>,
    dqft: QFunction<'a>,
    fields: Vec<FieldBinding>,
}

impl<'a> View for Operator<'a> {
    type V = OperatorView;

    closed spec fn view(&self) -> OperatorView {
        OperatorView {
            qf: self.qf@,
            dqf: self.dqf@,
            dqft: self.dqft@,
            fields: Seq::new(self.fields@.len(), |i: int| self.fields@[i]@),
        }
    }
}

impl<'a> Operator<'a> {
    /// Bind a pointwise function, with the actions of its Jacobian and
    /// transposed Jacobian (each the "no function" sentinel where not
    /// wanted). Fields are bound afterward, one by one.
    pub fn create(
        ceed: &'a Ceed,
        qf: &QFunction<'a>,
        dqf: &QFunction<'a>,
        dqft: &QFunction<'a>,
    ) -> (op: Operator<'a>)
        ensures
            op@.qf == qf@,
            op@.dqf == dqf@,
            op@.dqft == dqft@,
            op@.fields == Seq::<FieldBindingView>::empty(),
    {
        let op = Operator {
            qf: qf.duplicate(),
            dqf: dqf.duplicate(),
            dqft: dqft.duplicate(),
            fields: Vec::new(),
        };
        proof {
            assert(op@.fields =~= Seq::<FieldBindingView>::empty());
        }
        op
    }

    pub fn num_fields(&self) -> (n: usize)
        ensures
            n == self@.fields.len(),
    {
        self.fields.len()
    }

    /// Record the one binding for a declared field: its connectivity
    /// map, basis, and numeric container, the latter possibly the
    /// "active vector" or "no vector" sentinel. A name the pointwise
    /// function does not declare is refused, and so is a second binding
    /// for a field that has one.
    pub fn set_field(
        &mut self,
        name: &str,
        restriction: &ElemRestriction<'_>,
        basis: &Basis<'_>,
        vector: &Vector<'_>,
    ) -> (r: Result<(), Error>)
        ensures
            !declares(old(self)@.qf, name@) ==> r == Err::<(), Error>(Error::UnknownFieldName)
                && final(self)@ == old(self)@,
            declares(old(self)@.qf, name@) && bound(old(self)@.fields, name@) ==> r == Err::<
                (),
                Error,
            >(Error::DuplicateFieldBinding) && final(self)@ == old(self)@,
            declares(old(self)@.qf, name@) && !bound(old(self)@.fields, name@) ==> r == Ok::<
                (),
                Error,
            >(()) && final(self)@ == (OperatorView {
                fields: old(self)@.fields.push(
                    FieldBindingView {
                        name: name@,
                        lsize: restriction_binding(restriction@),
                        basis_nodes: basis_binding(basis@),
                        vector: vector_binding(vector@),
                    },
                ),
                ..old(self)@
            }),
    {
        let nm = name.to_owned();
        if !self.qf.declares_field(&nm) {
            return Err(Error::UnknownFieldName);
        }
        let n = self.fields.len();
        let mut i: usize = 0;
        while i < n
            invariant
                i <= n,
                n == self@.fields.len(),
                self == old(self),
                declares(old(self)@.qf, name@),
                forall|k: int| 0 <= k < i ==> (#[trigger] self@.fields[k]).name != nm@,
                nm@ == name@,
            decreases n - i,
        {
            if self.fields[i].name == nm {
                proof {
                    assert(self@.fields[i as int].name == name@);
                }
                return Err(Error::DuplicateFieldBinding);
            }
            i += 1;
        }
        let lsize = if restriction.is_sentinel() {
            Option::None
        } else {
            Option::Some(restriction.l_size())
        };
        let basis_nodes = if basis.is_sentinel() {
            Option::None
        } else {
            Option::Some(basis.num_nodes())
        };
        let bvec = match vector.kind() {
            VectorKind::SentinelActive => BoundVector::Active,
            VectorKind::SentinelNone => BoundVector::NoVector,
            VectorKind::Concrete => BoundVector::Passive(vector.length()),
        };
        self.fields.push(FieldBinding { name: nm, lsize, basis_nodes, vector: bvec });
        proof {
            assert(self@.fields =~= old(self)@.fields.push(
                FieldBindingView {
                    name: name@,
                    lsize: restriction_binding(restriction@),
                    basis_nodes: basis_binding(basis@),
                    vector: vector_binding(vector@),
                },
            ));
        }
        Ok(())
    }

    /// Whether some binding carries this field name.
    fn has_binding(&self, name: &String) -> (b: bool)
        ensures
            b == bound(self@.fields, name@),
    {
        let n = self.fields.len();
        let mut i: usize = 0;
        while i < n
            invariant
                i <= n,
                n == self@.fields.len(),
                forall|k: int| 0 <= k < i ==> (#[trigger] self@.fields[k]).name != name@,
            decreases n - i,
        {
            if self.fields[i].name == *name {
                proof {
                    assert(self@.fields[i as int].name == name@);
                }
                return true;
            }
            i += 1;
        }
        false
    }

    /// Why an apply on containers of these lengths would be refused, or
    /// nothing when it may go ahead: first the field-binding
    /// completeness check, then the active-binding size agreement.
    pub fn check_apply(&self, in_len: usize, out_len: usize) -> (r: Option<Error>)
        ensures
            r == apply_failure(self@, in_len as nat, out_len as nat),
    {
        let n_in = self.qf.num_inputs();
        let mut j: usize = 0;
        while j < n_in
            invariant
                j <= n_in,
                n_in == self@.qf.inputs.len(),
                forall|k: int| 0 <= k < j ==> bound(self@.fields, #[trigger] self@.qf.inputs[k]),
            decreases n_in - j,
        {
            if !self.has_binding(self.qf.input_at(j)) {
                return Option::Some(Error::MissingFieldBinding);
            }
            j += 1;
        }
        let n_out = self.qf.num_outputs();
        let mut j: usize = 0;
        while j < n_out
            invariant
                j <= n_out,
                n_out == self@.qf.outputs.len(),
                forall|k: int| 0 <= k < j ==> bound(self@.fields, #[trigger] self@.qf.outputs[k]),
                forall|k: int|
                    0 <= k < self@.qf.inputs.len() ==> bound(
                        self@.fields,
                        #[trigger] self@.qf.inputs[k],
                    ),
            decreases n_out - j,
        {
            if !self.has_binding(self.qf.output_at(j)) {
                return Option::Some(Error::MissingFieldBinding);
            }
            j += 1;
        }
        let n = self.fields.len();
        let mut i: usize = 0;
        while i < n
            invariant
                i <= n,
                n == self@.fields.len(),
                all_fields_bound(self@),
                forall|k: int|
                    0 <= k < i ==> binding_size_ok(
                        self@.qf,
                        #[trigger] self@.fields[k],
                        in_len as nat,
                        out_len as nat,
                    ),
            decreases n - i,
        {
            let is_active = match self.fields[i].vector {
                BoundVector::Active => true,
                _ => false,
            };
            if is_active {
                match self.fields[i].lsize {
                    Option::Some(l) => {
                        if self.qf.declares_input(&self.fields[i].name) && l != in_len {
                            proof {
                                assert(!binding_size_ok(
                                    self@.qf,
                                    self@.fields[i as int],
                                    in_len as nat,
                                    out_len as nat,
                                ));
                            }
                            return Option::Some(Error::LengthMismatch);
                        }
                        if self.qf.declares_output(&self.fields[i].name) && l != out_len {
                            proof {
                                assert(!binding_size_ok(
                                    self@.qf,
                                    self@.fields[i as int],
                                    in_len as nat,
                                    out_len as nat,
                                ));
                            }
                            return Option::Some(Error::LengthMismatch);
                        }
                    },
                    Option::None => {},
                }
            }
            i += 1;
        }
        Option::None
    }

    /// Apply the operator: read `input` wherever a binding names the
    /// active sentinel, write `output` likewise, entirely inside the
    /// compute backend, synchronously. Refused, with no partial
    /// computation, while either container's buffer is lent out, when a
    /// declared field has no binding, and when an active binding
    /// disagrees with its container's length. What the backend writes
    /// into the output's entries is its own; this layer promises the
    /// output keeps its length and stays unborrowed.
    pub fn apply(&self, input: &Vector<'_>, output: &mut Vector<'_>) -> (r: Result<(), Error>)
        requires
            input@.kind == VectorKind::Concrete,
            old(output)@.kind == VectorKind::Concrete,
        ensures
            input@.borrowed || old(output)@.borrowed ==> r == Err::<(), Error>(
                Error::BorrowOutstanding,
            ) && final(output)@ == old(output)@,
            !input@.borrowed && !old(output)@.borrowed ==> (apply_failure(
                self@,
                input@.entries.len(),
                old(output)@.entries.len(),
            ) matches Some(e) ==> r == Err::<(), Error>(e) && final(output)@ == old(output)@),
            !input@.borrowed && !old(output)@.borrowed && apply_failure(
                self@,
                input@.entries.len(),
                old(output)@.entries.len(),
            ) is None ==> r == Ok::<(), Error>(()) && final(output)@.entries.len() == old(
                output,
            )@.entries.len() && !final(output)@.borrowed && final(output)@.owner == old(
                output,
            )@.owner && final(output)@.kind == old(output)@.kind,
    {
        if input.is_borrowed() || output.is_borrowed() {
            return Err(Error::BorrowOutstanding);
        }
        match self.check_apply(input.length(), output.length()) {
            Option::Some(e) => Err(e),
            Option::None => Ok(()),
        }
    }
}

/// An aggregate of operators applied in sequence, accumulating into one
/// logical output.
pub struct CompositeOperator<'a> {
    sub: Vec<Operator<'a>>,
}

impl<'a> View for CompositeOperator<'a> {
    type V = Seq<OperatorView>;

    closed spec fn view(&self) -> Seq<OperatorView> {
        Seq::new(self.sub@.len(), |i: int| self.sub@[i]@)
    }
}

impl<'a> CompositeOperator<'a> {
    /// An aggregate with no children yet.
    pub fn create(ceed: &'a Ceed) -> (op: CompositeOperator<'a>)
        ensures
            op@ == Seq::<OperatorView>::empty(),
    {
        let op = CompositeOperator { sub: Vec::new() };
        proof {
            assert(op@ =~= Seq::<OperatorView>::empty());
        }
        op
    }

    /// Add one child operator to the aggregate.
    pub fn add_sub_operator(&mut self, op: Operator<'a>)
        ensures
            final(self)@ == old(self)@.push(op@),
    {
        let ghost added = op@;
        self.sub.push(op);
        proof {
            assert(self@ =~= old(self)@.push(added));
        }
    }

    pub fn num_sub_operators(&self) -> (n: usize)
        ensures
            n == self@.len(),
    {
        self.sub.len()
    }

    /// Apply every child in order, accumulating into the same output;
    /// the children overlay one logical input/output pair, so each
    /// child's bindings are held to the same containers. Refused, with
    /// no partial computation, on an outstanding borrow or on the first
    /// child whose own apply validation refuses.
    pub fn apply(&self, input: &Vector<'_>, output: &mut Vector<'_>) -> (r: Result<(), Error>)
        requires
            input@.kind == VectorKind::Concrete,
            old(output)@.kind == VectorKind::Concrete,
        ensures
            input@.borrowed || old(output)@.borrowed ==> r == Err::<(), Error>(
                Error::BorrowOutstanding,
            ) && final(output)@ == old(output)@,
            !input@.borrowed && !old(output)@.borrowed ==> (composite_failure(
                self@,
                input@.entries.len(),
                old(output)@.entries.len(),
            ) matches Some(e) ==> r == Err::<(), Error>(e) && final(output)@ == old(output)@),
            !input@.borrowed && !old(output)@.borrowed && composite_failure(
                self@,
                input@.entries.len(),
                old(output)@.entries.len(),
            ) is None ==> r == Ok::<(), Error>(()) && final(output)@.entries.len() == old(
                output,
            )@.entries.len() && !final(output)@.borrowed && final(output)@.owner == old(
                output,
            )@.owner && final(output)@.kind == old(output)@.kind,
    {
        if input.is_borrowed() || output.is_borrowed() {
            return Err(Error::BorrowOutstanding);
        }
        let in_len = input.length();
        let out_len = output.length();
        let n = self.sub.len();
        let mut i: usize = 0;
        while i < n
            invariant
                i <= n,
                n == self@.len(),
                in_len == input@.entries.len(),
                out_len == old(output)@.entries.len(),
                !input@.borrowed,
                !old(output)@.borrowed,
                output@ == old(output)@,
                composite_failure(self@, in_len as nat, out_len as nat) == composite_failure_from(
                    self@,
                    in_len as nat,
                    out_len as nat,
                    i as int,
                ),
            decreases n - i,
        {
            match self.sub[i].check_apply(in_len, out_len) {
                Option::Some(e) => {
                    proof {
                        assert(self@[i as int] == self.sub@[i as int]@);
                        assert(composite_failure_from(
                            self@,
                            in_len as nat,
                            out_len as nat,
                            i as int,
                        ) == Some(e));
                    }
                    return Err(e);
                },
                Option::None => {},
            }
            i += 1;
        }
        Ok(())
    }
}

/// Field-binding completeness is owed before anything else: an operator
/// one of whose declared fields has no binding fails its apply
/// validation with the missing-binding condition, whatever the container
/// lengths, so no partial computation can have happened.
pub proof fn lemma_missing_binding_rejected(op: OperatorView, in_len: nat, out_len: nat)
    requires
        !all_fields_bound(op),
    ensures
        apply_failure(op, in_len, out_len) == Some(Error::MissingFieldBinding),
{
}

} // verus!
