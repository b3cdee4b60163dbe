//! Pointwise functions: per-quadrature-point computations referenced by a
//! well-known name resolved in the backend's built-in library. What this
//! layer knows of one is its interface — the named input and output
//! fields an operator must bind before an apply. The computation itself
//! runs inside the backend.

use core::marker::PhantomData;

use vstd::prelude::*;

use crate::{Ceed, Error};

verus! {

/// A resolved pointwise function, or the process-wide "no function"
/// sentinel used where an operator takes no Jacobian-action function.
#[derive(Clone, Copy, PartialEq, Eq, Structural, Debug)]
pub enum QFunctionKind {
    Named,
    SentinelNone,
}

/// The abstract state of a pointwise function: its resolved name and the
/// field names its interface declares.
pub ghost struct QFunctionView {
    pub name: Seq<char>,
    pub inputs: Seq<Seq<char>>,
    pub outputs: Seq<Seq<char>>,
    pub kind: QFunctionKind,
}

/// The interface of each pointwise function this layer's built-in
/// library resolves by name: the input field names and the output field
/// names, or nothing when the name is unknown.
pub open spec fn gallery_fields(name: Seq<char>) -> Option<(Seq<Seq<char>>, Seq<Seq<char>>)> {
    if name == "Mass1DBuild"@ {
        Some((seq!["dx"@, "weights"@], seq!["qdata"@]))
    } else if name == "MassApply"@ {
        Some((seq!["u"@, "qdata"@], seq!["v"@]))
    } else {
        None
    }
}

/// A per-quadrature-point computation applied independently at every
/// quadrature point during an operator's apply.
pub struct QFunction<'a> {
    name: String,
    inputs: Vec<String>,
    outputs: Vec<String>,
    kind: QFunctionKind,
    ceed: PhantomData<&'a Ceed>,
}

impl<'a> View for QFunction<'a> {
    type V = QFunctionView;

    closed spec fn view(&self) -> QFunctionView {
        QFunctionView {
            name: self.name@,
            inputs: self.inputs.deep_view(),
            outputs: self.outputs.deep_view(),
            kind: self.kind,
        }
    }
}

impl<'a> QFunction<'a> {
    /// Resolve a pointwise function by its well-known name. Known names
    /// yield the declared field interface; an unknown name is refused,
    /// rather than carried on as an invalid handle.
    pub fn create_by_name(ceed: &'a Ceed, name: String) -> (r: Result<QFunction<'a>, Error>)
        ensures
            gallery_fields(name@) is None ==> r == Err::<QFunction<'a>, Error>(
                Error::UnknownFunctionName,
            ),
            gallery_fields(name@) matches Some(f) ==> (r matches Ok(qf) && qf@.name == name@
                && qf@.inputs == f.0 && qf@.outputs == f.1 && qf@.kind == QFunctionKind::Named),
    {
        if name == "Mass1DBuild".to_owned() {
            let mut inputs: Vec<String> = Vec::new();
            inputs.push("dx".to_owned());
            inputs.push("weights".to_owned());
            let mut outputs: Vec<String> = Vec::new();
            outputs.push("qdata".to_owned());
            let qf = QFunction { name, inputs, outputs, kind: QFunctionKind::Named, ceed: PhantomData };
            proof {
                assert(qf@.inputs =~= seq!["dx"@, "weights"@]);
                assert(qf@.outputs =~= seq!["qdata"@]);
            }
            Ok(qf)
        } else if name == "MassApply".to_owned() {
            let mut inputs: Vec<String> = Vec::new();
            inputs.push("u".to_owned());
            inputs.push("qdata".to_owned());
            let mut outputs: Vec<String> = Vec::new();
            outputs.push("v".to_owned());
            let qf = QFunction { name, inputs, outputs, kind: QFunctionKind::Named, ceed: PhantomData };
            proof {
                assert(qf@.inputs =~= seq!["u"@, "qdata"@]);
                assert(qf@.outputs =~= seq!["v"@]);
            }
            Ok(qf)
        } else {
            Err(Error::UnknownFunctionName)
        }
    }

    /// Whether the interface declares this input field.
    pub fn declares_input(&self, name: &String) -> (b: bool)
        ensures
            b == self@.inputs.contains(name@),
    {
        names_contain(&self.inputs, name)
    }

    /// Whether the interface declares this output field.
    pub fn declares_output(&self, name: &String) -> (b: bool)
        ensures
            b == self@.outputs.contains(name@),
    {
        names_contain(&self.outputs, name)
    }

    /// Whether the interface declares this field at all.
    pub fn declares_field(&self, name: &String) -> (b: bool)
        ensures
            b == (self@.inputs.contains(name@) || self@.outputs.contains(name@)),
    {
        names_contain(&self.inputs, name) || names_contain(&self.outputs, name)
    }

    /// The name of one declared input field.
    pub fn input_at(&self, i: usize) -> (s: &String)
        requires
            i < self@.inputs.len(),
        ensures
            s@ == self@.inputs[i as int],
    {
        &self.inputs[i]
    }

    /// The name of one declared output field.
    pub fn output_at(&self, i: usize) -> (s: &String)
        requires
            i < self@.outputs.len(),
        ensures
            s@ == self@.outputs[i as int],
    {
        &self.outputs[i]
    }

    /// The number of input fields the interface declares.
    pub fn num_inputs(&self) -> (n: usize)
        ensures
            n == self@.inputs.len(),
    {
        self.inputs.len()
    }

    /// The number of output fields the interface declares.
    pub fn num_outputs(&self) -> (n: usize)
        ensures
            n == self@.outputs.len(),
    {
        self.outputs.len()
    }

    pub fn kind(&self) -> (k: QFunctionKind)
        ensures
            k == self@.kind,
    {
        self.kind
    }

    pub fn is_sentinel(&self) -> (b: bool)
        ensures
            b == (self@.kind == QFunctionKind::SentinelNone),
    {
        self.kind == QFunctionKind::SentinelNone
    }

    /// An exact copy, so that several operators can bind the same
    /// pointwise function.
    pub fn duplicate(&self) -> (r: QFunction<'a>)
        ensures
            r@ == self@,
    {
        let r = QFunction {
            name: self.name.clone(),
            inputs: clone_names(&self.inputs),
            outputs: clone_names(&self.outputs),
            kind: self.kind,
            ceed: PhantomData,
        };
        proof {
            assert(r@.inputs =~= self@.inputs);
            assert(r@.outputs =~= self@.outputs);
        }
        r
    }

    /// The process-wide "no function" sentinel: carries no interface,
    /// no mutable state, and is never destroyed.
    pub fn sentinel_none() -> (qf: QFunction<'static>)
        ensures
            qf@ == sentinel_none_view(),
    {
        let qf = QFunction {
            name: String::new(),
            inputs: Vec::new(),
            outputs: Vec::new(),
            kind: QFunctionKind::SentinelNone,
            ceed: PhantomData,
        };
        proof {
            assert(qf@.name =~= Seq::<char>::empty());
            assert(qf@.inputs =~= Seq::<Seq<char>>::empty());
            assert(qf@.outputs =~= Seq::<Seq<char>>::empty());
        }
        qf
    }
}

/// The state the "no function" sentinel is in: no name, no fields,
/// forever.
pub open spec fn sentinel_none_view() -> QFunctionView {
    QFunctionView {
        name: Seq::empty(),
        inputs: Seq::empty(),
        outputs: Seq::empty(),
        kind: QFunctionKind::SentinelNone,
    }
}

/// Whether a list of field names holds this one.
fn names_contain(v: &Vec<String>, name: &String) -> (b: bool)
    ensures
        b == v.deep_view().contains(name@),
{
    let n = v.len();
    let mut i: usize = 0;
    while i < n
        invariant
            i <= n,
            n == v@.len(),
            forall|k: int| 0 <= k < i ==> v.deep_view()[k] != name@,
        decreases n - i,
    {
        if v[i] == *name {
            proof {
                assert(v.deep_view()[i as int] == name@);
            }
            return true;
        }
        i += 1;
    }
    proof {
        assert(forall|k: int| 0 <= k < v.deep_view().len() ==> v.deep_view()[k] != name@);
    }
    false
}

/// An elementwise copy of a list of field names.
fn clone_names(v: &Vec<String>) -> (r: Vec<String>)
    ensures
        r.deep_view() == v.deep_view(),
{
    let n = v.len();
    let mut r: Vec<String> = Vec::new();
    let mut i: usize = 0;
    while i < n
        invariant
            i <= n,
            n == v@.len(),
            r@.len() == i,
            forall|j: int| 0 <= j < i ==> r@[j] == v@[j],
        decreases n - i,
    {
        r.push(v[i].clone());
        i += 1;
    }
    proof {
        assert(r.deep_view() =~= v.deep_view());
    }
    r
}

} // verus!
