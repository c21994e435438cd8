//! Values that carry a description of how they were built: each operation
//! adds a named node over the nodes of its operands, and the known leaf
//! values travel along.
use vstd::prelude::*;

verus! {

/// A named step in the building of a value, over the steps of its operands.
pub struct Node {
    pub name: &'static str,
    pub deps: Vec<Node>,
}

/// Something with a name that describes it.
pub trait Meta {
    spec fn name_spec(&self) -> Seq<char>;

    fn name(&self) -> (r: &'static str)
        ensures
            r@ == self.name_spec(),
    ;
}

impl Meta for Node {
    open spec fn name_spec(&self) -> Seq<char> {
        self.name@
    }

    fn name(&self) -> (r: &'static str) {
        self.name
    }
}

/// A value described by `node`; `inner` holds its leaves in order, `None`
/// for a leaf whose value is not known.
pub struct Repr {
    pub node: Node,
    pub inner: Vec<Option<i32>>,
}

/// A value that can be seen as a `Repr`.
pub trait ReprTrait: Sized {
    spec fn repr_spec(self) -> Repr;

    fn repr(self) -> (r: Repr)
        ensures
            r == self.repr_spec(),
    ;
}

impl ReprTrait for Repr {
    open spec fn repr_spec(self) -> Repr {
        self
    }

    fn repr(self) -> (r: Repr) {
        self
    }
}

/// The value described by `node` with leaves `inner`.
pub fn repr(node: Node, inner: Vec<Option<i32>>) -> (r: Repr)
    ensures
        r.node == node,
        r.inner == inner,
{
    Repr { node, inner }
}

/// A node named `name` with no operands.
pub fn leaf_node(name: &'static str) -> (r: Node)
    ensures
        r.name == name,
        r.deps@.len() == 0,
{
    Node { name, deps: Vec::new() }
}

impl Repr {
    /// A known value.
    pub fn value(v: i32) -> (r: Repr)
        ensures
            r.node.name@ == "Value"@,
            r.node.deps@.len() == 0,
            r.inner@ == seq![Some(v)],
    {
        proof {
            reveal_strlit("Value");
        }
        Repr { node: leaf_node("Value"), inner: vec![Some(v)] }
    }

    /// A value that is not known.
    pub fn undef() -> (r: Repr)
        ensures
            r.node.name@ == "Undef"@,
            r.node.deps@.len() == 0,
            r.inner@ == seq![None::<i32>],
    {
        proof {
            reveal_strlit("Undef");
        }
        Repr { node: leaf_node("Undef"), inner: vec![None] }
    }

    /// `!self`: a `Not` node over `self`, with the same leaves.
    pub fn not(self) -> (r: Repr)
        ensures
            r.node.name@ == "Not"@,
            r.node.deps@ == seq![self.node],
            r.inner == self.inner,
    {
        proof {
            reveal_strlit("Not");
        }
        Repr { node: Node { name: "Not", deps: vec![self.node] }, inner: self.inner }
    }

    /// `self + rhs`: an `Add` node over both, with the leaves of `self`
    /// followed by those of `rhs`.
    pub fn add(self, rhs: Repr) -> (r: Repr)
        ensures
            r.node.name@ == "Add"@,
            r.node.deps@ == seq![self.node, rhs.node],
            r.inner@ == self.inner@ + rhs.inner@,
    {
        proof {
            reveal_strlit("Add");
        }
        let mut inner = self.inner;
        let mut tail = rhs.inner;
        inner.append(&mut tail);
        Repr { node: Node { name: "Add", deps: vec![self.node, rhs.node] }, inner }
    }
}

/// A reference to a described value: a `Ref` node over the value's node,
/// with the value's leaves.
pub struct ReprRef<'a> {
    pub target: &'a Repr,
}

impl<'a> ReprRef<'a> {
    /// The name of the node that the reference adds.
    pub fn name(&self) -> (r: &'static str)
        ensures
            r@ == "Ref"@,
    {
        proof {
            reveal_strlit("Ref");
        }
        "Ref"
    }

    /// The node of the referenced value.
    pub fn target_node(&self) -> (r: &'a Node)
        ensures
            *r == self.target.node,
    {
        &self.target.node
    }

    /// The leaves of the referenced value.
    pub fn inner(&self) -> (r: &'a Vec<Option<i32>>)
        ensures
            *r == self.target.inner,
    {
        &self.target.inner
    }
}

/// A reference to `repr`.
pub fn new_ref<'a>(repr: &'a Repr) -> (r: ReprRef<'a>)
    ensures
        *r.target == *repr,
{
    ReprRef { target: repr }
}

/// A function together with the description of the argument it takes.
pub struct DebugLambda<F> {
    pub f: F,
    pub param: Node,
}

/// A function value described by the description of its argument.
pub fn new_lambda<F>(f: F, param: Node) -> (r: DebugLambda<F>)
    ensures
        r.f == f,
        r.param == param,
{
    DebugLambda { f, param }
}

/// The application of a function value to `arg`: an `Apply` node over the
/// function's `Lambda` node and over `arg`, with the leaves of `arg`.
pub fn new_apply<F>(lam: DebugLambda<F>, arg: Repr) -> (r: Repr)
    ensures
        r.node.name@ == "Apply"@,
        r.node.deps@.len() == 2,
        r.node.deps@[0].name@ == "Lambda"@,
        r.node.deps@[0].deps@ == seq![lam.param],
        r.node.deps@[1] == arg.node,
        r.inner == arg.inner,
{
    proof {
        reveal_strlit("Apply");
        reveal_strlit("Lambda");
    }
    let lambda = Node { name: "Lambda", deps: vec![lam.param] };
    Repr { node: Node { name: "Apply", deps: vec![lambda, arg.node] }, inner: arg.inner }
}

} // verus!
