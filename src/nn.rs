//! A linear layer built from the graph's `mul` and `add`.
use vstd::prelude::*;
use crate::tensor::{Graph, Op, Tensor};

verus! {

/// A building block of a network: it extends a graph from an input node and
/// names the parameter nodes that a training loop updates.
pub trait Layer {
    /// The layer's parameters are nodes of `s`.
    spec fn valid(&self, s: Seq<Tensor>) -> bool;

    /// `input` is a node of `s` of a shape that the layer accepts.
    spec fn accepts(&self, s: Seq<Tensor>, input: usize) -> bool;

    /// Appends the layer's nodes for `input` and returns the output node.
    fn forward(&self, g: &mut Graph, input: usize) -> (out: usize)
        requires
            old(g).wf(),
            self.valid(old(g)@),
            self.accepts(old(g)@, input),
        ensures
            final(g).wf(),
            old(g)@ == final(g)@.take(old(g)@.len() as int),
            old(g)@.len() <= out < final(g)@.len(),
    ;

    /// The parameter nodes.
    fn parameters(&self) -> (r: Vec<usize>)
        ensures
            forall|s: Seq<Tensor>, i: int| self.valid(s) && 0 <= i < r@.len() ==> r@[i] < s.len(),
    ;
}

/// `transpose(weight) . input + bias`, with a weight of shape
/// `in_features x out_features` and a bias of shape `out_features x 1`.
pub struct Linear {
    pub weight: usize,
    pub bias: usize,
    pub in_features: Ghost<nat>,
    pub out_features: Ghost<nat>,
}

impl Linear {
    /// Adds a randomly initialised trainable weight and bias to `g`.
    pub fn new(g: &mut Graph, in_features: usize, out_features: usize) -> (r: Linear)
        requires
            old(g).wf(),
        ensures
            final(g).wf(),
            final(g)@ == old(g)@.push(
                Tensor { rows: in_features, cols: out_features, requires_grad: true, op: Op::Leaf },
            ).push(Tensor { rows: out_features, cols: 1, requires_grad: true, op: Op::Leaf }),
            r.weight == old(g)@.len(),
            r.bias == old(g)@.len() + 1,
            r.in_features@ == in_features,
            r.out_features@ == out_features,
            r.valid(final(g)@),
    {
        let weight = crate::tensor::tensor_rand(g, in_features, out_features);
        let bias = crate::tensor::tensor_rand(g, out_features, 1);
        Linear {
            weight,
            bias,
            in_features: Ghost(in_features as nat),
            out_features: Ghost(out_features as nat),
        }
    }
}

impl Layer for Linear {
    open spec fn valid(&self, s: Seq<Tensor>) -> bool {
        &&& self.weight < s.len()
        &&& self.bias < s.len()
        &&& s[self.weight as int].rows == self.in_features@
        &&& s[self.weight as int].cols == self.out_features@
        &&& s[self.bias as int].rows == self.out_features@
        &&& s[self.bias as int].cols == 1
    }

    open spec fn accepts(&self, s: Seq<Tensor>, input: usize) -> bool {
        input < s.len() && s[input as int].rows == self.in_features@
    }

    fn forward(&self, g: &mut Graph, input: usize) -> (out: usize)
        ensures
            out == old(g)@.len() + 1,
            final(g)@ == old(g)@.push(
                Tensor {
                    rows: self.out_features@ as usize,
                    cols: old(g)@[input as int].cols,
                    requires_grad: true,
                    op: Op::Mul(self.weight, input),
                },
            ).push(
                Tensor {
                    rows: self.out_features@ as usize,
                    cols: old(g)@[input as int].cols,
                    requires_grad: true,
                    op: Op::Add((old(g)@.len()) as usize, self.bias),
                },
            ),
    {
        let product = crate::tensor::mul(g, self.weight, input);
        let out = crate::tensor::add(g, product, self.bias);
        out
    }

    fn parameters(&self) -> (r: Vec<usize>)
        ensures
            r@ == seq![self.weight, self.bias],
    {
        vec![self.weight, self.bias]
    }
}

} // verus!
