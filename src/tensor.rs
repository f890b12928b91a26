//! Nodes, graph construction and the backward schedule.
use vstd::prelude::*;

verus! {

/// The operation that produced a node, with the indices of its operands.
pub enum Op {
    /// A node made directly from data; its backward rule does nothing.
    Leaf,
    Add(usize, usize),
    Sub(usize, usize),
    Neg(usize),
    /// `transpose(left) . right`.
    Mul(usize, usize),
    /// Elementwise power; the exponent itself is a number of the array backend.
    Pow(usize),
    /// Sum along the row axis, giving a column vector of per-column sums.
    Sum(usize),
    Relu(usize),
    LeakyRelu(usize),
}

impl Op {
    /// The operands, in the order in which the backward rule visits them.
    pub open spec fn operands(self) -> Seq<usize> {
        match self {
            Op::Leaf => seq![],
            Op::Add(l, r) => seq![l, r],
            Op::Sub(l, r) => seq![l, r],
            Op::Mul(l, r) => seq![l, r],
            Op::Neg(a) => seq![a],
            Op::Pow(a) => seq![a],
            Op::Sum(a) => seq![a],
            Op::Relu(a) => seq![a],
            Op::LeakyRelu(a) => seq![a],
        }
    }

    /// Executable form of `operands`.
    pub fn operand_list(&self) -> (r: Vec<usize>)
        ensures
            r@ == self.operands(),
    {
        match *self {
            Op::Leaf => Vec::new(),
            Op::Add(l, r) => vec![l, r],
            Op::Sub(l, r) => vec![l, r],
            Op::Mul(l, r) => vec![l, r],
            Op::Neg(a) => vec![a],
            Op::Pow(a) => vec![a],
            Op::Sum(a) => vec![a],
            Op::Relu(a) => vec![a],
            Op::LeakyRelu(a) => vec![a],
        }
    }
}

/// One node of the graph: the shape of its value, whether a parameter update
/// may change it, and the operation that produced it.
pub struct Tensor {
    pub rows: usize,
    pub cols: usize,
    pub requires_grad: bool,
    pub op: Op,
}

impl Tensor {
    /// A node record with the given shape, flag and producing operation. Its
    /// gradient starts as zeros of the same shape.
    pub fn new(rows: usize, cols: usize, requires_grad: bool, op: Op) -> (r: Tensor)
        ensures
            r == (Tensor { rows, cols, requires_grad, op }),
    {
        Tensor { rows, cols, requires_grad, op }
    }
}

/// The length of one axis of the backend's broadcast of two arrays, if the two
/// lengths can be broadcast together: equal lengths, or one of them is 1.
pub open spec fn broadcast_dim(a: nat, b: nat) -> Option<nat> {
    if a == b {
        Some(a)
    } else if a == 1 {
        Some(b)
    } else if b == 1 {
        Some(a)
    } else {
        None
    }
}

/// The shape of the value that `op` produces from the nodes `s`, or `None` when
/// the operands' shapes do not fit the operation (or an operand is missing).
pub open spec fn result_shape(s: Seq<Tensor>, op: Op) -> Option<(nat, nat)> {
    if !(forall|k: int| 0 <= k < op.operands().len() ==> #[trigger] op.operands()[k] < s.len()) {
        None
    } else {
        match op {
            Op::Leaf => None,
            Op::Add(l, r) => elementwise_shape(s[l as int], s[r as int]),
            Op::Sub(l, r) => elementwise_shape(s[l as int], s[r as int]),
            Op::Mul(l, r) => if s[l as int].rows == s[r as int].rows {
                Some((s[l as int].cols as nat, s[r as int].cols as nat))
            } else {
                None
            },
            Op::Sum(a) => Some((s[a as int].cols as nat, 1)),
            Op::Neg(a) => Some((s[a as int].rows as nat, s[a as int].cols as nat)),
            Op::Pow(a) => Some((s[a as int].rows as nat, s[a as int].cols as nat)),
            Op::Relu(a) => Some((s[a as int].rows as nat, s[a as int].cols as nat)),
            Op::LeakyRelu(a) => Some((s[a as int].rows as nat, s[a as int].cols as nat)),
        }
    }
}

/// The broadcast shape of two operands of an elementwise operation.
pub open spec fn elementwise_shape(a: Tensor, b: Tensor) -> Option<(nat, nat)> {
    match (broadcast_dim(a.rows as nat, b.rows as nat), broadcast_dim(a.cols as nat, b.cols as nat)) {
        (Some(r), Some(c)) => Some((r, c)),
        _ => None,
    }
}

/// Node `i` of `s` is well formed: its operands come before it, and its shape is
/// the one that its operation gives.
pub open spec fn node_wf(s: Seq<Tensor>, i: int) -> bool {
    &&& forall|k: int| 0 <= k < s[i].op.operands().len() ==> #[trigger] s[i].op.operands()[k] < i
    &&& (s[i].op is Leaf || result_shape(s.take(i), s[i].op) == Some((s[i].rows as nat, s[i].cols as nat)))
}

/// The arena that holds every node; a node's index is its handle.
pub struct Graph {
    pub nodes: Vec<Tensor>,
}

impl View for Graph {
    type V = Seq<Tensor>;

    open spec fn view(&self) -> Seq<Tensor> {
        self.nodes@
    }
}

impl Graph {
    /// Every node is well formed; in particular the graph is acyclic, since each
    /// edge leads to an earlier node.
    pub open spec fn wf(&self) -> bool {
        forall|i: int| 0 <= i < self@.len() ==> #[trigger] node_wf(self@, i)
    }

    /// An empty graph.
    pub fn new() -> (r: Graph)
        ensures
            r@ == Seq::<Tensor>::empty(),
            r.wf(),
    {
        Graph { nodes: Vec::new() }
    }

    /// The number of nodes.
    pub fn len(&self) -> (r: usize)
        ensures
            r == self@.len(),
    {
        self.nodes.len()
    }

    /// Appends a node whose operands are already in the graph and whose shape is
    /// the one its operation gives, and returns its handle.
    fn push_node(&mut self, node: Tensor) -> (id: usize)
        requires
            old(self).wf(),
            node.op is Leaf || result_shape(old(self)@, node.op) == Some((node.rows as nat, node.cols as nat)),
        ensures
            final(self).wf(),
            final(self)@ == old(self)@.push(node),
            id == old(self)@.len(),
    {
        let ghost s0 = self@;
        let id = self.nodes.len();
        self.nodes.push(node);
        assert(self@.take(id as int) =~= s0);
        assert forall|i: int| 0 <= i < self@.len() implies #[trigger] node_wf(self@, i) by {
            if i < id {
                assert(node_wf(s0, i));
                assert(self@.take(i) =~= s0.take(i));
            }
        }
        id
    }
}

/// Executable form of `broadcast_dim`.
fn broadcast_len(a: usize, b: usize) -> (r: Option<usize>)
    ensures
        r matches Some(n) ==> broadcast_dim(a as nat, b as nat) == Some(n as nat),
        r is None ==> broadcast_dim(a as nat, b as nat) is None,
{
    if a == b {
        Some(a)
    } else if a == 1 {
        Some(b)
    } else if b == 1 {
        Some(a)
    } else {
        None
    }
}

/// `left` and `right` are nodes of `g` whose shapes broadcast together.
pub open spec fn elementwise_ok(g: Graph, left: usize, right: usize) -> bool {
    &&& left < g@.len()
    &&& right < g@.len()
    &&& elementwise_shape(g@[left as int], g@[right as int]) is Some
}

/// The node that an operation appends: the shape it gives, trainable, and the
/// operation itself.
pub open spec fn op_node(s: Seq<Tensor>, op: Op) -> Tensor {
    let (rows, cols) = result_shape(s, op)->Some_0;
    Tensor { rows: rows as usize, cols: cols as usize, requires_grad: true, op }
}

/// Appends the node for an elementwise operation of two nodes.
fn push_elementwise(g: &mut Graph, op: Op, left: usize, right: usize) -> (id: usize)
    requires
        old(g).wf(),
        elementwise_ok(*old(g), left, right),
        op == Op::Add(left, right) || op == Op::Sub(left, right),
    ensures
        final(g).wf(),
        final(g)@ == old(g)@.push(op_node(old(g)@, op)),
        id == old(g)@.len(),
{
    let rows = broadcast_len(g.nodes[left].rows, g.nodes[right].rows);
    let cols = broadcast_len(g.nodes[left].cols, g.nodes[right].cols);
    let rows = rows.unwrap();
    let cols = cols.unwrap();
    g.push_node(Tensor::new(rows, cols, true, op))
}

/// Appends a node that applies `op` to one operand and keeps its shape.
fn push_unary(g: &mut Graph, op: Op, a: usize) -> (id: usize)
    requires
        old(g).wf(),
        a < old(g)@.len(),
        op == Op::Neg(a) || op == Op::Pow(a) || op == Op::Relu(a) || op == Op::LeakyRelu(a),
    ensures
        final(g).wf(),
        final(g)@ == old(g)@.push(op_node(old(g)@, op)),
        final(g)@.last().rows == old(g)@[a as int].rows,
        final(g)@.last().cols == old(g)@[a as int].cols,
        id == old(g)@.len(),
{
    let rows = g.nodes[a].rows;
    let cols = g.nodes[a].cols;
    g.push_node(Tensor::new(rows, cols, true, op))
}

/// A leaf node of the given shape made from data; `requires_grad` says whether
/// `step` may change its value.
pub fn tensor(g: &mut Graph, rows: usize, cols: usize, requires_grad: bool) -> (id: usize)
    requires
        old(g).wf(),
    ensures
        final(g).wf(),
        final(g)@ == old(g)@.push(Tensor { rows, cols, requires_grad, op: Op::Leaf }),
        id == old(g)@.len(),
{
    g.push_node(Tensor::new(rows, cols, requires_grad, Op::Leaf))
}

/// A trainable leaf node of the given shape, for values drawn at random.
pub fn tensor_rand(g: &mut Graph, rows: usize, cols: usize) -> (id: usize)
    requires
        old(g).wf(),
    ensures
        final(g).wf(),
        final(g)@ == old(g)@.push(Tensor { rows, cols, requires_grad: true, op: Op::Leaf }),
        id == old(g)@.len(),
{
    tensor(g, rows, cols, true)
}

/// `left + right`, elementwise with broadcasting.
pub fn add(g: &mut Graph, left: usize, right: usize) -> (id: usize)
    requires
        old(g).wf(),
        elementwise_ok(*old(g), left, right),
    ensures
        final(g).wf(),
        final(g)@ == old(g)@.push(op_node(old(g)@, Op::Add(left, right))),
        id == old(g)@.len(),
{
    push_elementwise(g, Op::Add(left, right), left, right)
}

/// `left - right`, elementwise with broadcasting.
pub fn sub(g: &mut Graph, left: usize, right: usize) -> (id: usize)
    requires
        old(g).wf(),
        elementwise_ok(*old(g), left, right),
    ensures
        final(g).wf(),
        final(g)@ == old(g)@.push(op_node(old(g)@, Op::Sub(left, right))),
        id == old(g)@.len(),
{
    push_elementwise(g, Op::Sub(left, right), left, right)
}

/// `transpose(left) . right`: a weight of shape `in x out` times an input of
/// shape `in x k` gives `out x k`.
pub fn mul(g: &mut Graph, left: usize, right: usize) -> (id: usize)
    requires
        old(g).wf(),
        left < old(g)@.len(),
        right < old(g)@.len(),
        old(g)@[left as int].rows == old(g)@[right as int].rows,
    ensures
        final(g).wf(),
        final(g)@ == old(g)@.push(Tensor {
            rows: old(g)@[left as int].cols,
            cols: old(g)@[right as int].cols,
            requires_grad: true,
            op: Op::Mul(left, right),
        }),
        id == old(g)@.len(),
{
    let rows = g.nodes[left].cols;
    let cols = g.nodes[right].cols;
    g.push_node(Tensor::new(rows, cols, true, Op::Mul(left, right)))
}

/// Elementwise power of `a`, same shape as `a`.
pub fn pow(g: &mut Graph, a: usize) -> (id: usize)
    requires
        old(g).wf(),
        a < old(g)@.len(),
    ensures
        final(g).wf(),
        final(g)@ == old(g)@.push(Tensor {
            rows: old(g)@[a as int].rows,
            cols: old(g)@[a as int].cols,
            requires_grad: true,
            op: Op::Pow(a),
        }),
        id == old(g)@.len(),
{
    push_unary(g, Op::Pow(a), a)
}

/// Elementwise `-a`, same shape as `a`.
pub fn neg(g: &mut Graph, a: usize) -> (id: usize)
    requires
        old(g).wf(),
        a < old(g)@.len(),
    ensures
        final(g).wf(),
        final(g)@ == old(g)@.push(Tensor {
            rows: old(g)@[a as int].rows,
            cols: old(g)@[a as int].cols,
            requires_grad: true,
            op: Op::Neg(a),
        }),
        id == old(g)@.len(),
{
    push_unary(g, Op::Neg(a), a)
}

/// Elementwise `max(a, 0)`, same shape as `a`.
pub fn relu(g: &mut Graph, a: usize) -> (id: usize)
    requires
        old(g).wf(),
        a < old(g)@.len(),
    ensures
        final(g).wf(),
        final(g)@ == old(g)@.push(Tensor {
            rows: old(g)@[a as int].rows,
            cols: old(g)@[a as int].cols,
            requires_grad: true,
            op: Op::Relu(a),
        }),
        id == old(g)@.len(),
{
    push_unary(g, Op::Relu(a), a)
}

/// Elementwise leaky rectifier of `a`, same shape as `a`.
pub fn leaky_relu(g: &mut Graph, a: usize) -> (id: usize)
    requires
        old(g).wf(),
        a < old(g)@.len(),
    ensures
        final(g).wf(),
        final(g)@ == old(g)@.push(Tensor {
            rows: old(g)@[a as int].rows,
            cols: old(g)@[a as int].cols,
            requires_grad: true,
            op: Op::LeakyRelu(a),
        }),
        id == old(g)@.len(),
{
    push_unary(g, Op::LeakyRelu(a), a)
}

/// The per-column sums of `a`, as a column vector: shape `cols x 1`.
pub fn sum(g: &mut Graph, a: usize) -> (id: usize)
    requires
        old(g).wf(),
        a < old(g)@.len(),
    ensures
        final(g).wf(),
        final(g)@ == old(g)@.push(Tensor {
            rows: old(g)@[a as int].cols,
            cols: 1,
            requires_grad: true,
            op: Op::Sum(a),
        }),
        id == old(g)@.len(),
{
    let rows = g.nodes[a].cols;
    g.push_node(Tensor::new(rows, 1, true, Op::Sum(a)))
}

/// The backward rules that run when the rule of node `n` runs, in the order in
/// which they run: `n` itself, then, for each operand in turn, everything that
/// the operand's rule sets off. A rule accumulates into every operand's
/// gradient before any operand's rule runs, and each operand's rule reads that
/// operand's gradient as it stands at that moment. A node reached along several
/// paths is run once per path.
pub open spec fn visits(s: Seq<Tensor>, n: int) -> Seq<usize>
    decreases n,
{
    if n < 0 || n >= s.len() {
        seq![]
    } else {
        let ops = s[n].op.operands();
        let first = if ops.len() > 0 && ops[0] < n {
            visits(s, ops[0] as int)
        } else {
            seq![]
        };
        let second = if ops.len() > 1 && ops[1] < n {
            visits(s, ops[1] as int)
        } else {
            seq![]
        };
        seq![n as usize] + first + second
    }
}

impl Graph {
    /// Appends to `out` the rules that running node `n`'s rule sets off.
    fn collect_visits(&self, n: usize, out: &mut Vec<usize>)
        requires
            self.wf(),
            n < self@.len(),
        ensures
            final(out)@ == old(out)@ + visits(self@, n as int),
        decreases n,
    {
        let ghost before = out@;
        out.push(n);
        let ops = self.nodes[n].op.operand_list();
        assert(node_wf(self@, n as int));
        if ops.len() > 0 {
            self.collect_visits(ops[0], out);
        }
        if ops.len() > 1 {
            self.collect_visits(ops[1], out);
        }
        assert(ops@.len() <= 2);
        assert(out@ =~= before + visits(self@, n as int));
    }

    /// The schedule of backward propagation from `root`: `backward` seeds a
    /// gradient of ones shaped like `root`'s value and runs `root`'s rule on it;
    /// every later entry is a node whose rule runs on that node's own gradient
    /// buffer as it stands at that point. Leaves appear too; their rule does
    /// nothing.
    pub fn backward(&self, root: usize) -> (r: Vec<usize>)
        requires
            self.wf(),
            root < self@.len(),
        ensures
            r@ == visits(self@, root as int),
    {
        let mut out: Vec<usize> = Vec::new();
        self.collect_visits(root, &mut out);
        assert(out@ =~= visits(self@, root as int));
        out
    }
}

/// The number of paths from node `n` down to node `k` along operand edges (an
/// operation that names one operand twice gives two edges).
pub open spec fn path_count(s: Seq<Tensor>, n: int, k: usize) -> nat
    decreases n,
{
    if n < 0 || n >= s.len() {
        0
    } else {
        let ops = s[n].op.operands();
        let here: nat = if n == k { 1 } else { 0 };
        let first = if ops.len() > 0 && ops[0] < n {
            path_count(s, ops[0] as int, k)
        } else {
            0
        };
        let second = if ops.len() > 1 && ops[1] < n {
            path_count(s, ops[1] as int, k)
        } else {
            0
        };
        here + first + second
    }
}

/// Fan-out law of propagation: during backward propagation from `n`, the rule
/// of node `k` runs once for every path from `n` to `k`. A node consumed by two
/// operations that both lead back to the root therefore runs twice, and the
/// gradient it passes on is counted again on each run.
pub proof fn lemma_visits_follow_paths(g: Graph, n: usize, k: usize)
    requires
        g.wf(),
        n < g@.len(),
    ensures
        visits(g@, n as int).to_multiset().count(k) == path_count(g@, n as int, k),
    decreases n,
{
    broadcast use vstd::seq_lib::lemma_multiset_commutative;
    broadcast use vstd::multiset::group_multiset_axioms;

    let s = g@;
    let ops = s[n as int].op.operands();
    assert(node_wf(s, n as int));
    let head: Seq<usize> = seq![n];
    assert(head =~= Seq::<usize>::empty().push(n));
    Seq::<usize>::empty().to_multiset_ensures();
    let first = if ops.len() > 0 && ops[0] < n { visits(s, ops[0] as int) } else { seq![] };
    let second = if ops.len() > 1 && ops[1] < n { visits(s, ops[1] as int) } else { seq![] };
    if ops.len() > 0 {
        lemma_visits_follow_paths(g, ops[0], k);
    }
    if ops.len() > 1 {
        lemma_visits_follow_paths(g, ops[1], k);
    }
    assert(first.to_multiset().count(k) == if ops.len() > 0 && ops[0] < n { path_count(s, ops[0] as int, k) } else { 0 });
    assert(second.to_multiset().count(k) == if ops.len() > 1 && ops[1] < n { path_count(s, ops[1] as int, k) } else { 0 });
    assert(visits(s, n as int) == head + first + second);
    assert((head + first + second).to_multiset() =~= head.to_multiset().add(first.to_multiset()).add(second.to_multiset()));
}

/// What a backward rule adds to one operand's gradient, given the incoming
/// gradient `g` of the node whose rule runs.
pub enum Contribution {
    /// `+g`
    Plus,
    /// `-g`
    Minus,
    /// `value(k) . transpose(g)`
    ValueTimesGradT(usize),
    /// `value(k) . g`
    ValueTimesGrad(usize),
    /// `value(k) * g * exponent`, with the exponent of the power node whose rule
    /// runs; the exact derivative only for the exponent 2.
    ScaledValue(usize),
    /// `g * (value(k) > 0 ? 1 : 0)`
    ReluMask(usize),
    /// `g * (value(k) > 0 ? 1 : 0.01)`
    LeakyMask(usize),
}

/// One step of a backward rule: add `contribution` to the gradient of `target`.
pub struct Accumulate {
    pub target: usize,
    pub contribution: Contribution,
}

/// The steps of the backward rule of a node made by `op`, in order.
pub open spec fn rule_of(op: Op) -> Seq<Accumulate> {
    match op {
        Op::Leaf => seq![],
        Op::Add(l, r) => seq![
            Accumulate { target: l, contribution: Contribution::Plus },
            Accumulate { target: r, contribution: Contribution::Plus },
        ],
        Op::Sub(l, r) => seq![
            Accumulate { target: l, contribution: Contribution::Plus },
            Accumulate { target: r, contribution: Contribution::Minus },
        ],
        Op::Neg(a) => seq![Accumulate { target: a, contribution: Contribution::Minus }],
        Op::Mul(l, r) => seq![
            Accumulate { target: l, contribution: Contribution::ValueTimesGradT(r) },
            Accumulate { target: r, contribution: Contribution::ValueTimesGrad(l) },
        ],
        Op::Pow(a) => seq![Accumulate { target: a, contribution: Contribution::ScaledValue(a) }],
        Op::Sum(a) => seq![Accumulate { target: a, contribution: Contribution::Plus }],
        Op::Relu(a) => seq![Accumulate { target: a, contribution: Contribution::ReluMask(a) }],
        Op::LeakyRelu(a) => seq![Accumulate { target: a, contribution: Contribution::LeakyMask(a) }],
    }
}

impl Graph {
    /// The steps of node `n`'s backward rule. Each operand is the target of
    /// exactly one step, in operand order.
    pub fn gradient_rule(&self, n: usize) -> (r: Vec<Accumulate>)
        requires
            n < self@.len(),
        ensures
            r@ == rule_of(self@[n as int].op),
            r@.len() == self@[n as int].op.operands().len(),
            forall|k: int| 0 <= k < r@.len() ==> #[trigger] r@[k].target == self@[n as int].op.operands()[k],
    {
        match self.nodes[n].op {
            Op::Leaf => Vec::new(),
            Op::Add(l, r) => vec![
                Accumulate { target: l, contribution: Contribution::Plus },
                Accumulate { target: r, contribution: Contribution::Plus },
            ],
            Op::Sub(l, r) => vec![
                Accumulate { target: l, contribution: Contribution::Plus },
                Accumulate { target: r, contribution: Contribution::Minus },
            ],
            Op::Neg(a) => vec![Accumulate { target: a, contribution: Contribution::Minus }],
            Op::Mul(l, r) => vec![
                Accumulate { target: l, contribution: Contribution::ValueTimesGradT(r) },
                Accumulate { target: r, contribution: Contribution::ValueTimesGrad(l) },
            ],
            Op::Pow(a) => vec![Accumulate { target: a, contribution: Contribution::ScaledValue(a) }],
            Op::Sum(a) => vec![Accumulate { target: a, contribution: Contribution::Plus }],
            Op::Relu(a) => vec![Accumulate { target: a, contribution: Contribution::ReluMask(a) }],
            Op::LeakyRelu(a) => vec![Accumulate { target: a, contribution: Contribution::LeakyMask(a) }],
        }
    }
}

/// The shape of the array that contribution `c` adds during the rule of node
/// `n`, whose incoming gradient has the shape of `n`, or `None` when the
/// matrix product in it has inner dimensions that disagree.
pub open spec fn contribution_shape(s: Seq<Tensor>, n: int, c: Contribution) -> Option<(nat, nat)> {
    let grad = (s[n].rows as nat, s[n].cols as nat);
    match c {
        Contribution::Plus => Some(grad),
        Contribution::Minus => Some(grad),
        Contribution::ValueTimesGradT(k) => if s[k as int].cols == s[n].cols {
            Some((s[k as int].rows as nat, s[n].rows as nat))
        } else {
            None
        },
        Contribution::ValueTimesGrad(k) => if s[k as int].cols == s[n].rows {
            Some((s[k as int].rows as nat, s[n].cols as nat))
        } else {
            None
        },
        Contribution::ScaledValue(k) => elementwise_shape(s[k as int], s[n]),
        Contribution::ReluMask(k) => elementwise_shape(s[k as int], s[n]),
        Contribution::LeakyMask(k) => elementwise_shape(s[k as int], s[n]),
    }
}

/// Nodes `a` and `b` of `s` have the same shape.
pub open spec fn same_shape(s: Seq<Tensor>, a: usize, b: usize) -> bool {
    a < s.len() && b < s.len() && s[a as int].rows == s[b as int].rows && s[a as int].cols == s[b as int].cols
}

/// Gradients keep the shape of values: in a well-formed graph, every step of
/// the rule of a node that does not broadcast (anything but `sum`, and `add` or
/// `sub` of operands of equal shape) adds an array of exactly its target's
/// shape. For `mul` of a weight `in x out` and an input `in x k`, the weight
/// receives `in x out` and the input `in x k`.
pub proof fn lemma_gradient_shapes(g: Graph, n: usize)
    requires
        g.wf(),
        n < g@.len(),
        !(g@[n as int].op is Sum),
        g@[n as int].op matches Op::Add(l, r) ==> same_shape(g@, l, r),
        g@[n as int].op matches Op::Sub(l, r) ==> same_shape(g@, l, r),
    ensures
        forall|k: int|
            0 <= k < rule_of(g@[n as int].op).len() ==> {
                let step = #[trigger] rule_of(g@[n as int].op)[k];
                contribution_shape(g@, n as int, step.contribution) == Some(
                    (g@[step.target as int].rows as nat, g@[step.target as int].cols as nat),
                )
            },
{
    let s = g@;
    let op = s[n as int].op;
    assert(node_wf(s, n as int));
    let t = s.take(n as int);
    if op.operands().len() > 0 {
        let a = op.operands()[0];
        assert(a < n);
        assert(t[a as int] == s[a as int]);
    }
    if op.operands().len() > 1 {
        let b = op.operands()[1];
        assert(b < n);
        assert(t[b as int] == s[b as int]);
    }
}

} // verus!
