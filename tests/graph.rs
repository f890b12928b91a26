use rusty_tensors::nn::{Layer, Linear};
use rusty_tensors::tensor::{self, Accumulate, Contribution, Graph, Op, Tensor};

fn node(g: &Graph, id: usize) -> (usize, usize, bool) {
    let t = &g.nodes[id];
    (t.rows, t.cols, t.requires_grad)
}

#[test]
fn new_graph_is_empty() {
    let g = Graph::new();
    assert_eq!(g.len(), 0);
}

#[test]
fn tensor_new_keeps_fields() {
    let t = Tensor::new(2, 3, false, Op::Neg(4));
    assert_eq!(t.rows, 2);
    assert_eq!(t.cols, 3);
    assert!(!t.requires_grad);
    assert!(matches!(t.op, Op::Neg(4)));
}

#[test]
fn leaves_get_handles_in_order() {
    let mut g = Graph::new();
    let a = tensor::tensor(&mut g, 3, 1, false);
    let b = tensor::tensor_rand(&mut g, 2, 4);
    assert_eq!((a, b), (0, 1));
    assert_eq!(node(&g, a), (3, 1, false));
    assert_eq!(node(&g, b), (2, 4, true));
    assert!(matches!(g.nodes[b].op, Op::Leaf));
}

#[test]
fn elementwise_results_broadcast_and_are_trainable() {
    let mut g = Graph::new();
    let a = tensor::tensor(&mut g, 3, 1, false);
    let b = tensor::tensor(&mut g, 1, 1, false);
    let m = tensor::tensor(&mut g, 1, 4, false);
    let c = tensor::add(&mut g, a, b);
    assert_eq!(node(&g, c), (3, 1, true));
    let d = tensor::sub(&mut g, a, m);
    assert_eq!(node(&g, d), (3, 4, true));
    assert!(matches!(g.nodes[d].op, Op::Sub(0, 2)));
}

#[test]
fn mul_is_transpose_of_left_times_right() {
    let mut g = Graph::new();
    let w = tensor::tensor_rand(&mut g, 3, 5);
    let x = tensor::tensor(&mut g, 3, 1, false);
    let y = tensor::mul(&mut g, w, x);
    assert_eq!(node(&g, y), (5, 1, true));
    assert!(matches!(g.nodes[y].op, Op::Mul(0, 1)));
}

#[test]
fn unary_operations_keep_shape() {
    let mut g = Graph::new();
    let a = tensor::tensor(&mut g, 2, 3, false);
    let p = tensor::pow(&mut g, a);
    let n = tensor::neg(&mut g, p);
    let r = tensor::relu(&mut g, n);
    let l = tensor::leaky_relu(&mut g, r);
    for id in [p, n, r, l] {
        assert_eq!(node(&g, id), (2, 3, true));
    }
    assert!(matches!(g.nodes[l].op, Op::LeakyRelu(3)));
}

#[test]
fn sum_gives_column_of_column_sums() {
    let mut g = Graph::new();
    let a = tensor::tensor(&mut g, 4, 3, true);
    let s = tensor::sum(&mut g, a);
    assert_eq!(node(&g, s), (3, 1, true));
}

#[test]
fn operand_list_follows_operation() {
    assert_eq!(Op::Leaf.operand_list(), Vec::<usize>::new());
    assert_eq!(Op::Mul(7, 2).operand_list(), vec![7, 2]);
    assert_eq!(Op::Sum(5).operand_list(), vec![5]);
}

#[test]
fn backward_of_leaf_runs_only_its_own_rule() {
    let mut g = Graph::new();
    let a = tensor::tensor(&mut g, 2, 2, true);
    assert_eq!(g.backward(a), vec![a]);
}

#[test]
fn backward_of_add_reaches_both_operands() {
    let mut g = Graph::new();
    let a = tensor::tensor(&mut g, 3, 1, true);
    let b = tensor::tensor(&mut g, 3, 1, true);
    let c = tensor::add(&mut g, a, b);
    assert_eq!(g.backward(c), vec![c, a, b]);
}

#[test]
fn backward_of_squared_difference() {
    let mut g = Graph::new();
    let target = tensor::tensor(&mut g, 2, 1, false);
    let out = tensor::tensor(&mut g, 2, 1, true);
    let d = tensor::sub(&mut g, target, out);
    let loss = tensor::pow(&mut g, d);
    assert_eq!(g.backward(loss), vec![loss, d, target, out]);
}

#[test]
fn backward_end_to_end_schedule() {
    let mut g = Graph::new();
    let a = tensor::tensor(&mut g, 3, 1, true);
    let b = tensor::tensor(&mut g, 3, 1, true);
    let c = tensor::add(&mut g, a, b);
    let d = tensor::mul(&mut g, a, b);
    assert_eq!(node(&g, d), (1, 1, true));
    let e = tensor::add(&mut g, c, d);
    assert_eq!(node(&g, e), (3, 1, true));
    assert_eq!(g.backward(e), vec![e, c, a, b, d, a, b]);
}

#[test]
fn fan_out_node_runs_once_per_consumer() {
    let mut g = Graph::new();
    let x = tensor::tensor(&mut g, 2, 1, true);
    let p = tensor::pow(&mut g, x);
    let q = tensor::neg(&mut g, p);
    let r = tensor::relu(&mut g, p);
    let e = tensor::add(&mut g, q, r);
    let schedule = g.backward(e);
    assert_eq!(schedule, vec![e, q, p, x, r, p, x]);
    assert_eq!(schedule.iter().filter(|&&n| n == p).count(), 2);
    assert_eq!(schedule.iter().filter(|&&n| n == x).count(), 2);
}

#[test]
fn same_operand_twice_is_two_paths() {
    let mut g = Graph::new();
    let a = tensor::tensor(&mut g, 1, 1, true);
    let s = tensor::add(&mut g, a, a);
    assert_eq!(g.backward(s), vec![s, a, a]);
}

#[test]
fn linear_layer_builds_mul_then_add() {
    let mut g = Graph::new();
    let layer = Linear::new(&mut g, 3, 2);
    assert_eq!(layer.parameters(), vec![0, 1]);
    assert_eq!(node(&g, layer.weight), (3, 2, true));
    assert_eq!(node(&g, layer.bias), (2, 1, true));
    let input = tensor::tensor(&mut g, 3, 1, false);
    let out = layer.forward(&mut g, input);
    assert_eq!(out, 4);
    assert!(matches!(g.nodes[3].op, Op::Mul(0, 2)));
    assert!(matches!(g.nodes[out].op, Op::Add(3, 1)));
    assert_eq!(node(&g, out), (2, 1, true));
    assert_eq!(g.backward(out), vec![out, 3, 0, 2, 1]);
}

fn steps(g: &Graph, n: usize) -> Vec<(usize, (u8, usize))> {
    g.gradient_rule(n).iter().map(|s: &Accumulate| (s.target, describe(&s.contribution))).collect()
}

fn describe(c: &Contribution) -> (u8, usize) {
    match *c {
        Contribution::Plus => (0, 0),
        Contribution::Minus => (1, 0),
        Contribution::ValueTimesGradT(k) => (2, k),
        Contribution::ValueTimesGrad(k) => (3, k),
        Contribution::ScaledValue(k) => (4, k),
        Contribution::ReluMask(k) => (5, k),
        Contribution::LeakyMask(k) => (6, k),
    }
}

#[test]
fn gradient_rules_of_each_operation() {
    let mut g = Graph::new();
    let a = tensor::tensor(&mut g, 3, 1, true);
    let b = tensor::tensor(&mut g, 3, 1, true);
    let w = tensor::tensor(&mut g, 3, 2, true);
    let add = tensor::add(&mut g, a, b);
    let sub = tensor::sub(&mut g, a, b);
    let neg = tensor::neg(&mut g, a);
    let mul = tensor::mul(&mut g, w, a);
    let pow = tensor::pow(&mut g, a);
    let sum = tensor::sum(&mut g, a);
    let relu = tensor::relu(&mut g, b);
    let leaky = tensor::leaky_relu(&mut g, b);
    assert!(g.gradient_rule(a).is_empty());
    assert_eq!(steps(&g, add), vec![(a, (0, 0)), (b, (0, 0))]);
    assert_eq!(steps(&g, sub), vec![(a, (0, 0)), (b, (1, 0))]);
    assert_eq!(steps(&g, neg), vec![(a, (1, 0))]);
    assert_eq!(steps(&g, mul), vec![(w, (2, a)), (a, (3, w))]);
    assert_eq!(steps(&g, pow), vec![(a, (4, a))]);
    assert_eq!(steps(&g, sum), vec![(a, (0, 0))]);
    assert_eq!(steps(&g, relu), vec![(b, (5, b))]);
    assert_eq!(steps(&g, leaky), vec![(b, (6, b))]);
}
