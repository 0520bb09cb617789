//! The fully-connected feed-forward network: construction, forward
//! inference, and one backpropagation pass, each with an exact model-level
//! contract.

use vstd::prelude::*;
use crate::activation::{Activation, ScalarOp};
use crate::error::NnError;
use crate::matrix::{
    Matrix, MatModel, add_model, sub_model, emul_model, map_model, matmul_model,
    transpose_model, random_model,
};
use crate::rng::SeededRng;

verus! {

/// The mathematical model of a network: the layer sizes, the per-layer
/// weight and bias matrices, the transient forward-pass cache, the
/// activation, and the learning rate.
#[verifier::ext_equal]
pub ghost struct NetModel {
    pub layers: Seq<usize>,
    pub weights: Seq<MatModel>,
    pub biases: Seq<MatModel>,
    pub data: Seq<MatModel>,
    pub activation: Activation,
    pub learning_rate: u64,
}

impl NetModel {
    /// The structural invariant: at least two layers, every layer size at
    /// least one, and one weight and one bias matrix per layer pair, of the
    /// shapes the layer sizes dictate. The transient cache is not part of
    /// it; [`NetModel::cache_wf`] speaks of that.
    pub open spec fn wf(self) -> bool {
        &&& self.layers.len() >= 2
        &&& forall|i: int| 0 <= i < self.layers.len() ==> self.layers[i] >= 1
        &&& self.weights.len() == self.layers.len() - 1
        &&& self.biases.len() == self.layers.len() - 1
        &&& forall|i: int| 0 <= i < self.weights.len() ==> (#[trigger] self.weights[i]).wf()
            && self.weights[i].rows == self.layers[i + 1] && self.weights[i].cols == self.layers[i]
        &&& forall|i: int| 0 <= i < self.biases.len() ==> (#[trigger] self.biases[i]).wf()
            && self.biases[i].rows == self.layers[i + 1] && self.biases[i].cols == 1
    }

    /// The cache invariant after a forward pass: one column per layer, of
    /// that layer's size.
    pub open spec fn cache_wf(self) -> bool {
        &&& self.data.len() == self.layers.len()
        &&& forall|i: int| 0 <= i < self.data.len() ==> (#[trigger] self.data[i]).wf()
            && self.data[i].rows == self.layers[i] && self.data[i].cols == 1
    }
}

/// The column-matrix model of a plain vector of scalars.
pub open spec fn colvec_model(v: Seq<u64>) -> MatModel {
    MatModel { rows: v.len(), cols: 1, data: v }
}

/// One forward step: the activation applied element-wise to
/// `weights[i] * a + biases[i]`.
pub open spec fn layer_out(net: NetModel, a: MatModel, i: int) -> MatModel {
    map_model(
        ScalarOp::Act(net.activation),
        add_model(matmul_model(net.weights[i], a), net.biases[i]),
    )
}

/// The activation column of layer `i` of the forward pass on `input`:
/// layer 0 is the input itself.
pub open spec fn act_at(net: NetModel, input: MatModel, i: int) -> MatModel
    decreases i,
{
    if i <= 0 {
        input
    } else {
        layer_out(net, act_at(net, input, i - 1), i - 1)
    }
}

/// The whole cache a forward pass on `input` leaves behind: the activation
/// of every layer, the input first.
pub open spec fn ff_data(net: NetModel, input: MatModel) -> Seq<MatModel> {
    Seq::new(net.layers.len(), |i: int| act_at(net, input, i))
}

/// The network after a forward pass on `input`: only the transient cache
/// changes.
pub open spec fn ff_applied(net: NetModel, input: MatModel) -> NetModel {
    NetModel { data: ff_data(net, input), ..net }
}

/// The rolling state of one backpropagation pass: the error and gradient
/// columns, and the weight and bias matrices updated so far.
#[verifier::ext_equal]
pub ghost struct BpState {
    pub errors: MatModel,
    pub gradients: MatModel,
    pub weights: Seq<MatModel>,
    pub biases: Seq<MatModel>,
}

/// The state before any backpropagation step: the error is
/// `targets - outputs` and the gradient is the activation derivative of the
/// outputs.
pub open spec fn bp_init(net: NetModel, outputs: MatModel, targets: MatModel) -> BpState {
    BpState {
        errors: sub_model(targets, outputs),
        gradients: map_model(ScalarOp::ActDeriv(net.activation), outputs),
        weights: net.weights,
        biases: net.biases,
    }
}

/// The state after `steps` backpropagation steps. Step number `s`
/// (counting from 1) works on layer pair `i = layers.len() - 1 - s`: the
/// local gradient is the learning-rate-scaled element-wise product of the
/// rolling gradient and error; the weight matrix gains the product of the
/// local gradient and the transposed cached activation of layer `i`; the
/// bias column gains the local gradient; the error is back-projected
/// through the transposed weight matrix as it stood before this step's
/// update; and the rolling gradient becomes the activation derivative of
/// the cached activation of layer `i`.
pub open spec fn bp_after(
    net: NetModel,
    outputs: MatModel,
    targets: MatModel,
    steps: int,
) -> BpState
    decreases steps,
{
    if steps <= 0 {
        bp_init(net, outputs, targets)
    } else {
        let s = bp_after(net, outputs, targets, steps - 1);
        let i = net.layers.len() - 1 - steps;
        let g = map_model(
            ScalarOp::Scale(net.learning_rate),
            emul_model(s.gradients, s.errors),
        );
        BpState {
            errors: matmul_model(transpose_model(s.weights[i]), s.errors),
            gradients: map_model(ScalarOp::ActDeriv(net.activation), net.data[i]),
            weights: s.weights.update(
                i,
                add_model(s.weights[i], matmul_model(g, transpose_model(net.data[i]))),
            ),
            biases: s.biases.update(i, add_model(s.biases[i], g)),
        }
    }
}

/// The network after one full backpropagation pass: the weights and biases
/// of the final rolling state; everything else unchanged.
pub open spec fn bp_applied(net: NetModel, outputs: MatModel, targets: MatModel) -> NetModel {
    let s = bp_after(net, outputs, targets, net.layers.len() - 1);
    NetModel { weights: s.weights, biases: s.biases, ..net }
}

/// The network after one training sample: a forward pass on the input
/// column, then a backpropagation pass against the target column.
pub open spec fn sample_step(net: NetModel, x: Seq<u64>, t: Seq<u64>) -> NetModel {
    let n1 = ff_applied(net, colvec_model(x));
    bp_applied(n1, act_at(net, colvec_model(x), net.layers.len() - 1), colvec_model(t))
}

/// The network after the first `j` samples of one epoch.
pub open spec fn epoch_at(
    net: NetModel,
    inputs: Seq<Seq<u64>>,
    targets: Seq<Seq<u64>>,
    j: int,
) -> NetModel
    decreases j,
{
    if j <= 0 {
        net
    } else {
        sample_step(epoch_at(net, inputs, targets, j - 1), inputs[j - 1], targets[j - 1])
    }
}

/// The network after `e` full epochs of per-sample stochastic training in
/// sample order.
pub open spec fn train_model(
    net: NetModel,
    inputs: Seq<Seq<u64>>,
    targets: Seq<Seq<u64>>,
    e: int,
) -> NetModel
    decreases e,
{
    if e <= 0 {
        net
    } else {
        epoch_at(train_model(net, inputs, targets, e - 1), inputs, targets, inputs.len() as int)
    }
}

/// The sequence-of-sequences view of a list of sample rows.
pub open spec fn rows_view(v: Seq<Vec<u64>>) -> Seq<Seq<u64>> {
    Seq::new(v.len(), |j: int| v[j]@)
}

/// Whether a sample list fits a network: as many targets as inputs, every
/// input of the first layer's size, every target of the last layer's size.
pub open spec fn samples_fit(
    net: NetModel,
    inputs: Seq<Seq<u64>>,
    targets: Seq<Seq<u64>>,
) -> bool {
    &&& inputs.len() == targets.len()
    &&& forall|j: int| 0 <= j < inputs.len() ==> (#[trigger] inputs[j]).len() == net.layers[0]
    &&& forall|j: int| 0 <= j < targets.len() ==> (#[trigger] targets[j]).len() == net.layers[
        net.layers.len() - 1
    ]
}

/// A fully-connected feed-forward network. The weight and bias shapes are
/// fully determined by `layers` and never change after construction; only
/// the values mutate during training. `data` is the transient cache of the
/// most recent forward pass and is not part of persisted state.
#[derive(Debug)]
pub struct Network {
    pub layers: Vec<usize>,
    pub weights: Vec<Matrix>,
    pub biases: Vec<Matrix>,
    pub data: Vec<Matrix>,
    pub activation: Activation,
    pub learning_rate: u64,
}

impl Clone for Network {
    /// A value copy: the clone has the same architecture, scalars and
    /// cache, so a copy can serve read-only inference while the original
    /// trains.
    fn clone(&self) -> (r: Network)
        ensures
            r@ == self@,
    {
        let r = Network {
            layers: crate::matrix::copy_usizes(&self.layers),
            weights: crate::checkpoint::copy_matrices(&self.weights),
            biases: crate::checkpoint::copy_matrices(&self.biases),
            data: crate::checkpoint::copy_matrices(&self.data),
            activation: self.activation,
            learning_rate: self.learning_rate,
        };
        proof {
            assert(r@.layers =~= self@.layers);
            assert(r@.weights =~= self@.weights);
            assert(r@.biases =~= self@.biases);
            assert(r@.data =~= self@.data);
            assert(r@ =~= self@);
        }
        r
    }
}

impl View for Network {
    type V = NetModel;

    open spec fn view(&self) -> NetModel {
        NetModel {
            layers: self.layers@,
            weights: Seq::new(self.weights@.len(), |i: int| self.weights@[i]@),
            biases: Seq::new(self.biases@.len(), |i: int| self.biases@[i]@),
            data: Seq::new(self.data@.len(), |i: int| self.data@[i]@),
            activation: self.activation,
            learning_rate: self.learning_rate,
        }
    }
}

/// Whether an architecture is acceptable: at least two layers, each of
/// size at least one.
pub open spec fn layers_ok(layers: Seq<usize>) -> bool {
    layers.len() >= 2 && forall|i: int| 0 <= i < layers.len() ==> layers[i] >= 1
}

/// How many draws of the seeded stream construction consumes before it
/// begins layer pair `i`: each pair `j` takes `layers[j+1] * layers[j]`
/// draws for its weights and `layers[j+1]` for its biases.
pub open spec fn seeded_consumed(layers: Seq<usize>, i: int) -> nat
    decreases i,
{
    if i <= 0 {
        0
    } else {
        (seeded_consumed(layers, i - 1) + layers[i] * layers[i - 1] + layers[i]) as nat
    }
}

/// The model of a seeded network: every weight and bias matrix is filled
/// from the seeded stream in construction order, so the whole network is a
/// function of the architecture, activation, learning rate, and seed alone.
pub open spec fn seeded_model(
    layers: Seq<usize>,
    activation: Activation,
    learning_rate: u64,
    seed: u64,
) -> NetModel {
    NetModel {
        layers: layers,
        weights: Seq::new(
            (layers.len() - 1) as nat,
            |i: int| random_model(
                layers[i + 1] as nat,
                layers[i] as nat,
                seed,
                seeded_consumed(layers, i),
            ),
        ),
        biases: Seq::new(
            (layers.len() - 1) as nat,
            |i: int| random_model(
                layers[i + 1] as nat,
                1,
                seed,
                (seeded_consumed(layers, i) + layers[i + 1] * layers[i]) as nat,
            ),
        ),
        data: Seq::empty(),
        activation: activation,
        learning_rate: learning_rate,
    }
}

impl Network {
    /// Builds a network with unseeded random initialization. The
    /// architecture must have at least two layers, each of size at least
    /// one; otherwise the [`NnError::InvalidArchitecture`] fault reports
    /// the layer count. The weight and bias shapes of the result are
    /// exactly those the layer sizes dictate.
    pub fn new(layers: Vec<usize>, activation: Activation, learning_rate: u64) -> (r: Result<
        Network,
        NnError,
    >)
        requires
            forall|i: int| 0 <= i < layers@.len() - 1 ==> (#[trigger] layers@[i + 1])
                * layers@[i] <= usize::MAX,
        ensures
            r is Ok <==> layers_ok(layers@),
            r matches Ok(n) ==> n@.wf() && n@.layers == layers@ && n@.activation == activation
                && n@.learning_rate == learning_rate && n@.data == Seq::<MatModel>::empty(),
            r matches Err(e) ==> e == (NnError::InvalidArchitecture {
                layer_count: layers@.len() as usize,
            }),
    {
        if !Self::check_layers(&layers) {
            return Err(NnError::InvalidArchitecture { layer_count: layers.len() });
        }
        let n = layers.len();
        let mut weights: Vec<Matrix> = Vec::new();
        let mut biases: Vec<Matrix> = Vec::new();
        let mut i: usize = 0;
        while i < n - 1
            invariant
                i <= n - 1,
                n == layers@.len(),
                weights@.len() == i,
                biases@.len() == i,
                forall|t: int| 0 <= t < i ==> (#[trigger] weights@[t]@).wf()
                    && weights@[t]@.rows == layers@[t + 1] && weights@[t]@.cols == layers@[t],
                forall|t: int| 0 <= t < i ==> (#[trigger] biases@[t]@).wf()
                    && biases@[t]@.rows == layers@[t + 1] && biases@[t]@.cols == 1,
            decreases n - 1 - i,
        {
            weights.push(Matrix::random(layers[i + 1], layers[i]));
            biases.push(Matrix::random(layers[i + 1], 1));
            i += 1;
        }
        Ok(Network { layers, weights, biases, data: Vec::new(), activation, learning_rate })
    }

    /// Builds a network with deterministic initialization: the result is
    /// exactly [`seeded_model`] of the arguments, so two calls with the
    /// same arguments yield bit-identical networks.
    pub fn new_seeded(
        layers: Vec<usize>,
        activation: Activation,
        learning_rate: u64,
        seed: u64,
    ) -> (r: Result<Network, NnError>)
        requires
            forall|i: int| 0 <= i < layers@.len() - 1 ==> (#[trigger] layers@[i + 1])
                * layers@[i] <= usize::MAX,
        ensures
            r is Ok <==> layers_ok(layers@),
            r matches Ok(n) ==> n@.wf() && n@ == seeded_model(
                layers@,
                activation,
                learning_rate,
                seed,
            ),
            r matches Err(e) ==> e == (NnError::InvalidArchitecture {
                layer_count: layers@.len() as usize,
            }),
    {
        if !Self::check_layers(&layers) {
            return Err(NnError::InvalidArchitecture { layer_count: layers.len() });
        }
        let mut rng = SeededRng::new(seed);
        let n = layers.len();
        let mut weights: Vec<Matrix> = Vec::new();
        let mut biases: Vec<Matrix> = Vec::new();
        let mut i: usize = 0;
        while i < n - 1
            invariant
                i <= n - 1,
                n == layers@.len(),
                layers_ok(layers@),
                forall|t: int| 0 <= t < layers@.len() - 1 ==> (#[trigger] layers@[t + 1])
                    * layers@[t] <= usize::MAX,
                rng.seed_spec() == seed,
                rng.drawn_spec() == seeded_consumed(layers@, i as int),
                weights@.len() == i,
                biases@.len() == i,
                forall|t: int| 0 <= t < i ==> #[trigger] weights@[t]@ == random_model(
                    layers@[t + 1] as nat,
                    layers@[t] as nat,
                    seed,
                    seeded_consumed(layers@, t),
                ),
                forall|t: int| 0 <= t < i ==> #[trigger] biases@[t]@ == random_model(
                    layers@[t + 1] as nat,
                    1,
                    seed,
                    (seeded_consumed(layers@, t) + layers@[t + 1] * layers@[t]) as nat,
                ),
            decreases n - 1 - i,
        {
            let w = Matrix::random_seeded(layers[i + 1], layers[i], &mut rng);
            let b = Matrix::random_seeded(layers[i + 1], 1, &mut rng);
            weights.push(w);
            biases.push(b);
            i += 1;
        }
        let net = Network { layers, weights, biases, data: Vec::new(), activation, learning_rate };
        proof {
            let m = seeded_model(net.layers@, activation, learning_rate, seed);
            assert(net@.weights =~= m.weights);
            assert(net@.biases =~= m.biases);
            assert(net@.data =~= m.data);
            assert(net@ =~= m);
        }
        Ok(net)
    }

    /// True when the architecture has at least two layers, each of size at
    /// least one.
    pub fn check_layers(layers: &Vec<usize>) -> (r: bool)
        ensures
            r == layers_ok(layers@),
    {
        if layers.len() < 2 {
            return false;
        }
        let mut i: usize = 0;
        while i < layers.len()
            invariant
                i <= layers@.len(),
                forall|t: int| 0 <= t < i ==> layers@[t] >= 1,
            decreases layers@.len() - i,
        {
            if layers[i] == 0 {
                return false;
            }
            i += 1;
        }
        true
    }

    /// Forward inference. Requires a column of the first layer's size;
    /// otherwise the call fails with the shapes in the fault and leaves the
    /// network untouched. On success the cache holds every layer's
    /// activation (the input first) and the result is the last layer's
    /// activation column, both exactly as the forward model states.
    pub fn feed_forward(&mut self, inputs: Matrix) -> (r: Result<Matrix, NnError>)
        requires
            old(self)@.wf(),
            inputs@.wf(),
        ensures
            final(self)@.wf(),
            r is Ok <==> (inputs@.rows == old(self)@.layers[0] && inputs@.cols == 1),
            r matches Ok(out) ==> final(self)@ == ff_applied(old(self)@, inputs@)
                && final(self)@.cache_wf()
                && out@ == act_at(old(self)@, inputs@, old(self)@.layers.len() - 1)
                && out@.rows == old(self)@.layers[old(self)@.layers.len() - 1] && out@.cols == 1,
            r matches Err(e) ==> *final(self) == *old(self) && e == (NnError::DimensionMismatch {
                left_rows: old(self)@.layers[0] as usize,
                left_cols: 1,
                right_rows: inputs@.rows as usize,
                right_cols: inputs@.cols as usize,
            }),
    {
        if inputs.rows != self.layers[0] || inputs.cols != 1 {
            return Err(NnError::DimensionMismatch {
                left_rows: self.layers[0],
                left_cols: 1,
                right_rows: inputs.rows,
                right_cols: inputs.cols,
            });
        }
        let ghost net0 = old(self)@;
        let n = self.layers.len();
        let mut current = inputs;
        let mut cache: Vec<Matrix> = Vec::new();
        cache.push(current.clone());
        let mut i: usize = 0;
        while i < n - 1
            invariant
                i <= n - 1,
                n == self.layers@.len(),
                self.layers@ == net0.layers,
                self.weights@.len() == net0.weights.len(),
                self.biases@.len() == net0.biases.len(),
                forall|t: int| 0 <= t < self.weights@.len() ==> #[trigger] self.weights@[t]@
                    == net0.weights[t],
                forall|t: int| 0 <= t < self.biases@.len() ==> #[trigger] self.biases@[t]@
                    == net0.biases[t],
                self.data@ == old(self).data@,
                self.activation == net0.activation,
                self.learning_rate == net0.learning_rate,
                net0.wf(),
                current@ == act_at(net0, inputs@, i as int),
                current@.wf(),
                current@.rows == net0.layers[i as int],
                current@.cols == 1,
                cache@.len() == i + 1,
                forall|t: int| 0 <= t <= i ==> #[trigger] cache@[t]@ == act_at(
                    net0,
                    inputs@,
                    t,
                ),
                forall|t: int| 0 <= t <= i ==> (#[trigger] cache@[t]@).wf()
                    && cache@[t]@.rows == net0.layers[t] && cache@[t]@.cols == 1,
            decreases n - 1 - i,
        {
            let prod = match self.weights[i].dot_multiply(&current) {
                Ok(m) => m,
                Err(e) => {
                    proof {
                        assert(false);
                    }
                    return Err(e);
                },
            };
            let summed = match prod.add(&self.biases[i]) {
                Ok(m) => m,
                Err(e) => {
                    proof {
                        assert(false);
                    }
                    return Err(e);
                },
            };
            current = summed.map(&ScalarOp::Act(self.activation));
            cache.push(current.clone());
            i += 1;
        }
        self.data = cache;
        proof {
            assert(self@.weights =~= net0.weights);
            assert(self@.biases =~= net0.biases);
            assert(self@.data =~= ff_data(net0, inputs@));
            assert(self@ =~= ff_applied(net0, inputs@));
        }
        Ok(current)
    }

    /// One backpropagation pass against the cache the immediately
    /// preceding forward pass left behind. `outputs` must be that pass's
    /// result; `targets` must be a column of the same shape, otherwise the
    /// call fails with the shapes in the fault and changes nothing. On
    /// success the weights and biases are exactly those of the
    /// backpropagation model; the shapes never change.
    pub fn back_propogate(&mut self, outputs: Matrix, targets: Matrix) -> (r: Result<
        (),
        NnError,
    >)
        requires
            old(self)@.wf(),
            old(self)@.cache_wf(),
            outputs@.wf(),
            targets@.wf(),
            outputs@.rows == old(self)@.layers[old(self)@.layers.len() - 1],
            outputs@.cols == 1,
        ensures
            final(self)@.wf(),
            r is Ok <==> (targets@.rows == outputs@.rows && targets@.cols == 1),
            r matches Ok(u) ==> final(self)@ == bp_applied(old(self)@, outputs@, targets@)
                && final(self)@.cache_wf(),
            r is Err ==> *final(self) == *old(self),
            r matches Err(e) ==> e == (NnError::DimensionMismatch {
                left_rows: targets@.rows as usize,
                left_cols: targets@.cols as usize,
                right_rows: outputs@.rows as usize,
                right_cols: outputs@.cols as usize,
            }),
    {
        if targets.rows != outputs.rows || targets.cols != 1 {
            return Err(NnError::DimensionMismatch {
                left_rows: targets.rows,
                left_cols: targets.cols,
                right_rows: outputs.rows,
                right_cols: outputs.cols,
            });
        }
        let ghost net0 = old(self)@;
        let n = self.layers.len();
        let mut errors = match targets.subtract(&outputs) {
            Ok(m) => m,
            Err(e) => {
                proof {
                    assert(false);
                }
                return Err(e);
            },
        };
        let mut gradients = outputs.map(&ScalarOp::ActDeriv(self.activation));
        let mut j: usize = 0;
        while j < n - 1
            invariant
                j <= n - 1,
                n == self.layers@.len(),
                self.layers@ == net0.layers,
                self.data@.len() == net0.data.len(),
                forall|t: int| 0 <= t < self.data@.len() ==> #[trigger] self.data@[t]@
                    == net0.data[t],
                self.activation == net0.activation,
                self.learning_rate == net0.learning_rate,
                net0.wf(),
                net0.cache_wf(),
                outputs@.rows == net0.layers[net0.layers.len() - 1],
                outputs@.cols == 1,
                targets@.rows == outputs@.rows,
                targets@.cols == 1,
                self.weights@.len() == net0.weights.len(),
                self.biases@.len() == net0.biases.len(),
                ({
                    let s = bp_after(net0, outputs@, targets@, j as int);
                    &&& s.weights.len() == net0.weights.len()
                    &&& s.biases.len() == net0.biases.len()
                    &&& errors@ == s.errors
                    &&& gradients@ == s.gradients
                    &&& errors@.wf() && errors@.rows == net0.layers[n - 1 - j] && errors@.cols
                        == 1
                    &&& gradients@.wf() && gradients@.rows == net0.layers[n - 1 - j]
                        && gradients@.cols == 1
                    &&& forall|t: int| 0 <= t < self.weights@.len()
                        ==> #[trigger] self.weights@[t]@ == s.weights[t]
                    &&& forall|t: int| 0 <= t < self.biases@.len()
                        ==> #[trigger] self.biases@[t]@ == s.biases[t]
                    &&& forall|t: int| 0 <= t < s.weights.len() ==> (#[trigger] s.weights[t]).wf()
                        && s.weights[t].rows == net0.layers[t + 1] && s.weights[t].cols
                        == net0.layers[t]
                    &&& forall|t: int| 0 <= t < s.biases.len() ==> (#[trigger] s.biases[t]).wf()
                        && s.biases[t].rows == net0.layers[t + 1] && s.biases[t].cols == 1
                }),
            decreases n - 1 - j,
        {
            let i = n - 2 - j;
            let scaled = match gradients.elementwise_multiply(&errors) {
                Ok(m) => m,
                Err(e) => {
                    proof {
                        assert(false);
                    }
                    return Err(e);
                },
            };
            let g = scaled.map(&ScalarOp::Scale(self.learning_rate));
            let wt = self.weights[i].transpose();
            let next_errors = match wt.dot_multiply(&errors) {
                Ok(m) => m,
                Err(e) => {
                    proof {
                        assert(false);
                    }
                    return Err(e);
                },
            };
            let dt = self.data[i].transpose();
            let dw = match g.dot_multiply(&dt) {
                Ok(m) => m,
                Err(e) => {
                    proof {
                        assert(false);
                    }
                    return Err(e);
                },
            };
            let new_w = match self.weights[i].add(&dw) {
                Ok(m) => m,
                Err(e) => {
                    proof {
                        assert(false);
                    }
                    return Err(e);
                },
            };
            let new_b = match self.biases[i].add(&g) {
                Ok(m) => m,
                Err(e) => {
                    proof {
                        assert(false);
                    }
                    return Err(e);
                },
            };
            self.weights[i] = new_w;
            self.biases[i] = new_b;
            errors = next_errors;
            gradients = self.data[i].map(&ScalarOp::ActDeriv(self.activation));
            j += 1;
            proof {
                let s_prev = bp_after(net0, outputs@, targets@, j as int - 1);
                let s = bp_after(net0, outputs@, targets@, j as int);
                assert(s.weights =~= s_prev.weights.update(
                    i as int,
                    add_model(
                        s_prev.weights[i as int],
                        matmul_model(
                            map_model(
                                ScalarOp::Scale(net0.learning_rate),
                                emul_model(s_prev.gradients, s_prev.errors),
                            ),
                            transpose_model(net0.data[i as int]),
                        ),
                    ),
                ));
            }
        }
        proof {
            let s = bp_after(net0, outputs@, targets@, n as int - 1);
            assert(self@.weights =~= s.weights);
            assert(self@.biases =~= s.biases);
            assert(self@.data =~= net0.data);
            assert(self@.layers =~= net0.layers);
            assert(self@ =~= bp_applied(net0, outputs@, targets@));
        }
        Ok(())
    }

    /// All layer activations cached by the most recent forward pass, one
    /// vector per layer, the input first.
    pub fn get_activations(&self) -> (r: Vec<Vec<u64>>)
        ensures
            r@.len() == self@.data.len(),
            forall|i: int| 0 <= i < r@.len() ==> #[trigger] r@[i]@ == self@.data[i].data,
    {
        let mut out: Vec<Vec<u64>> = Vec::new();
        let mut i: usize = 0;
        while i < self.data.len()
            invariant
                i <= self.data@.len(),
                out@.len() == i,
                forall|t: int| 0 <= t < i ==> #[trigger] out@[t]@ == self@.data[t].data,
            decreases self.data@.len() - i,
        {
            let m = self.data[i].clone();
            out.push(m.data);
            i += 1;
        }
        out
    }

    /// The scalar buffers of the weight matrices, one flat row-major
    /// vector per layer pair.
    pub fn get_weights(&self) -> (r: Vec<Vec<u64>>)
        ensures
            r@.len() == self@.weights.len(),
            forall|i: int| 0 <= i < r@.len() ==> #[trigger] r@[i]@ == self@.weights[i].data,
    {
        let mut out: Vec<Vec<u64>> = Vec::new();
        let mut i: usize = 0;
        while i < self.weights.len()
            invariant
                i <= self.weights@.len(),
                out@.len() == i,
                forall|t: int| 0 <= t < i ==> #[trigger] out@[t]@ == self@.weights[t].data,
            decreases self.weights@.len() - i,
        {
            let m = self.weights[i].clone();
            out.push(m.data);
            i += 1;
        }
        out
    }

    /// The shape of every weight matrix, as (rows, cols) pairs.
    pub fn get_weight_shapes(&self) -> (r: Vec<(usize, usize)>)
        ensures
            r@.len() == self@.weights.len(),
            forall|i: int| 0 <= i < r@.len() ==> #[trigger] r@[i] == (
                self@.weights[i].rows as usize,
                self@.weights[i].cols as usize,
            ),
    {
        let mut out: Vec<(usize, usize)> = Vec::new();
        let mut i: usize = 0;
        while i < self.weights.len()
            invariant
                i <= self.weights@.len(),
                out@.len() == i,
                forall|t: int| 0 <= t < i ==> #[trigger] out@[t] == (
                    self@.weights[t].rows as usize,
                    self@.weights[t].cols as usize,
                ),
            decreases self.weights@.len() - i,
        {
            out.push((self.weights[i].rows, self.weights[i].cols));
            i += 1;
        }
        out
    }

    /// Per-sample stochastic training: for each of `epochs` epochs, every
    /// sample pair is fed forward and backpropagated in order, with no
    /// shuffling and no batching. The sample list is validated up front:
    /// on a shape mismatch the call fails with a dimension fault and the
    /// network is left exactly as it was. On success the network is
    /// exactly the training model of its starting state.
    pub fn train(&mut self, inputs: Vec<Vec<u64>>, targets: Vec<Vec<u64>>, epochs: u32) -> (r:
        Result<(), NnError>)
        requires
            old(self)@.wf(),
        ensures
            final(self)@.wf(),
            final(self)@.layers == old(self)@.layers,
            r is Ok <==> samples_fit(old(self)@, rows_view(inputs@), rows_view(targets@)),
            r matches Ok(u) ==> final(self)@ == train_model(
                old(self)@,
                rows_view(inputs@),
                rows_view(targets@),
                epochs as int,
            ),
            r is Err ==> *final(self) == *old(self),
            r matches Err(e) ==> e is DimensionMismatch,
    {
        let ghost net0 = old(self)@;
        let ghost iv = rows_view(inputs@);
        let ghost tv = rows_view(targets@);
        if inputs.len() != targets.len() {
            return Err(NnError::DimensionMismatch {
                left_rows: inputs.len(),
                left_cols: 1,
                right_rows: targets.len(),
                right_cols: 1,
            });
        }
        let in_dim = self.layers[0];
        let out_dim = self.layers[self.layers.len() - 1];
        let mut j: usize = 0;
        while j < inputs.len()
            invariant
                j <= inputs@.len(),
                in_dim == net0.layers[0],
                out_dim == net0.layers[net0.layers.len() - 1],
                inputs@.len() == targets@.len(),
                forall|t: int| 0 <= t < j ==> (#[trigger] iv[t]).len() == net0.layers[0],
                forall|t: int| 0 <= t < j ==> (#[trigger] tv[t]).len() == net0.layers[
                    net0.layers.len() - 1
                ],
            decreases inputs@.len() - j,
        {
            if inputs[j].len() != in_dim {
                proof {
                    assert(rows_view(inputs@)[j as int] == inputs@[j as int]@);
                    assert(!samples_fit(net0, iv, tv));
                }
                return Err(NnError::DimensionMismatch {
                    left_rows: in_dim,
                    left_cols: 1,
                    right_rows: inputs[j].len(),
                    right_cols: 1,
                });
            }
            if targets[j].len() != out_dim {
                proof {
                    assert(rows_view(targets@)[j as int] == targets@[j as int]@);
                    assert(!samples_fit(net0, iv, tv));
                }
                return Err(NnError::DimensionMismatch {
                    left_rows: out_dim,
                    left_cols: 1,
                    right_rows: targets[j].len(),
                    right_cols: 1,
                });
            }
            j += 1;
        }
        let mut ep: u32 = 0;
        while ep < epochs
            invariant
                ep <= epochs,
                self@.wf(),
                self@.layers == net0.layers,
                samples_fit(net0, iv, tv),
                self@ == train_model(net0, iv, tv, ep as int),
                inputs@.len() == targets@.len(),
            decreases epochs - ep,
        {
            let mut k: usize = 0;
            while k < inputs.len()
                invariant
                    k <= inputs@.len(),
                    self@.wf(),
                    self@.layers == net0.layers,
                    samples_fit(net0, iv, tv),
                    ep < epochs,
                    inputs@.len() == targets@.len(),
                    self@ == epoch_at(train_model(net0, iv, tv, ep as int), iv, tv, k as int),
                decreases inputs@.len() - k,
            {
                let x = Matrix::from(crate::matrix::copy_scalars(&inputs[k]));
                let ghost before = self@;
                let out = match self.feed_forward(x) {
                    Ok(o) => o,
                    Err(e) => {
                        proof {
                            assert(false);
                        }
                        return Err(e);
                    },
                };
                let t = Matrix::from(crate::matrix::copy_scalars(&targets[k]));
                match self.back_propogate(out, t) {
                    Ok(u) => u,
                    Err(e) => {
                        proof {
                            assert(false);
                        }
                        return Err(e);
                    },
                };
                proof {
                    assert(self@ =~= sample_step(before, iv[k as int], tv[k as int]));
                }
                k += 1;
            }
            ep += 1;
        }
        Ok(())
    }

    /// The total number of parameters: every weight scalar and every bias
    /// scalar, exactly [`params_model`] of the network.
    pub fn parameter_count(&self) -> (r: usize)
        requires
            params_model(self@, self@.weights.len() as int) <= usize::MAX,
            self@.weights.len() == self@.biases.len(),
        ensures
            r == params_model(self@, self@.weights.len() as int),
    {
        let n = self.weights.len();
        let mut total: usize = 0;
        let mut i: usize = 0;
        while i < n
            invariant
                i <= n,
                n == self@.weights.len(),
                n == self@.biases.len(),
                params_model(self@, n as int) <= usize::MAX,
                total == params_model(self@, i as int),
            decreases n - i,
        {
            proof {
                lemma_params_mono(self@, i as int + 1, n as int);
            }
            total = total + self.weights[i].data.len();
            total = total + self.biases[i].data.len();
            i += 1;
        }
        total
    }

    /// A value copy of a list of sample rows.
    pub fn copy_rows(v: &Vec<Vec<u64>>) -> (r: Vec<Vec<u64>>)
        ensures
            r@.len() == v@.len(),
            forall|i: int| 0 <= i < v@.len() ==> #[trigger] r@[i]@ == v@[i]@,
            rows_view(r@) == rows_view(v@),
    {
        let mut out: Vec<Vec<u64>> = Vec::new();
        let mut k: usize = 0;
        while k < v.len()
            invariant
                k <= v@.len(),
                out@.len() == k,
                forall|t: int| 0 <= t < k ==> #[trigger] out@[t]@ == v@[t]@,
            decreases v@.len() - k,
        {
            out.push(crate::matrix::copy_scalars(&v[k]));
            k += 1;
        }
        proof {
            assert(rows_view(out@) =~= rows_view(v@));
        }
        out
    }

    /// The coarse progress cadence of the epoch loop: every epoch
    /// when fewer than one hundred are requested, else every
    /// `epochs / 100`-th epoch.
    pub fn should_log_epoch(i: u32, epochs: u32) -> (r: bool)
        ensures
            r == (epochs < 100 || i % (epochs / 100) == 0),
    {
        if epochs < 100 {
            true
        } else {
            i % (epochs / 100) == 0
        }
    }
}

/// For every acceptable architecture, construction hands weight matrix
/// `i` the shape `layers[i+1] x layers[i]` and bias column `i` the shape
/// `layers[i+1] x 1`; the counts match the layer pairs. This is exactly
/// what the well-formedness every constructor establishes says of the
/// shapes.
pub proof fn lemma_construction_shapes(net: NetModel)
    requires
        net.wf(),
    ensures
        net.weights.len() == net.layers.len() - 1,
        net.biases.len() == net.layers.len() - 1,
        forall|i: int| 0 <= i < net.layers.len() - 1 ==> (#[trigger] net.weights[i]).rows
            == net.layers[i + 1] && net.weights[i].cols == net.layers[i],
        forall|i: int| 0 <= i < net.layers.len() - 1 ==> (#[trigger] net.biases[i]).rows
            == net.layers[i + 1] && net.biases[i].cols == 1,
{
}

/// Seeded construction is deterministic: the same architecture,
/// activation, learning rate and seed always describe one network, bit
/// for bit, so two networks built from them are identical.
pub proof fn lemma_seeded_deterministic(
    a: NetModel,
    b: NetModel,
    layers: Seq<usize>,
    activation: Activation,
    learning_rate: u64,
    seed: u64,
)
    requires
        a == seeded_model(layers, activation, learning_rate, seed),
        b == seeded_model(layers, activation, learning_rate, seed),
    ensures
        a == b,
{
}

/// The number of scalars in the first `i` weight matrices and the first
/// `i` bias columns.
pub open spec fn params_model(net: NetModel, i: int) -> nat
    decreases i,
{
    if i <= 0 {
        0
    } else {
        params_model(net, i - 1) + net.weights[i - 1].data.len() + net.biases[i - 1].data.len()
    }
}

/// Adding more layer pairs never shrinks the parameter count.
pub proof fn lemma_params_mono(net: NetModel, i: int, j: int)
    requires
        0 <= i <= j,
    ensures
        params_model(net, i) <= params_model(net, j),
    decreases j,
{
    if j > i {
        lemma_params_mono(net, i, j - 1);
    }
}

/// The persisted part of a network model, with the transient cache
/// dropped; forward and training results never depend on the cache a
/// network starts with.
pub open spec fn strip_cache(net: NetModel) -> NetModel {
    NetModel { data: Seq::empty(), ..net }
}

/// The forward pass reads only the persisted part of a network: two
/// networks that agree outside the transient cache produce the same
/// activations.
pub proof fn lemma_act_frame(a: NetModel, b: NetModel, x: MatModel, i: int)
    requires
        strip_cache(a) == strip_cache(b),
    ensures
        act_at(a, x, i) == act_at(b, x, i),
    decreases i,
{
    assert(a.weights == strip_cache(a).weights);
    assert(a.biases == strip_cache(a).biases);
    assert(a.activation == strip_cache(a).activation);
    if i > 0 {
        lemma_act_frame(a, b, x, i - 1);
    }
}

/// One training sample reads only the persisted part of a network: two
/// networks that agree outside the transient cache step to the same
/// network, cache included, because the forward pass overwrites the cache
/// before backpropagation consumes it.
pub proof fn lemma_sample_frame(a: NetModel, b: NetModel, x: Seq<u64>, t: Seq<u64>)
    requires
        strip_cache(a) == strip_cache(b),
    ensures
        sample_step(a, x, t) == sample_step(b, x, t),
{
    assert(a.layers == strip_cache(a).layers);
    assert forall|i: int| act_at(a, colvec_model(x), i) == act_at(
        b,
        colvec_model(x),
        i,
    ) by {
        lemma_act_frame(a, b, colvec_model(x), i);
    }
    assert(ff_data(a, colvec_model(x)) =~= ff_data(b, colvec_model(x)));
    assert(ff_applied(a, colvec_model(x)) =~= ff_applied(b, colvec_model(x)));
}

/// Every sample step keeps the layer sizes; so does a whole epoch.
pub proof fn lemma_epoch_layers(
    net: NetModel,
    inputs: Seq<Seq<u64>>,
    targets: Seq<Seq<u64>>,
    j: int,
)
    ensures
        epoch_at(net, inputs, targets, j).layers == net.layers,
    decreases j,
{
    if j > 0 {
        lemma_epoch_layers(net, inputs, targets, j - 1);
    }
}

/// Training never changes the layer sizes.
pub proof fn lemma_train_layers(
    net: NetModel,
    inputs: Seq<Seq<u64>>,
    targets: Seq<Seq<u64>>,
    e: int,
)
    ensures
        train_model(net, inputs, targets, e).layers == net.layers,
    decreases e,
{
    if e > 0 {
        lemma_train_layers(net, inputs, targets, e - 1);
        lemma_epoch_layers(
            train_model(net, inputs, targets, e - 1),
            inputs,
            targets,
            inputs.len() as int,
        );
    }
}

/// A whole epoch reads only the persisted part of its starting network.
pub proof fn lemma_epoch_frame(
    a: NetModel,
    b: NetModel,
    inputs: Seq<Seq<u64>>,
    targets: Seq<Seq<u64>>,
    j: int,
)
    requires
        strip_cache(a) == strip_cache(b),
    ensures
        strip_cache(epoch_at(a, inputs, targets, j)) == strip_cache(epoch_at(b, inputs, targets, j)),
        j > 0 ==> epoch_at(a, inputs, targets, j) == epoch_at(b, inputs, targets, j),
    decreases j,
{
    if j > 0 {
        lemma_epoch_frame(a, b, inputs, targets, j - 1);
        if j == 1 {
            lemma_sample_frame(a, b, inputs[0], targets[0]);
        }
    }
}

} // verus!
