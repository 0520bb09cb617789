//! The training controller: it owns one network for the duration of a run,
//! drives the epoch loop, reports a loss per epoch, decides when a
//! checkpoint is due, and supports resuming from a prior checkpoint.
//!
//! The controller itself performs no input or output: it hands back
//! progress records and checkpoint values, and the surrounding program
//! writes files or invokes observers with them.

use vstd::prelude::*;
use vstd::string::StringExecFns;
use crate::checkpoint::Checkpoint;
use crate::error::NnError;
use crate::matrix::Matrix;
use crate::network::{
    Network, NetModel, act_at, colvec_model, epoch_at, rows_view, samples_fit, strip_cache,
    train_model, lemma_act_frame, lemma_epoch_frame, lemma_train_layers,
};
use crate::scalar::{add_scalar, sub_scalar, mul_scalar, div_scalar, scalar_of_int};
use crate::scalar::{sum_bits, diff_bits, prod_bits, quot_bits, float_of_int, B_ZERO};

verus! {

/// Immutable settings of one training run.
#[derive(Debug)]
pub struct TrainingConfig {
    pub epochs: u32,
    pub checkpoint_interval: Option<u32>,
    pub checkpoint_path: Option<String>,
    pub verbose: bool,
    pub example_name: Option<String>,
}

/// One progress observation: the 1-based epoch and the loss after it.
#[derive(Clone, Copy, Debug)]
pub struct ProgressRecord {
    pub epoch: u32,
    pub loss: u64,
}

/// The squared-error sum of the first `n` components of a target and an
/// output column, accumulated in index order from +0.0.
pub open spec fn sq_sum(t: Seq<u64>, o: Seq<u64>, n: int) -> u64
    decreases n,
{
    if n <= 0 {
        B_ZERO
    } else {
        sum_bits(
            sq_sum(t, o, n - 1),
            prod_bits(diff_bits(t[n - 1], o[n - 1]), diff_bits(t[n - 1], o[n - 1])),
        )
    }
}

/// The squared-error total of the first `j` samples, each evaluated by a
/// forward pass of `net` (which must already carry no transient cache).
pub open spec fn total_sq(
    net: NetModel,
    inputs: Seq<Seq<u64>>,
    targets: Seq<Seq<u64>>,
    j: int,
) -> u64
    decreases j,
{
    if j <= 0 {
        B_ZERO
    } else {
        sum_bits(
            total_sq(net, inputs, targets, j - 1),
            sq_sum(
                targets[j - 1],
                act_at(net, colvec_model(inputs[j - 1]), net.layers.len() - 1).data,
                targets[j - 1].len() as int,
            ),
        )
    }
}

/// The mean squared error of a network over a sample list: the total
/// squared error of every component, divided by the number of samples.
/// It depends only on the persisted part of the network.
pub open spec fn loss_model(net: NetModel, inputs: Seq<Seq<u64>>, targets: Seq<Seq<u64>>) -> u64 {
    quot_bits(
        total_sq(strip_cache(net), inputs, targets, inputs.len() as int),
        float_of_int(inputs.len() as i128),
    )
}

/// Whether a checkpoint is due after the given 1-based epoch: only when an
/// interval is configured, positive, and divides the epoch.
pub open spec fn interval_hits(interval: Option<u32>, epoch: u32) -> bool {
    match interval {
        Some(n) => n > 0 && epoch % n == 0,
        None => false,
    }
}

/// Computes the mean squared error of the network over the samples by one
/// forward pass per sample; only the transient cache of the network
/// changes.
fn epoch_loss(net: &mut Network, inputs: &Vec<Vec<u64>>, targets: &Vec<Vec<u64>>) -> (r: u64)
    requires
        old(net)@.wf(),
        samples_fit(old(net)@, rows_view(inputs@), rows_view(targets@)),
    ensures
        final(net)@.wf(),
        strip_cache(final(net)@) == strip_cache(old(net)@),
        r == loss_model(old(net)@, rows_view(inputs@), rows_view(targets@)),
{
    let ghost net0 = old(net)@;
    let ghost iv = rows_view(inputs@);
    let ghost tv = rows_view(targets@);
    proof {
        assert(strip_cache(strip_cache(net0)) =~= strip_cache(net0));
    }
    let mut acc: u64 = B_ZERO;
    let mut j: usize = 0;
    while j < inputs.len()
        invariant
            j <= inputs@.len(),
            net@.wf(),
            strip_cache(net@) == strip_cache(net0),
            samples_fit(net0, iv, tv),
            samples_fit(net@, iv, tv),
            acc == total_sq(strip_cache(net0), iv, tv, j as int),
        decreases inputs@.len() - j,
    {
        proof {
            assert(iv[j as int] == inputs@[j as int]@);
            assert(tv[j as int] == targets@[j as int]@);
        }
        let x = Matrix::from(crate::matrix::copy_scalars(&inputs[j]));
        let ghost before = net@;
        let out = match net.feed_forward(x) {
            Ok(o) => o,
            Err(e) => {
                proof {
                    assert(false);
                }
                return B_ZERO;
            },
        };
        proof {
            lemma_act_frame(before, strip_cache(net0), colvec_model(iv[j as int]),
                net0.layers.len() - 1);
            assert(out@.data == act_at(
                strip_cache(net0),
                colvec_model(iv[j as int]),
                strip_cache(net0).layers.len() - 1,
            ).data);
        }
        let trow = &targets[j];
        let mut sq: u64 = B_ZERO;
        let mut k: usize = 0;
        while k < trow.len()
            invariant
                k <= trow@.len(),
                trow@ == tv[j as int],
                trow@.len() == out@.data.len(),
                sq == sq_sum(tv[j as int], out@.data, k as int),
            decreases trow@.len() - k,
        {
            let d = sub_scalar(trow[k], out.data[k]);
            sq = add_scalar(sq, mul_scalar(d, d));
            k += 1;
        }
        acc = add_scalar(acc, sq);
        j += 1;
    }
    div_scalar(acc, scalar_of_int(inputs.len() as i128))
}

/// The training controller. It takes a network by value at construction
/// and relinquishes it by value through [`TrainingController::into_network`];
/// no other component mutates the network while a run is in progress.
#[derive(Debug)]
pub struct TrainingController {
    pub network: Network,
    pub config: TrainingConfig,
    /// How many epochs this controller has completed so far.
    pub epochs_done: u32,
}

impl TrainingController {
    /// Takes ownership of a network under the given settings; no epoch has
    /// run yet.
    pub fn new(network: Network, config: TrainingConfig) -> (r: TrainingController)
        ensures
            r.network == network,
            r.config == config,
            r.epochs_done == 0,
    {
        TrainingController { network, config, epochs_done: 0 }
    }

    /// Ends the controller's ownership: the trained network, by value.
    pub fn into_network(self) -> (r: Network)
        ensures
            r == self.network,
    {
        self.network
    }

    /// Runs exactly one epoch of per-sample training, then reports the
    /// mean squared error of the epoch's resulting network. On a sample
    /// shape mismatch the controller is left exactly as it was.
    pub fn train_epoch(&mut self, inputs: &Vec<Vec<u64>>, targets: &Vec<Vec<u64>>) -> (r: Result<
        u64,
        NnError,
    >)
        requires
            old(self).network@.wf(),
            old(self).epochs_done < u32::MAX,
        ensures
            final(self).network@.wf(),
            final(self).config == old(self).config,
            r is Ok <==> samples_fit(
                old(self).network@,
                rows_view(inputs@),
                rows_view(targets@),
            ),
            r matches Ok(loss) ==> {
                &&& strip_cache(final(self).network@) == strip_cache(epoch_at(
                    old(self).network@,
                    rows_view(inputs@),
                    rows_view(targets@),
                    inputs@.len() as int,
                ))
                &&& loss == loss_model(
                    final(self).network@,
                    rows_view(inputs@),
                    rows_view(targets@),
                )
                &&& final(self).epochs_done == old(self).epochs_done + 1
            },
            r is Err ==> *final(self) == *old(self),
            r matches Err(e) ==> e is DimensionMismatch,
    {
        let ghost iv = rows_view(inputs@);
        let ghost tv = rows_view(targets@);
        let ic = Network::copy_rows(inputs);
        let tc = Network::copy_rows(targets);
        match self.network.train(ic, tc, 1) {
            Ok(u) => u,
            Err(e) => {
                return Err(e);
            },
        };
        proof {
            assert(train_model(old(self).network@, iv, tv, 0) == old(self).network@);
            assert(train_model(old(self).network@, iv, tv, 1) == epoch_at(
                old(self).network@, iv, tv, iv.len() as int));
        }
        let loss = epoch_loss(&mut self.network, inputs, targets);
        self.epochs_done = self.epochs_done + 1;
        Ok(loss)
    }

    /// Runs the configured number of epochs and reports one progress
    /// record per epoch: the 1-based epoch number and the loss after it,
    /// each pinned to the training model of the starting network. On a
    /// sample shape mismatch nothing has changed; with zero configured
    /// epochs the call succeeds vacuously.
    pub fn train(&mut self, inputs: &Vec<Vec<u64>>, targets: &Vec<Vec<u64>>) -> (r: Result<
        Vec<ProgressRecord>,
        NnError,
    >)
        requires
            old(self).network@.wf(),
            old(self).epochs_done + old(self).config.epochs <= u32::MAX,
        ensures
            final(self).network@.wf(),
            final(self).config == old(self).config,
            r is Ok <==> (old(self).config.epochs == 0 || samples_fit(
                old(self).network@,
                rows_view(inputs@),
                rows_view(targets@),
            )),
            r matches Ok(progress) ==> {
                &&& strip_cache(final(self).network@) == strip_cache(train_model(
                    old(self).network@,
                    rows_view(inputs@),
                    rows_view(targets@),
                    old(self).config.epochs as int,
                ))
                &&& final(self).epochs_done == old(self).epochs_done + old(self).config.epochs
                &&& progress@.len() == old(self).config.epochs
                &&& forall|e: int| 0 <= e < progress@.len()
                    ==> (#[trigger] progress@[e]).epoch == e + 1 && progress@[e].loss
                    == loss_model(
                        train_model(
                            old(self).network@,
                            rows_view(inputs@),
                            rows_view(targets@),
                            e + 1,
                        ),
                        rows_view(inputs@),
                        rows_view(targets@),
                    )
            },
            r is Err ==> *final(self) == *old(self),
            r matches Err(e) ==> e is DimensionMismatch,
    {
        let ghost net0 = old(self).network@;
        let ghost iv = rows_view(inputs@);
        let ghost tv = rows_view(targets@);
        let total = self.config.epochs;
        let mut progress: Vec<ProgressRecord> = Vec::new();
        let mut ep: u32 = 0;
        while ep < total
            invariant
                ep <= total,
                total == old(self).config.epochs,
                self.config == old(self).config,
                self.network@.wf(),
                self.epochs_done == old(self).epochs_done + ep,
                old(self).epochs_done + total <= u32::MAX,
                strip_cache(self.network@) == strip_cache(train_model(net0, iv, tv, ep as int)),
                ep > 0 ==> samples_fit(net0, iv, tv),
                ep == 0 ==> *self == *old(self),
                progress@.len() == ep,
                forall|e: int| 0 <= e < ep ==> (#[trigger] progress@[e]).epoch == e + 1
                    && progress@[e].loss == loss_model(train_model(net0, iv, tv, e + 1), iv, tv),
            decreases total - ep,
        {
            let ghost cur = self.network@;
            let loss = match self.train_epoch(inputs, targets) {
                Ok(l) => l,
                Err(e) => {
                    proof {
                        if ep > 0 {
                            lemma_train_layers(net0, iv, tv, ep as int);
                            assert(cur.layers == net0.layers);
                            assert(samples_fit(cur, iv, tv));
                            assert(false);
                        }
                    }
                    return Err(e);
                },
            };
            proof {
                let m = train_model(net0, iv, tv, ep as int);
                lemma_epoch_frame(cur, m, iv, tv, iv.len() as int);
                assert(train_model(net0, iv, tv, ep as int + 1) == epoch_at(
                    m, iv, tv, iv.len() as int));
                assert(strip_cache(epoch_at(cur, iv, tv, iv.len() as int)) == strip_cache(
                    train_model(net0, iv, tv, ep as int + 1),
                ));
            }
            progress.push(ProgressRecord { epoch: ep + 1, loss });
            ep += 1;
        }
        Ok(progress)
    }

    /// Whether a checkpoint is due after the given 1-based epoch, per the
    /// configured interval.
    pub fn should_checkpoint(&self, epoch: u32) -> (r: bool)
        ensures
            r == interval_hits(self.config.checkpoint_interval, epoch),
    {
        match self.config.checkpoint_interval {
            Some(n) => n > 0 && epoch % n == 0,
            None => false,
        }
    }

    /// The checkpoint of the current network after `epoch` epochs of this
    /// run: the persisted network state with an empty cache, the example
    /// name of the configuration (empty when none is set), and this run's
    /// epoch counts. `epoch` and `total_epochs` describe only this run,
    /// never a cumulative count across resumes.
    pub fn checkpoint_at(&self, epoch: u32) -> (r: Checkpoint)
        ensures
            r.network@ == strip_cache(self.network@),
            r.metadata.epoch == epoch,
            r.metadata.total_epochs == self.config.epochs,
            r.metadata.learning_rate == self.network@.learning_rate,
            self.config.example_name matches Some(s) ==> r.metadata.example@ == s@,
            self.config.example_name is None ==> r.metadata.example@ == Seq::<char>::empty(),
    {
        let example: String = match &self.config.example_name {
            Some(s) => String::from_str(s.as_str()),
            None => String::from_str(""),
        };
        proof {
            reveal_strlit("");
            if self.config.example_name is None {
                assert(""@ =~= Seq::<char>::empty());
            }
        }
        Checkpoint::of_network(&self.network, example, epoch, self.config.epochs)
    }

    /// Rebuilds a controller from a prior checkpoint: the network is
    /// restored exactly (with an empty transient cache) and training
    /// continues under the new settings. Fails with
    /// [`NnError::CheckpointFormat`] exactly when the snapshot is
    /// structurally unsound.
    pub fn resume(cp: &Checkpoint, config: TrainingConfig) -> (r: Result<
        TrainingController,
        NnError,
    >)
        ensures
            r is Ok <==> cp.valid_spec(),
            r matches Ok(c) ==> c.network@ == strip_cache(cp.network@) && c.network@.wf()
                && c.config == config && c.epochs_done == 0,
            r matches Err(e) ==> e == NnError::CheckpointFormat,
    {
        let network = match cp.to_network() {
            Ok(n) => n,
            Err(e) => {
                return Err(e);
            },
        };
        Ok(TrainingController { network, config, epochs_done: 0 })
    }
}

} // verus!
