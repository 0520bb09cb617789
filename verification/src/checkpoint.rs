//! A persisted snapshot of a network plus training metadata.
//!
//! A checkpoint carries exactly the persisted state of the engine: the
//! architecture, weight and bias matrices, activation identifier and
//! learning rate, together with the metadata of the run that produced it.
//! The transient forward-pass cache is never part of a checkpoint. Reading
//! a checkpoint back validates every structural invariant; a wrong length
//! or shape is a [`NnError::CheckpointFormat`] fault, never a silent
//! reshape.

use vstd::prelude::*;
use crate::activation::Activation;
use crate::error::NnError;
use crate::matrix::{Matrix, MatModel};
use crate::network::{Network, NetModel, layers_ok, strip_cache};

verus! {

/// Training metadata of the run that produced a checkpoint. `epoch` and
/// `total_epochs` describe only the most recent run, not a cumulative
/// count across resumes.
#[derive(Debug)]
pub struct CheckpointMetadata {
    pub example: String,
    pub epoch: u32,
    pub total_epochs: u32,
    pub learning_rate: u64,
}

/// A serializable snapshot of a network plus metadata. The network held
/// here always has an empty transient cache.
#[derive(Debug)]
pub struct Checkpoint {
    pub metadata: CheckpointMetadata,
    pub network: Network,
}

/// A value copy of a list of matrices.
pub fn copy_matrices(v: &Vec<Matrix>) -> (r: Vec<Matrix>)
    ensures
        r@.len() == v@.len(),
        forall|i: int| 0 <= i < v@.len() ==> #[trigger] r@[i]@ == v@[i]@,
{
    let mut out: Vec<Matrix> = Vec::new();
    let mut i: usize = 0;
    while i < v.len()
        invariant
            i <= v@.len(),
            out@.len() == i,
            forall|t: int| 0 <= t < i ==> #[trigger] out@[t]@ == v@[t]@,
        decreases v@.len() - i,
    {
        out.push(v[i].clone());
        i += 1;
    }
    out
}

impl Checkpoint {
    /// Builds the checkpoint of a network: a value copy of its persisted
    /// state with an empty cache, under the given run metadata.
    pub fn of_network(net: &Network, example: String, epoch: u32, total_epochs: u32) -> (r:
        Checkpoint)
        ensures
            r.network@ == strip_cache(net@),
            r.metadata.example == example,
            r.metadata.epoch == epoch,
            r.metadata.total_epochs == total_epochs,
            r.metadata.learning_rate == net@.learning_rate,
    {
        let snapshot = Network {
            layers: crate::matrix::copy_usizes(&net.layers),
            weights: copy_matrices(&net.weights),
            biases: copy_matrices(&net.biases),
            data: Vec::new(),
            activation: net.activation,
            learning_rate: net.learning_rate,
        };
        proof {
            assert(snapshot@.layers =~= net@.layers);
            assert(snapshot@.weights =~= net@.weights);
            assert(snapshot@.biases =~= net@.biases);
            assert(snapshot@.data =~= Seq::<MatModel>::empty());
            assert(snapshot@ =~= strip_cache(net@));
        }
        Checkpoint {
            metadata: CheckpointMetadata {
                example,
                epoch,
                total_epochs,
                learning_rate: net.learning_rate,
            },
            network: snapshot,
        }
    }

    /// Whether the snapshot is structurally sound: at least two layers,
    /// each of size at least one, one weight and one bias matrix per layer
    /// pair, every matrix of the shape the layer sizes dictate, and every
    /// buffer of exactly `rows * cols` scalars.
    pub open spec fn valid_spec(&self) -> bool {
        self.network@.wf()
    }

    /// Checks [`Checkpoint::valid_spec`].
    pub fn validate(&self) -> (r: bool)
        ensures
            r == self.valid_spec(),
    {
        if !Network::check_layers(&self.network.layers) {
            return false;
        }
        let n = self.network.layers.len();
        if self.network.weights.len() != n - 1 || self.network.biases.len() != n - 1 {
            return false;
        }
        let mut i: usize = 0;
        while i < n - 1
            invariant
                i <= n - 1,
                n == self.network.layers@.len(),
                layers_ok(self.network.layers@),
                self.network.weights@.len() == n - 1,
                self.network.biases@.len() == n - 1,
                forall|t: int| 0 <= t < i ==> (#[trigger] self.network@.weights[t]).wf()
                    && self.network@.weights[t].rows == self.network@.layers[t + 1]
                    && self.network@.weights[t].cols == self.network@.layers[t],
                forall|t: int| 0 <= t < i ==> (#[trigger] self.network@.biases[t]).wf()
                    && self.network@.biases[t].rows == self.network@.layers[t + 1]
                    && self.network@.biases[t].cols == 1,
            decreases n - 1 - i,
        {
            let w = &self.network.weights[i];
            let b = &self.network.biases[i];
            let wlen = w.data.len();
            let blen = b.data.len();
            if w.rows != self.network.layers[i + 1] || w.cols != self.network.layers[i] {
                proof {
                    assert(!(self.network@.weights[i as int].rows == self.network@.layers[
                        i + 1
                    ] && self.network@.weights[i as int].cols == self.network@.layers[i as int]));
                }
                return false;
            }
            let expected = w.rows.checked_mul(w.cols);
            match expected {
                Some(e) => {
                    if wlen != e {
                        proof {
                            assert(!self.network@.weights[i as int].wf());
                        }
                        return false;
                    }
                },
                None => {
                    proof {
                        assert(wlen <= usize::MAX);
                        assert(!self.network@.weights[i as int].wf());
                    }
                    return false;
                },
            }
            if b.rows != self.network.layers[i + 1] || b.cols != 1 {
                proof {
                    assert(!(self.network@.biases[i as int].rows == self.network@.layers[i + 1]
                        && self.network@.biases[i as int].cols == 1));
                }
                return false;
            }
            if blen != b.rows {
                proof {
                    assert(!self.network@.biases[i as int].wf());
                }
                return false;
            }
            proof {
                assert(self.network@.weights[i as int] == w@);
                assert(w@.rows * w@.cols <= usize::MAX);
                assert(wlen == w@.rows * w@.cols);
                assert(self.network@.weights[i as int].wf());
                assert(self.network@.biases[i as int] == b@);
                assert(blen == b@.rows * b@.cols);
                assert(self.network@.biases[i as int].wf());
            }
            i += 1;
        }
        true
    }

    /// Reconstructs a network from the snapshot: exactly the persisted
    /// state, with an empty transient cache. Fails with
    /// [`NnError::CheckpointFormat`] exactly when the snapshot is
    /// structurally unsound.
    pub fn to_network(&self) -> (r: Result<Network, NnError>)
        ensures
            r is Ok <==> self.valid_spec(),
            r matches Ok(n) ==> n@ == strip_cache(self.network@) && n@.wf(),
            r matches Err(e) ==> e == NnError::CheckpointFormat,
    {
        if !self.validate() {
            return Err(NnError::CheckpointFormat);
        }
        let n = Network {
            layers: crate::matrix::copy_usizes(&self.network.layers),
            weights: copy_matrices(&self.network.weights),
            biases: copy_matrices(&self.network.biases),
            data: Vec::new(),
            activation: self.network.activation,
            learning_rate: self.network.learning_rate,
        };
        proof {
            assert(n@.layers =~= self.network@.layers);
            assert(n@.weights =~= self.network@.weights);
            assert(n@.biases =~= self.network@.biases);
            assert(n@.data =~= Seq::<MatModel>::empty());
            assert(n@ =~= strip_cache(self.network@));
        }
        Ok(n)
    }
}

/// The checkpoint round trip: snapshotting a well-formed network and
/// reading the snapshot back yields exactly the original architecture,
/// weights, biases, activation and learning rate, bit for bit; only the
/// transient cache is dropped. Together with the contracts of
/// [`Checkpoint::of_network`] and [`Checkpoint::to_network`], this law
/// says the reconstruction is owed (the snapshot of a well-formed network
/// always validates) and exact.
pub proof fn lemma_checkpoint_round_trip(net: NetModel)
    requires
        net.wf(),
    ensures
        strip_cache(net).wf(),
        strip_cache(strip_cache(net)) == strip_cache(net),
        strip_cache(net).layers == net.layers,
        strip_cache(net).weights == net.weights,
        strip_cache(net).biases == net.biases,
        strip_cache(net).activation == net.activation,
        strip_cache(net).learning_rate == net.learning_rate,
{
    assert(strip_cache(strip_cache(net)) =~= strip_cache(net));
}

} // verus!
