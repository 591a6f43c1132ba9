//! Layer normalization.

use vstd::prelude::*;
use crate::dtypes::Dtype;
use crate::nn::module::{BuildModule, ResetParams, ToDevice};
use crate::optim::{
    lemma_single_param, lemma_update_in_turn, report_unused, GradientUpdate, ParamUpdater,
    UnusedTensors,
};
use crate::shapes::Rank1;
use crate::tensor::ndarray::ArrayView;
use crate::tensor::storage_traits::{DeviceStorage, OnesTensor, ZerosTensor};
use crate::tensor::tensor_impl::Tensor;
use crate::tensor_ops::device::Device;
use crate::unique_id::{IdCounter, UniqueId};

verus! {

/// The learnable part of layer normalization over a last axis of size `M`: the input,
/// normalized to mean 0 and variance 1, is scaled by `gamma` and shifted by `beta`, element
/// by element.
///
/// `epsilon` is added to the variance before the square root is taken, to keep the
/// division away from zero. It is built as `1 / 100000`.
#[derive(Debug)]
pub struct LayerNorm1D<const M: usize, E, D> {
    pub gamma: Tensor<E, D>,
    pub beta: Tensor<E, D>,
    pub epsilon: E,
}

impl<const M: usize, E: Dtype, D: Device<E>> GradientUpdate<D, E> for LayerNorm1D<M, E, D> {
    open spec fn param_ids(&self) -> Seq<UniqueId> {
        seq![self.gamma.id, self.beta.id]
    }

    open spec fn param_shapes(&self) -> Seq<Seq<usize>> {
        seq![self.gamma.storage@.dims, self.beta.storage@.dims]
    }

    open spec fn params_wf(&self) -> bool {
        &&& self.gamma.wf()
        &&& self.beta.wf()
        &&& self.gamma.storage@.dims == seq![M]
        &&& self.beta.storage@.dims == seq![M]
    }

    fn update<U: ParamUpdater<D, E>>(&mut self, updater: &mut U, unused: &mut UnusedTensors) -> (r:
        Result<(), D::Err>)
        ensures
            final(self).epsilon == old(self).epsilon,
    {
        proof {
            let with_gradient = updater.with_gradient();
            lemma_update_in_turn(seq![self.gamma.id], seq![self.beta.id], with_gradient, unused@);
            lemma_single_param(self.gamma.id, with_gradient, unused@);
            lemma_single_param(
                self.beta.id,
                with_gradient.remove(self.gamma.id.0),
                report_unused(unused@, self.gamma.id, with_gradient),
            );
            assert(seq![self.gamma.id] + seq![self.beta.id] =~= seq![self.gamma.id, self.beta.id]);
        }
        let ghost gamma_dims = self.gamma.storage@.dims;
        let ghost beta_dims = self.beta.storage@.dims;
        match self.gamma.update(updater, unused) {
            Ok(_) => {},
            Err(e) => {
                assert(self.gamma.param_shapes()[0] == gamma_dims);
                return Err(e);
            },
        }
        assert(self.gamma.param_shapes()[0] == gamma_dims);
        let r = self.beta.update(updater, unused);
        assert(self.beta.param_shapes()[0] == beta_dims);
        r
    }
}

impl<const M: usize, E: Dtype, D: Device<E>> ResetParams<D, E> for LayerNorm1D<M, E, D> {
    /// `gamma` is all ones and `beta` is all zeros.
    open spec fn is_reset(&self) -> bool {
        &&& self.gamma.storage@ == ArrayView::filled(seq![M], E::one_spec())
        &&& self.beta.storage@ == ArrayView::filled(seq![M], E::zero_spec())
    }

    fn try_reset_params(&mut self) -> (r: Result<(), D::Err>)
        ensures
            final(self).epsilon == old(self).epsilon,
            final(self).gamma.device == old(self).gamma.device,
            final(self).beta.device == old(self).beta.device,
            final(self).gamma.tape == old(self).gamma.tape,
            final(self).beta.tape == old(self).beta.tape,
    {
        self.gamma.try_fill_with_ones()?;
        self.beta.try_fill_with_zeros()?;
        Ok(())
    }
}

impl<const M: usize, E: Dtype, D: Device<E>> BuildModule<D, E> for LayerNorm1D<M, E, D> {
    open spec fn num_params() -> nat {
        2
    }

    /// Fills `gamma` with ones and `beta` with zeros, and sets `epsilon` to `1 / 100000`.
    fn try_build(device: &D, ids: &mut IdCounter) -> (r: Result<Self, D::Err>)
        ensures
            r matches Ok(unit) ==> {
                &&& unit.epsilon == E::ratio_spec(1, 100_000)
                &&& cloned(*device, unit.gamma.device)
                &&& cloned(*device, unit.beta.device)
                &&& unit.gamma.tape is None
                &&& unit.beta.tape is None
            },
    {
        let gamma = device.try_ones::<Rank1<M>>(ids)?;
        let beta = device.try_zeros::<Rank1<M>>(ids)?;
        Ok(LayerNorm1D { gamma, beta, epsilon: E::from_ratio(1, 100_000) })
    }
}

impl<const M: usize, E: Dtype, D1, D2: Device<E>> ToDevice<D2> for LayerNorm1D<M, E, D1> {
    type Output = LayerNorm1D<M, E, D2>;

    open spec fn is_copy(&self, copy: LayerNorm1D<M, E, D2>) -> bool {
        &&& self.gamma.is_copy(copy.gamma)
        &&& self.beta.is_copy(copy.beta)
        &&& copy.epsilon == self.epsilon
    }

    open spec fn is_on(copy: LayerNorm1D<M, E, D2>, device: D2) -> bool {
        cloned(device, copy.gamma.device) && cloned(device, copy.beta.device)
    }

    open spec fn can_copy(&self) -> bool {
        self.gamma.storage.wf() && self.beta.storage.wf()
    }

    open spec fn num_ids(&self) -> nat {
        2
    }

    fn to_device(&self, device: &D2, ids: &mut IdCounter) -> (r: Result<
        LayerNorm1D<M, E, D2>,
        D2::Err,
    >) {
        let gamma = self.gamma.to_device(device, ids)?;
        let beta = self.beta.to_device(device, ids)?;
        Ok(LayerNorm1D { gamma, beta, epsilon: self.epsilon })
    }
}

} // verus!
