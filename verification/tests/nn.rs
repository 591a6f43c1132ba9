use dfdx::dtypes::{Dtype, Unit};
use dfdx::gradients::Gradients;
use dfdx::nn::activations::Softmax;
use dfdx::nn::layer_norm::LayerNorm1D;
use dfdx::nn::module::{BuildModule, ResetParams, ToDevice};
use dfdx::optim::{GradientUpdate, ParamUpdater, SimpleUpdater, UnusedTensors};
use dfdx::shapes::{HasShape, Rank1};
use dfdx::tensor::cpu::{Cpu, CpuError};
use dfdx::tensor::distributions::Sampler;
use dfdx::tensor::nested::{AsArray, NestedArray};
use dfdx::tensor::storage_traits::{AsVec, SampleTensor, TensorFromArray};
use dfdx::tensor::tensor_impl::Tensor;
use dfdx::unique_id::{HasUniqueId, IdCounter, UniqueId};
use rand::rngs::StdRng;

#[derive(Clone, Copy, Debug, PartialEq)]
struct F(f32);

impl Unit for F {
    fn zero_spec() -> F {
        F(0.0)
    }

    fn one_spec() -> F {
        F(1.0)
    }

    fn zero() -> F {
        F(0.0)
    }

    fn one() -> F {
        F(1.0)
    }
}

impl Dtype for F {
    fn add_spec(self, rhs: F) -> F {
        F(self.0 + rhs.0)
    }

    fn ratio_spec(numerator: u32, denominator: u32) -> F {
        F(numerator as f32 / denominator as f32)
    }

    fn add(self, rhs: F) -> F {
        F(self.0 + rhs.0)
    }

    fn from_ratio(numerator: u32, denominator: u32) -> F {
        F(numerator as f32 / denominator as f32)
    }
}

struct StandardNormal;

impl Sampler<F, StdRng> for StandardNormal {
    fn valid(&self) -> bool {
        true
    }

    fn is_valid(&self) -> bool {
        true
    }

    fn supports(&self, _value: F) -> bool {
        true
    }

    fn sample(&self, rng: &mut StdRng) -> F {
        F(rand_distr::Distribution::sample(&rand_distr::StandardNormal, rng))
    }
}

fn all(value: f32) -> NestedArray<F> {
    NestedArray::Axis((0..5).map(|_| NestedArray::Element(F(value))).collect())
}

#[test]
fn test_layer_norm_reset() {
    let dev: Cpu = Default::default();
    let mut ids = IdCounter::new();
    let mut rng = Cpu::seed_rng(0);

    let mut m: LayerNorm1D<5, F, Cpu> = BuildModule::try_build(&dev, &mut ids).unwrap();
    assert_eq!(m.gamma.array(), all(1.0));
    assert_eq!(m.beta.array(), all(0.0));

    m.gamma = dev.try_sample::<Rank1<5>, _>(StandardNormal, &mut rng, &mut ids).unwrap();
    m.beta = dev.try_sample::<Rank1<5>, _>(StandardNormal, &mut rng, &mut ids).unwrap();

    assert_ne!(m.gamma.array(), all(1.0));
    assert_ne!(m.beta.array(), all(0.0));

    m.try_reset_params().unwrap();

    assert_eq!(m.gamma.array(), all(1.0));
    assert_eq!(m.beta.array(), all(0.0));
}

#[test]
fn test_layer_norm_missing_gradients() {
    let dev: Cpu = Default::default();
    let mut ids = IdCounter::new();

    let mut model: LayerNorm1D<5, F, Cpu> = BuildModule::try_build(&dev, &mut ids).unwrap();
    let mut g: SimpleUpdater<F> = SimpleUpdater(Gradients::new());

    // no gradients present
    let mut unused = UnusedTensors::new();
    model.update(&mut g, &mut unused).unwrap();
    assert_eq!(&unused.ids, &[model.gamma.id(), model.beta.id()]);

    g.0.try_alloc_for(&model.gamma).unwrap();

    // weight gradient is present
    let mut unused = UnusedTensors::new();
    model.update(&mut g, &mut unused).unwrap();
    assert_eq!(&unused.ids, &[model.beta.id()]);

    g.0.try_alloc_for(&model.gamma).unwrap();
    g.0.try_alloc_for(&model.beta).unwrap();

    // all gradients present
    let mut unused = UnusedTensors::new();
    model.update(&mut g, &mut unused).unwrap();
    assert!(unused.is_empty());
}

#[test]
fn test_layer_norm_only_the_second_gradient() {
    let dev = Cpu;
    let mut ids = IdCounter::new();
    let mut model: LayerNorm1D<3, i32, Cpu> = BuildModule::try_build(&dev, &mut ids).unwrap();
    let mut g: SimpleUpdater<i32> = SimpleUpdater(Gradients::new());
    g.0.try_alloc_for(&model.beta).unwrap();
    let mut unused = UnusedTensors::new();
    model.update(&mut g, &mut unused).unwrap();
    assert_eq!(unused.ids, vec![model.gamma.id]);
    assert_eq!(unused.len(), 1);
    // the update has used the gradient up
    assert_eq!(g.0.len(), 0);
}

#[test]
fn test_layer_norm_build() {
    let dev = Cpu;
    let mut ids = IdCounter::new();
    ids.unique_id();
    let m: LayerNorm1D<4, F, Cpu> = BuildModule::try_build(&dev, &mut ids).unwrap();
    assert_eq!(m.gamma.id, UniqueId(1));
    assert_eq!(m.beta.id, UniqueId(2));
    assert_eq!(ids.unique_id(), UniqueId(3));
    assert_eq!(m.gamma.shape().dims, vec![4]);
    assert_eq!(m.beta.shape().dims, vec![4]);
    assert_eq!(m.epsilon, F(1e-5));
    assert!(m.gamma.tape.is_none());
    let m: LayerNorm1D<4, i64, Cpu> = BuildModule::try_build(&dev, &mut ids).unwrap();
    assert_eq!(m.gamma.as_vec(), vec![1, 1, 1, 1]);
    assert_eq!(m.beta.as_vec(), vec![0, 0, 0, 0]);
    assert_eq!(m.epsilon, 0);
}

#[test]
fn test_layer_norm_to_device() {
    let dev = Cpu;
    let mut ids = IdCounter::new();
    let mut m: LayerNorm1D<3, i32, Cpu> = BuildModule::try_build(&dev, &mut ids).unwrap();
    m.gamma.copy_from(&[4, 5, 6]);
    m.beta.copy_from(&[7, 8, 9]);
    m.epsilon = 12;
    let copy: LayerNorm1D<3, i32, Cpu> = m.to_device(&Cpu, &mut ids).unwrap();
    assert_eq!(copy.gamma.as_vec(), vec![4, 5, 6]);
    assert_eq!(copy.beta.as_vec(), vec![7, 8, 9]);
    assert_eq!(copy.epsilon, 12);
    assert_eq!(copy.gamma.shape().dims, vec![3]);
    assert_eq!(copy.gamma.id, UniqueId(2));
    assert_eq!(copy.beta.id, UniqueId(3));
}

#[test]
fn test_tensor_to_device() {
    let dev = Cpu;
    let mut ids = IdCounter::new();
    let t: Tensor<i32, Cpu> = dev.try_tensor([[1, 2], [3, 4]], &mut ids).unwrap();
    let copy: Tensor<i32, Cpu> = t.trace().to_device(&Cpu, &mut ids).unwrap();
    assert_eq!(copy.as_vec(), vec![1, 2, 3, 4]);
    assert_eq!(copy.shape().dims, vec![2, 2]);
    assert_eq!(copy.id, UniqueId(1));
    assert!(copy.tape.is_none());
}

#[test]
fn test_tensor_update() {
    let dev = Cpu;
    let mut ids = IdCounter::new();
    let mut t: Tensor<i32, Cpu> = dev.try_tensor([1, 2, 3], &mut ids).unwrap();
    let mut g: SimpleUpdater<i32> = SimpleUpdater(Gradients::new());
    let mut unused = UnusedTensors::new();
    assert!(unused.is_empty());
    t.update(&mut g, &mut unused).unwrap();
    assert_eq!(unused.ids, vec![UniqueId(0)]);
    g.0.try_alloc_for(&t).unwrap();
    t.update(&mut g, &mut unused).unwrap();
    assert_eq!(unused.ids, vec![UniqueId(0)]);
    let r: Result<(), CpuError> = g.update_param(&mut t, &mut unused);
    assert!(r.is_ok());
    assert_eq!(unused.ids, vec![UniqueId(0), UniqueId(0)]);
    assert_eq!(t.as_vec(), vec![1, 2, 3]);
}

#[test]
fn test_softmax_has_no_parameters() {
    let dev = Cpu;
    let mut ids = IdCounter::new();
    let mut m: Softmax = <Softmax as BuildModule<Cpu, i32>>::try_build(&dev, &mut ids).unwrap();
    // nothing was taken from the counter
    assert_eq!(ids.unique_id(), UniqueId(0));
    let mut g: SimpleUpdater<i32> = SimpleUpdater(Gradients::new());
    let mut unused = UnusedTensors::new();
    let r: Result<(), CpuError> = GradientUpdate::<Cpu, i32>::update(&mut m, &mut g, &mut unused);
    assert!(r.is_ok());
    assert!(unused.is_empty());
    let r: Result<(), CpuError> = ResetParams::<Cpu, i32>::try_reset_params(&mut m);
    assert!(r.is_ok());
    let copy: Result<Softmax, CpuError> = ToDevice::<Cpu>::to_device(&m, &dev, &mut ids);
    assert!(copy.is_ok());
    assert_eq!(ids.unique_id(), UniqueId(1));
}

#[test]
fn test_defaults_are_empty() {
    let g: SimpleUpdater<i32> = Default::default();
    assert_eq!(g.0.len(), 0);
    let grads: Gradients<i32> = Default::default();
    assert_eq!(grads.len(), 0);
    let unused: UnusedTensors = Default::default();
    assert!(unused.is_empty());
    let tape: dfdx::tape::OwnedTape = Default::default();
    assert_eq!(tape.state(), dfdx::tape::TapeState::Empty);
}

#[test]
fn test_reset_and_update_leave_epsilon() {
    let dev = Cpu;
    let mut ids = IdCounter::new();
    let mut m: LayerNorm1D<3, i32, Cpu> = BuildModule::try_build(&dev, &mut ids).unwrap();
    m.epsilon = 17;
    m.gamma.copy_from(&[4, 5, 6]);
    m.try_reset_params().unwrap();
    assert_eq!(m.epsilon, 17);
    assert_eq!(m.gamma.as_vec(), vec![1, 1, 1]);
    assert_eq!(m.gamma.id, UniqueId(0));
    assert_eq!(m.beta.id, UniqueId(1));
    m.try_reset_params().unwrap();
    assert_eq!(m.epsilon, 17);
    assert_eq!(m.gamma.as_vec(), vec![1, 1, 1]);
    assert_eq!(m.beta.as_vec(), vec![0, 0, 0]);
    let mut g: SimpleUpdater<i32> = Default::default();
    let mut unused = UnusedTensors::new();
    m.update(&mut g, &mut unused).unwrap();
    assert_eq!(m.epsilon, 17);
}
