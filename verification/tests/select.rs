use dfdx::dtypes::{Dtype, Unit};
use dfdx::gradients::{Gradients, OpError};
use dfdx::shapes::Shape;
use dfdx::tape::{OpRecord, OwnedTape, TapeError, TapeState};
use dfdx::tensor::cpu::{Cpu, CpuError};
use dfdx::tensor::ndarray::NdArray;
use dfdx::tensor::storage_traits::{AsVec, TensorFromArray};
use dfdx::tensor::tensor_impl::Tensor;
use dfdx::tensor_ops::select::cpu_kernel::selected_if_reserved;
use dfdx::tensor_ops::select::ChooseKernel;
use dfdx::unique_id::{IdCounter, UniqueId};

#[derive(Clone, Copy, Debug, PartialEq)]
struct F(f32);

impl Unit for F {
    fn zero_spec() -> F {
        F(0.0)
    }

    fn one_spec() -> F {
        F(1.0)
    }

    fn zero() -> F {
        F(0.0)
    }

    fn one() -> F {
        F(1.0)
    }
}

impl Dtype for F {
    fn add_spec(self, rhs: F) -> F {
        F(self.0 + rhs.0)
    }

    fn ratio_spec(numerator: u32, denominator: u32) -> F {
        F(numerator as f32 / denominator as f32)
    }

    fn add(self, rhs: F) -> F {
        F(self.0 + rhs.0)
    }

    fn from_ratio(numerator: u32, denominator: u32) -> F {
        F(numerator as f32 / denominator as f32)
    }
}

fn floats(values: &[f32]) -> Vec<F> {
    values.iter().map(|v| F(*v)).collect()
}

fn array<E>(data: Vec<E>, dims: Vec<usize>) -> NdArray<E> {
    NdArray::new(data, Shape::new(dims)).unwrap()
}

#[test]
fn test_choose_forward() {
    let dev = Cpu;
    let cond = array(vec![true, false, true], vec![3]);
    let lhs = array(floats(&[1.0, 2.0, 3.0]), vec![3]);
    let rhs = array(floats(&[10.0, 20.0, 30.0]), vec![3]);
    let out = dev.forward(&cond, &lhs, &rhs).unwrap();
    assert_eq!(out.data, floats(&[1.0, 20.0, 3.0]));
    assert_eq!(out.shape.dims, vec![3]);
}

#[test]
fn test_choose_backward_from_zero_accumulators() {
    let dev = Cpu;
    let cond = array(vec![true, false, true], vec![3]);
    let mut grad_lhs = array(floats(&[0.0, 0.0, 0.0]), vec![3]);
    let mut grad_rhs = array(floats(&[0.0, 0.0, 0.0]), vec![3]);
    let grad_out = array(floats(&[1.0, 1.0, 1.0]), vec![3]);
    dev.backward(&cond, &mut grad_lhs, &mut grad_rhs, &grad_out).unwrap();
    assert_eq!(grad_lhs.data, floats(&[1.0, 0.0, 1.0]));
    assert_eq!(grad_rhs.data, floats(&[0.0, 1.0, 0.0]));
}

#[test]
fn test_choose_backward_adds_to_what_is_there() {
    let dev = Cpu;
    let cond = array(vec![true, false, true, false], vec![2, 2]);
    let mut grad_lhs = array(vec![10i32, 20, 30, 40], vec![2, 2]);
    let mut grad_rhs = array(vec![-1i32, -2, -3, -4], vec![2, 2]);
    let grad_out = array(vec![1i32, 2, 3, 4], vec![2, 2]);
    dev.backward(&cond, &mut grad_lhs, &mut grad_rhs, &grad_out).unwrap();
    assert_eq!(grad_lhs.data, vec![11, 20, 33, 40]);
    assert_eq!(grad_rhs.data, vec![-1, 0, -3, 0]);
    dev.backward(&cond, &mut grad_lhs, &mut grad_rhs, &grad_out).unwrap();
    assert_eq!(grad_lhs.data, vec![12, 20, 36, 40]);
    assert_eq!(grad_rhs.data, vec![-1, 2, -3, 4]);
}

#[test]
fn test_choose_forward_twice_is_the_same() {
    let dev = Cpu;
    let cond = array(vec![false, false, true, true, false, true], vec![2, 3]);
    let lhs = array(floats(&[0.1, -0.2, 0.3, 1e30, -0.0, 7.5]), vec![2, 3]);
    let rhs = array(floats(&[9.0, 8.0, 7.0, 6.0, 5.0, 4.0]), vec![2, 3]);
    let once = dev.forward(&cond, &lhs, &rhs).unwrap();
    let again = dev.forward(&cond, &lhs, &rhs).unwrap();
    let once_bits: Vec<u32> = once.data.iter().map(|v| v.0.to_bits()).collect();
    let again_bits: Vec<u32> = again.data.iter().map(|v| v.0.to_bits()).collect();
    assert_eq!(once_bits, again_bits);
    assert_eq!(once.shape.dims, again.shape.dims);
    assert_eq!(once.data, floats(&[9.0, 8.0, 0.3, 1e30, 5.0, 7.5]));
}

#[test]
fn test_choose_forward_refuses_other_shapes() {
    let dev = Cpu;
    let cond = array(vec![true, false, true, false, true, false], vec![2, 3]);
    let lhs = array(vec![1i32, 2, 3, 4, 5, 6], vec![2, 3]);
    let turned = array(vec![1i32, 2, 3, 4, 5, 6], vec![3, 2]);
    let short = array(vec![1i32, 2, 3], vec![3]);
    assert_eq!(dev.forward(&cond, &lhs, &turned).err(), Some(CpuError::ShapeMismatch));
    assert_eq!(dev.forward(&cond, &turned, &lhs).err(), Some(CpuError::ShapeMismatch));
    assert_eq!(dev.forward(&cond, &short, &short).err(), Some(CpuError::ShapeMismatch));
    assert!(dev.forward(&cond, &lhs, &lhs).is_ok());
}

#[test]
fn test_choose_backward_refuses_other_shapes_and_changes_nothing() {
    let dev = Cpu;
    let cond = array(vec![true, false], vec![2]);
    let mut grad_lhs = array(vec![1i64, 2], vec![2]);
    let mut grad_rhs = array(vec![3i64, 4], vec![1, 2]);
    let grad_out = array(vec![5i64, 6], vec![2]);
    let r = dev.backward(&cond, &mut grad_lhs, &mut grad_rhs, &grad_out);
    assert_eq!(r, Err(CpuError::ShapeMismatch));
    assert_eq!(grad_lhs.data, vec![1, 2]);
    assert_eq!(grad_rhs.data, vec![3, 4]);
    let mut grad_rhs = array(vec![3i64, 4], vec![2]);
    let long_out = array(vec![5i64, 6, 7], vec![3]);
    let r = dev.backward(&cond, &mut grad_lhs, &mut grad_rhs, &long_out);
    assert_eq!(r, Err(CpuError::ShapeMismatch));
    assert_eq!(grad_lhs.data, vec![1, 2]);
    assert_eq!(grad_rhs.data, vec![3, 4]);
}

#[test]
fn test_i32_sums_wrap() {
    assert_eq!(Dtype::add(i32::MAX, 1), i32::MIN);
    assert_eq!(Dtype::add(i32::MIN, -1), i32::MAX);
    assert_eq!(Dtype::add(40i32, 2), 42);
    assert_eq!(Dtype::add(i64::MAX, 1), i64::MIN);
    assert_eq!(Dtype::add(-40i64, -2), -42);
}

#[test]
fn test_units() {
    assert_eq!(<bool as Unit>::zero(), false);
    assert_eq!(<bool as Unit>::one(), true);
    assert_eq!(<i32 as Unit>::zero(), 0);
    assert_eq!(<i32 as Unit>::one(), 1);
    assert_eq!(<i64 as Unit>::zero(), 0);
    assert_eq!(<i64 as Unit>::one(), 1);
}

#[test]
fn test_from_ratio() {
    assert_eq!(<i32 as Dtype>::from_ratio(1, 100_000), 0);
    assert_eq!(<i32 as Dtype>::from_ratio(7, 2), 3);
    assert_eq!(<i32 as Dtype>::from_ratio(u32::MAX, 1), i32::MAX);
    assert_eq!(<i64 as Dtype>::from_ratio(u32::MAX, 1), 4294967295);
    assert_eq!(<i64 as Dtype>::from_ratio(9, 3), 3);
}

fn tensor(dev: &Cpu, data: Vec<i32>, dims: Vec<usize>, ids: &mut IdCounter) -> Tensor<i32, Cpu> {
    dev.try_tensor((data, Shape::new(dims)), ids).unwrap()
}

fn condition(dev: &Cpu, data: Vec<bool>, dims: Vec<usize>, ids: &mut IdCounter) -> Tensor<bool, Cpu> {
    dev.try_tensor((data, Shape::new(dims)), ids).unwrap()
}

#[test]
fn test_select_makes_a_new_tensor() {
    let dev = Cpu;
    let mut ids = IdCounter::new();
    let cond = condition(&dev, vec![true, false, true], vec![3], &mut ids);
    let lhs = tensor(&dev, vec![1, 2, 3], vec![3], &mut ids);
    let rhs = tensor(&dev, vec![10, 20, 30], vec![3], &mut ids);
    let out = cond.select(lhs, rhs, &mut ids).unwrap();
    assert_eq!(out.as_vec(), vec![1, 20, 3]);
    assert_eq!(out.id, UniqueId(3));
    assert!(out.tape.is_none());
    assert_eq!(ids.unique_id(), UniqueId(4));
}

#[test]
fn test_select_records_on_the_tape() {
    let dev = Cpu;
    let mut ids = IdCounter::new();
    let cond = condition(&dev, vec![true, false], vec![2], &mut ids);
    let lhs = tensor(&dev, vec![1, 2], vec![2], &mut ids);
    let rhs = tensor(&dev, vec![3, 4], vec![2], &mut ids);
    let out = cond.select(lhs.trace(), rhs, &mut ids).unwrap();
    let tape = out.tape.unwrap();
    assert_eq!(tape.state(), TapeState::Recording);
    assert_eq!(tape.len(), 1);
    let out2 = cond
        .select(tensor(&dev, vec![0, 0], vec![2], &mut ids), out_like(&dev, &mut ids).put_tape(Some(tape)), &mut ids)
        .unwrap();
    assert_eq!(out2.tape.unwrap().len(), 2);
}

fn out_like(dev: &Cpu, ids: &mut IdCounter) -> Tensor<i32, Cpu> {
    tensor(dev, vec![5, 6], vec![2], ids)
}

#[test]
fn test_select_refuses_two_tapes() {
    let dev = Cpu;
    let mut ids = IdCounter::new();
    let cond = condition(&dev, vec![true, false], vec![2], &mut ids);
    let lhs = tensor(&dev, vec![1, 2], vec![2], &mut ids).trace();
    let rhs = tensor(&dev, vec![3, 4], vec![2], &mut ids).trace();
    let r = cond.select(lhs, rhs, &mut ids);
    assert_eq!(r.err(), Some(OpError::Tape(TapeError::DistinctTapes)));
    assert_eq!(ids.unique_id(), UniqueId(3));
}

#[test]
fn test_merge_of_tapes() {
    assert!(OwnedTape::merge(None, None).unwrap().is_none());
    assert!(OwnedTape::merge(Some(OwnedTape::new()), None).unwrap().is_some());
    assert!(OwnedTape::merge(None, Some(OwnedTape::new())).unwrap().is_some());
    assert_eq!(
        OwnedTape::merge(Some(OwnedTape::new()), Some(OwnedTape::new())).err(),
        Some(TapeError::DistinctTapes)
    );
}

#[test]
fn test_select_refuses_a_drained_tape() {
    let dev = Cpu;
    let mut ids = IdCounter::new();
    let cond = condition(&dev, vec![true, false], vec![2], &mut ids);
    let lhs = tensor(&dev, vec![1, 2], vec![2], &mut ids);
    let rhs = tensor(&dev, vec![3, 4], vec![2], &mut ids);
    let mut tape = OwnedTape::new();
    tape.drain().unwrap();
    let r = cond.select(lhs.put_tape(Some(tape)), rhs, &mut ids);
    assert_eq!(r.err(), Some(OpError::Tape(TapeError::Drained)));
}

#[test]
fn test_select_refuses_other_shapes() {
    let dev = Cpu;
    let mut ids = IdCounter::new();
    let cond = condition(&dev, vec![true, false], vec![2], &mut ids);
    let lhs = tensor(&dev, vec![1, 2], vec![2], &mut ids);
    let rhs = tensor(&dev, vec![3, 4], vec![2, 1], &mut ids);
    let r = cond.select(lhs.trace(), rhs, &mut ids);
    assert_eq!(r.err(), Some(OpError::Device(CpuError::ShapeMismatch)));
    assert_eq!(ids.unique_id(), UniqueId(3));
}

#[test]
fn test_tape_drains_once() {
    let mut tape = OwnedTape::new();
    assert_eq!(tape.state(), TapeState::Empty);
    let op = OpRecord::Choose {
        cond: array(vec![true], vec![1]),
        lhs: UniqueId(0),
        rhs: UniqueId(1),
        out: UniqueId(2),
    };
    tape.add_backward_op(op).unwrap();
    assert_eq!(tape.state(), TapeState::Recording);
    let ops = tape.drain().unwrap();
    assert_eq!(ops.len(), 1);
    assert_eq!(tape.state(), TapeState::Drained);
    assert_eq!(tape.drain().err(), Some(TapeError::Drained));
    assert_eq!(tape.state(), TapeState::Drained);
    let op = OpRecord::Choose {
        cond: array(vec![true], vec![1]),
        lhs: UniqueId(0),
        rhs: UniqueId(1),
        out: UniqueId(2),
    };
    assert_eq!(tape.add_backward_op(op).err(), Some(TapeError::Drained));
    assert_eq!(tape.len(), 0);
    let r = tape.execute(&Cpu, Gradients::<i32>::new());
    assert_eq!(r.err(), Some(OpError::Tape(TapeError::Drained)));
}

#[test]
fn test_tape_executes_once() {
    let mut tape = OwnedTape::new();
    let first = tape.execute(&Cpu, Gradients::<i32>::new());
    assert_eq!(first.unwrap().len(), 0);
    let second = tape.execute(&Cpu, Gradients::<i32>::new());
    assert_eq!(second.err(), Some(OpError::Tape(TapeError::Drained)));
}

#[test]
fn test_selected_if_reserved() {
    let refused = Vec::<u64>::new().try_reserve(usize::MAX);
    assert!(refused.is_err());
    let cond = array(vec![true, false, true], vec![3]);
    let lhs = array(vec![1, 2, 3], vec![3]);
    let rhs = array(vec![10, 20, 30], vec![3]);
    let other = array(vec![10, 20, 30], vec![3, 1]);

    let out = selected_if_reserved(Ok(()), Vec::new(), &cond, &lhs, &rhs).unwrap();
    assert_eq!(out.data, vec![1, 20, 3]);
    assert_eq!(out.shape.dims, vec![3]);
    let out = selected_if_reserved(Ok(()), vec![7, 7, 7, 7], &cond, &lhs, &rhs).unwrap();
    assert_eq!(out.data, vec![1, 20, 3]);

    let r = selected_if_reserved(refused.clone(), Vec::new(), &cond, &lhs, &rhs);
    assert_eq!(r.err(), Some(CpuError::OutOfMemory));
    let r = selected_if_reserved(Ok(()), Vec::new(), &cond, &lhs, &other);
    assert_eq!(r.err(), Some(CpuError::ShapeMismatch));
    let r = selected_if_reserved(refused, Vec::new(), &cond, &lhs, &other);
    assert_eq!(r.err(), Some(CpuError::ShapeMismatch));
}
