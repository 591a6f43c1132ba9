use dfdx::gradients::{Gradients, OpError};
use dfdx::shapes::Shape;
use dfdx::tape::{OpRecord, OwnedTape, TapeError};
use dfdx::tensor::cpu::{Cpu, CpuError};
use dfdx::tensor::ndarray::NdArray;
use dfdx::tensor::storage_traits::TensorFromArray;
use dfdx::tensor::tensor_impl::Tensor;
use dfdx::unique_id::{IdCounter, UniqueId};

fn tensor(dev: &Cpu, data: Vec<i32>, ids: &mut IdCounter) -> Tensor<i32, Cpu> {
    let n = data.len();
    dev.try_tensor((data, Shape::new(vec![n])), ids).unwrap()
}

fn condition(dev: &Cpu, data: Vec<bool>, ids: &mut IdCounter) -> Tensor<bool, Cpu> {
    let n = data.len();
    dev.try_tensor((data, Shape::new(vec![n])), ids).unwrap()
}

fn array<E>(data: Vec<E>) -> NdArray<E> {
    let n = data.len();
    NdArray::new(data, Shape::new(vec![n])).unwrap()
}

#[test]
fn test_backward_through_one_selection() {
    let dev = Cpu;
    let mut ids = IdCounter::new();
    let cond = condition(&dev, vec![true, false, true], &mut ids);
    let lhs = tensor(&dev, vec![1, 2, 3], &mut ids);
    let rhs = tensor(&dev, vec![10, 20, 30], &mut ids);
    let out = cond.select(lhs.trace(), rhs.retaped(), &mut ids).unwrap();
    let out_id = out.id;
    let grads = out.backward().unwrap();
    assert_eq!(grads.len(), 3);
    assert_eq!(grads.get(&lhs).data, vec![1, 0, 1]);
    assert_eq!(grads.get(&rhs).data, vec![0, 1, 0]);
    assert_eq!(grads.lookup(out_id).unwrap().data, vec![1, 1, 1]);
    assert_eq!(grads.get(&lhs).shape.dims, vec![3]);
    assert!(!grads.contains(cond.id));
}

#[test]
fn test_backward_sums_over_a_diamond() {
    let dev = Cpu;
    let mut ids = IdCounter::new();
    let x = tensor(&dev, vec![1, 2, 3, 4], &mut ids);
    let y = tensor(&dev, vec![10, 20, 30, 40], &mut ids);
    let z = tensor(&dev, vec![100, 200, 300, 400], &mut ids);
    let first = condition(&dev, vec![true, true, false, false], &mut ids);
    let second = condition(&dev, vec![true, false, true, false], &mut ids);
    let third = condition(&dev, vec![true, false, false, false], &mut ids);

    // a takes x where `first` holds, b takes x where `second` holds, and the result takes a
    // at index 0 and b elsewhere: x reaches the result through a at index 0 and through b at
    // index 2.
    let a = first.select(x.trace(), y.retaped(), &mut ids).unwrap();
    let (a, tape) = a.split_tape();
    let b = second.select(x.retaped().put_tape(tape), z.retaped(), &mut ids).unwrap();
    let out = third.select(a.retaped(), b, &mut ids).unwrap();
    assert_eq!(out.tape.as_ref().unwrap().len(), 3);
    let grads = out.backward().unwrap();

    // through a alone x would receive [1, 0, 0, 0], through b alone [0, 0, 1, 0]
    assert_eq!(grads.get(&x).data, vec![1, 0, 1, 0]);
    assert_eq!(grads.get(&a).data, vec![1, 0, 0, 0]);
    assert_eq!(grads.get(&y).data, vec![0, 0, 0, 0]);
    assert_eq!(grads.get(&z).data, vec![0, 1, 0, 1]);
}

#[test]
fn test_gradient_is_the_sum_over_both_consumers() {
    // x feeds a and b; both a and b have a gradient of their own at every index
    let (x, y, z, a, b) = (UniqueId(0), UniqueId(1), UniqueId(2), UniqueId(3), UniqueId(4));
    let mut tape = OwnedTape::new();
    tape.add_backward_op(OpRecord::Choose { cond: array(vec![true, true, false]), lhs: x, rhs: y, out: a })
        .unwrap();
    tape.add_backward_op(OpRecord::Choose { cond: array(vec![false, true, false]), lhs: z, rhs: x, out: b })
        .unwrap();
    let mut seed: Gradients<i32> = Gradients::new();
    seed.insert(a, array(vec![3, 5, 7]));
    seed.insert(b, array(vec![40, 60, 80]));
    let grads = tape.execute(&Cpu, seed).unwrap();
    // through a alone: [3, 5, 0]; through b alone: [40, 0, 80]
    assert_eq!(grads.lookup(x).unwrap().data, vec![43, 5, 80]);
    assert_eq!(grads.lookup(y).unwrap().data, vec![0, 0, 7]);
    assert_eq!(grads.lookup(z).unwrap().data, vec![0, 60, 0]);

    // each path on its own
    let mut only_a = OwnedTape::new();
    only_a
        .add_backward_op(OpRecord::Choose { cond: array(vec![true, true, false]), lhs: x, rhs: y, out: a })
        .unwrap();
    let mut seed: Gradients<i32> = Gradients::new();
    seed.insert(a, array(vec![3, 5, 7]));
    let through_a = only_a.execute(&Cpu, seed).unwrap();
    let mut only_b = OwnedTape::new();
    only_b
        .add_backward_op(OpRecord::Choose { cond: array(vec![false, true, false]), lhs: z, rhs: x, out: b })
        .unwrap();
    let mut seed: Gradients<i32> = Gradients::new();
    seed.insert(b, array(vec![40, 60, 80]));
    let through_b = only_b.execute(&Cpu, seed).unwrap();
    let sum: Vec<i32> = through_a
        .lookup(x)
        .unwrap()
        .data
        .iter()
        .zip(through_b.lookup(x).unwrap().data.iter())
        .map(|(p, q)| p + q)
        .collect();
    assert_eq!(grads.lookup(x).unwrap().data, sum);
}

#[test]
fn test_an_input_on_the_path_has_an_entry_even_of_zeros() {
    let dev = Cpu;
    let mut ids = IdCounter::new();
    let x = tensor(&dev, vec![5, 6], &mut ids);
    let all = condition(&dev, vec![true, true], &mut ids);
    let none = condition(&dev, vec![false, false], &mut ids);
    let out = all.select(x.trace(), x.retaped(), &mut ids).unwrap();
    let (out, tape) = out.split_tape();
    // the result takes nothing from `out`, but `out` is one of its inputs
    let again = none.select(out.retaped().put_tape(tape), x.retaped(), &mut ids).unwrap();
    let grads = again.backward().unwrap();
    assert_eq!(grads.get(&x).data, vec![1, 1]);
    assert_eq!(grads.get(&out).data, vec![0, 0]);
}

#[test]
fn test_backward_with_the_same_tensor_on_both_sides() {
    let dev = Cpu;
    let mut ids = IdCounter::new();
    let x = tensor(&dev, vec![5, 6, 7], &mut ids);
    let cond = condition(&dev, vec![true, false, true], &mut ids);
    let out = cond.select(x.trace(), x.retaped(), &mut ids).unwrap();
    assert_eq!(out.storage.data, vec![5, 6, 7]);
    let grads = out.backward().unwrap();
    assert_eq!(grads.get(&x).data, vec![1, 1, 1]);
    assert_eq!(grads.len(), 2);
}

#[test]
fn test_records_run_from_the_last_to_the_first() {
    // x -> a -> b: the step of b has to run before the step of a
    let mut tape = OwnedTape::new();
    let (x, y, a, b) = (UniqueId(0), UniqueId(1), UniqueId(2), UniqueId(3));
    tape.add_backward_op(OpRecord::Choose { cond: array(vec![true, false]), lhs: x, rhs: y, out: a })
        .unwrap();
    tape.add_backward_op(OpRecord::Choose { cond: array(vec![true, true]), lhs: a, rhs: y, out: b })
        .unwrap();
    let mut seed: Gradients<i32> = Gradients::new();
    seed.insert(b, array(vec![7, 9]));
    let grads = tape.execute(&Cpu, seed).unwrap();
    assert_eq!(grads.lookup(a).unwrap().data, vec![7, 9]);
    assert_eq!(grads.lookup(x).unwrap().data, vec![7, 0]);
    assert_eq!(grads.lookup(y).unwrap().data, vec![0, 9]);
    assert_eq!(grads.lookup(b).unwrap().data, vec![7, 9]);
}

#[test]
fn test_unreached_inputs_have_no_gradient() {
    let mut tape = OwnedTape::new();
    let (x, y, a, other) = (UniqueId(0), UniqueId(1), UniqueId(2), UniqueId(3));
    tape.add_backward_op(OpRecord::Choose { cond: array(vec![true, false]), lhs: x, rhs: y, out: a })
        .unwrap();
    let mut seed: Gradients<i32> = Gradients::new();
    seed.insert(other, array(vec![1, 1]));
    let grads = tape.execute(&Cpu, seed).unwrap();
    assert_eq!(grads.len(), 1);
    assert!(grads.contains(other));
    assert!(!grads.contains(x));
    assert!(!grads.contains(y));
    assert!(grads.lookup(a).is_none());
}

#[test]
fn test_step_adds_to_a_gradient_that_is_there() {
    let op = OpRecord::Choose {
        cond: array(vec![true, false, true]),
        lhs: UniqueId(0),
        rhs: UniqueId(1),
        out: UniqueId(2),
    };
    let mut grads: Gradients<i64> = Gradients::new();
    grads.insert(UniqueId(0), array(vec![100, 200, 300]));
    grads.insert(UniqueId(2), array(vec![1, 2, 3]));
    let grads = op.backward(&Cpu, grads).unwrap();
    assert_eq!(grads.lookup(UniqueId(0)).unwrap().data, vec![101, 200, 303]);
    assert_eq!(grads.lookup(UniqueId(1)).unwrap().data, vec![0, 2, 0]);
    let grads = op.backward(&Cpu, grads).unwrap();
    assert_eq!(grads.lookup(UniqueId(0)).unwrap().data, vec![102, 200, 306]);
    assert_eq!(grads.lookup(UniqueId(1)).unwrap().data, vec![0, 4, 0]);
}

#[test]
fn test_step_refuses_gradients_of_another_shape() {
    let op = OpRecord::Choose {
        cond: array(vec![true, false, true]),
        lhs: UniqueId(0),
        rhs: UniqueId(1),
        out: UniqueId(2),
    };
    let mut grads: Gradients<i64> = Gradients::new();
    grads.insert(UniqueId(2), array(vec![1, 2]));
    assert_eq!(op.backward(&Cpu, grads).err(), Some(OpError::ShapeMismatch));

    let mut grads: Gradients<i64> = Gradients::new();
    grads.insert(UniqueId(2), array(vec![1, 2, 3]));
    grads.insert(UniqueId(1), array(vec![1, 2, 3, 4]));
    assert_eq!(op.backward(&Cpu, grads).err(), Some(OpError::<CpuError>::ShapeMismatch));

    // without a gradient for the output nothing is read, so nothing can be amiss
    let mut grads: Gradients<i64> = Gradients::new();
    grads.insert(UniqueId(1), array(vec![1, 2, 3, 4]));
    let grads = op.backward(&Cpu, grads).unwrap();
    assert_eq!(grads.len(), 1);
}

#[test]
fn test_backward_without_a_tape() {
    let dev = Cpu;
    let mut ids = IdCounter::new();
    let x = tensor(&dev, vec![1, 2], &mut ids);
    assert_eq!(x.backward().err(), Some(OpError::Tape(TapeError::Missing)));
}

#[test]
fn test_backward_on_a_drained_tape() {
    let dev = Cpu;
    let mut ids = IdCounter::new();
    let x = tensor(&dev, vec![1, 2], &mut ids);
    let mut tape = OwnedTape::new();
    tape.drain().unwrap();
    assert_eq!(x.put_tape(Some(tape)).backward().err(), Some(OpError::Tape(TapeError::Drained)));
}

#[test]
fn test_backward_of_a_traced_tensor_alone() {
    let dev = Cpu;
    let mut ids = IdCounter::new();
    let x = tensor(&dev, vec![1, 2, 3], &mut ids);
    let grads = x.trace().backward().unwrap();
    assert_eq!(grads.len(), 1);
    assert_eq!(grads.get(&x).data, vec![1, 1, 1]);
}

#[test]
fn test_gradients_map() {
    let mut grads: Gradients<i32> = Gradients::new();
    assert_eq!(grads.len(), 0);
    assert!(!grads.contains(UniqueId(4)));
    assert!(grads.lookup(UniqueId(4)).is_none());
    grads.insert(UniqueId(4), array(vec![1, 2]));
    grads.insert(UniqueId(9), array(vec![3]));
    assert_eq!(grads.len(), 2);
    assert_eq!(grads.lookup(UniqueId(4)).unwrap().data, vec![1, 2]);
    grads.insert(UniqueId(4), array(vec![5, 6]));
    assert_eq!(grads.len(), 2);
    assert_eq!(grads.lookup(UniqueId(4)).unwrap().data, vec![5, 6]);
    assert_eq!(grads.remove(UniqueId(4)).unwrap().data, vec![5, 6]);
    assert!(grads.remove(UniqueId(4)).is_none());
    assert_eq!(grads.len(), 1);
    assert!(grads.contains(UniqueId(9)));
}

#[test]
fn test_try_alloc_for() {
    let dev = Cpu;
    let mut ids = IdCounter::new();
    let x = tensor(&dev, vec![7, 8, 9], &mut ids);
    let mut grads: Gradients<i32> = Gradients::new();
    grads.try_alloc_for(&x).unwrap();
    assert_eq!(grads.get(&x).data, vec![0, 0, 0]);
    assert_eq!(grads.get(&x).shape.dims, vec![3]);
    grads.insert(x.id, array(vec![1, 2, 3]));
    grads.try_alloc_for(&x).unwrap();
    assert_eq!(grads.get(&x).data, vec![1, 2, 3]);
}
