use dfdx::shapes::{ConstShape, HasShape, Rank0, Rank1, Rank2, Rank3, Shape};
use dfdx::tensor::cpu::Cpu;
use dfdx::tensor::storage_traits::ZerosTensor;
use dfdx::tensor::tensor_impl::Tensor;
use dfdx::unique_id::{HasUniqueId, IdCounter, UniqueId};

#[test]
fn test_num_elements_is_the_product() {
    assert_eq!(Shape::new(vec![2, 3, 4]).num_elements(), Some(24));
    assert_eq!(Shape::new(vec![5]).num_elements(), Some(5));
    assert_eq!(Shape::new(vec![1, 1, 7]).num_elements(), Some(7));
}

#[test]
fn test_num_elements_without_axes_is_one() {
    assert_eq!(Shape::new(vec![]).num_elements(), Some(1));
}

#[test]
fn test_num_elements_with_zero_axis_is_zero() {
    assert_eq!(Shape::new(vec![3, 0, 2]).num_elements(), Some(0));
    assert_eq!(Shape::new(vec![usize::MAX, 2, 0]).num_elements(), Some(0));
    assert_eq!(Shape::new(vec![0, usize::MAX, usize::MAX]).num_elements(), Some(0));
}

#[test]
fn test_num_elements_too_large() {
    assert_eq!(Shape::new(vec![usize::MAX, 2]).num_elements(), None);
    assert_eq!(Shape::new(vec![1 << 40, 1 << 40]).num_elements(), None);
    assert_eq!(Shape::new(vec![usize::MAX, 1]).num_elements(), Some(usize::MAX));
}

#[test]
fn test_rank_and_last_axis() {
    let s = Shape::new(vec![2, 3, 4]);
    assert_eq!(s.rank(), 3);
    assert_eq!(s.last_axis(), Some(4));
    let scalar = Shape::new(vec![]);
    assert_eq!(scalar.rank(), 0);
    assert_eq!(scalar.last_axis(), None);
}

#[test]
fn test_same_as() {
    let a = Shape::new(vec![2, 3]);
    assert!(a.same_as(&Shape::new(vec![2, 3])));
    assert!(!a.same_as(&Shape::new(vec![3, 2])));
    assert!(!a.same_as(&Shape::new(vec![2, 3, 1])));
    assert!(!a.same_as(&Shape::new(vec![2])));
    assert!(Shape::new(vec![]).same_as(&Shape::new(vec![])));
}

#[test]
fn test_duplicate_shape() {
    let a = Shape::new(vec![4, 5, 6]);
    let b = a.duplicate();
    assert_eq!(b.dims, vec![4, 5, 6]);
    assert_eq!(a.shape().dims, vec![4, 5, 6]);
}

#[test]
fn test_const_shapes() {
    assert_eq!(Rank0::shape().dims, Vec::<usize>::new());
    assert_eq!(Rank1::<5>::shape().dims, vec![5]);
    assert_eq!(Rank2::<2, 3>::shape().dims, vec![2, 3]);
    assert_eq!(Rank3::<1, 2, 3>::shape().dims, vec![1, 2, 3]);
}

#[test]
fn test_identities_increase() {
    let mut ids = IdCounter::new();
    assert!(ids.can_issue());
    let a = ids.unique_id();
    let b = ids.unique_id();
    let c = ids.unique_id();
    assert_eq!(a, UniqueId(0));
    assert_eq!(b, UniqueId(1));
    assert_eq!(c, UniqueId(2));
    assert_ne!(a, b);
    assert_ne!(b, c);
}

#[test]
fn test_tensor_has_its_identity() {
    let dev = Cpu;
    let mut ids = IdCounter::new();
    let a: Tensor<i32, Cpu> = dev.try_zeros::<Rank1<3>>(&mut ids).unwrap();
    let b: Tensor<i32, Cpu> = dev.try_zeros::<Rank1<3>>(&mut ids).unwrap();
    assert_eq!(a.id(), UniqueId(0));
    assert_eq!(b.id(), UniqueId(1));
    assert_eq!(a.shape().dims, vec![3]);
}

#[test]
fn test_remaining_identities() {
    let mut ids = IdCounter::default();
    assert_eq!(ids.remaining(), u64::MAX);
    ids.unique_id();
    ids.unique_id();
    assert_eq!(ids.remaining(), u64::MAX - 2);
    assert!(ids.can_issue());
}
