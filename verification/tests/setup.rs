use sidequest::setup::{Sd, SizeMode, VectorKind, VectorVisitor};

#[test]
fn any_size_is_allowed_by_any() {
    assert!(SizeMode::Any.allowed(0));
    assert!(SizeMode::Any.allowed(usize::MAX));
}

#[test]
fn exact_allows_one_size() {
    assert!(SizeMode::Exact(3).allowed(3));
    assert!(!SizeMode::Exact(3).allowed(2));
    assert!(!SizeMode::Exact(3).allowed(4));
}

#[test]
fn max_allows_up_to_its_bound() {
    assert!(SizeMode::Max(3).allowed(0));
    assert!(SizeMode::Max(3).allowed(3));
    assert!(!SizeMode::Max(3).allowed(4));
}

#[test]
fn each_kind_of_vector_has_its_sizes() {
    assert_eq!(VectorKind::Vector(3).size_mode(), SizeMode::Exact(3));
    assert_eq!(VectorKind::Point(2).size_mode(), SizeMode::Exact(2));
    assert_eq!(VectorKind::Bounded(6).size_mode(), SizeMode::Max(6));
    assert_eq!(VectorKind::Dynamic.size_mode(), SizeMode::Any);
    assert_eq!(VectorKind::Quaternion.size_mode(), SizeMode::Exact(4));
}

#[test]
fn visitor_hands_on_a_sequence_of_the_right_length() {
    let visitor = VectorVisitor::new(VectorKind::Vector(3).size_mode());
    let out = visitor.visit_seq(vec![1i32, 2, 3]);
    assert_eq!(out.ok().map(|sd| sd.into_inner()), Some(vec![1, 2, 3]));
}

#[test]
fn visitor_reports_the_length_it_refuses() {
    let visitor = VectorVisitor::new(SizeMode::Exact(3));
    assert_eq!(visitor.visit_seq(vec![1i32, 2]).err(), Some(2));
    assert_eq!(visitor.visit_seq(vec![1i32, 2, 3, 4]).err(), Some(4));
    let bounded = VectorVisitor::new(SizeMode::Max(2));
    assert_eq!(bounded.visit_seq(vec![0u8; 3]).err(), Some(3));
    assert!(bounded.visit_seq(Vec::<u8>::new()).is_ok());
}

#[test]
fn sd_wraps_and_unwraps() {
    let sd = Sd::new(41);
    assert_eq!(*sd.get(), 41);
    assert_eq!(sd.into_inner(), 41);
}
