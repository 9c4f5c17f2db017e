use csuperlu::status::{classify_status, SolveStatus};

#[test]
fn zero_is_success() {
    assert_eq!(classify_status(0, 5), SolveStatus::Success);
}

#[test]
fn negative_names_the_illegal_argument() {
    assert_eq!(classify_status(-1, 5), SolveStatus::IllegalArgument { position: 1 });
    assert_eq!(classify_status(-7, 5), SolveStatus::IllegalArgument { position: 7 });
    assert_eq!(
        classify_status(i32::MIN, 5),
        SolveStatus::IllegalArgument { position: 2147483648 }
    );
}

#[test]
fn up_to_the_order_is_a_singular_pivot() {
    assert_eq!(classify_status(1, 5), SolveStatus::SingularPivot { column: 1 });
    assert_eq!(classify_status(5, 5), SolveStatus::SingularPivot { column: 5 });
}

#[test]
fn above_the_order_is_an_allocation_failure() {
    assert_eq!(classify_status(6, 5), SolveStatus::AllocationFailure { shortfall: 1 });
    assert_eq!(classify_status(1005, 5), SolveStatus::AllocationFailure { shortfall: 1000 });
    assert_eq!(classify_status(3, 0), SolveStatus::AllocationFailure { shortfall: 3 });
}
