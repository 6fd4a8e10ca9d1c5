use particles::MovementBudget;

#[test]
fn a_new_budget_has_nothing_recorded() {
    let budget = MovementBudget::new();
    assert_eq!(budget.spent(0), 0);
    assert_eq!(budget.spent(usize::MAX), 0);
}

#[test]
fn a_move_is_admitted_while_the_total_stays_below_the_viscosity() {
    let mut budget = MovementBudget::new();
    assert!(budget.can_move(7, 0, 1));
    assert!(!budget.can_move(7, 1, 1));
    assert!(!budget.can_move(7, 0, 0));
    assert!(budget.can_move(7, 3, 4));
    assert!(!budget.can_move(7, 4, 4));
    budget.record_move(7, 2);
    assert!(budget.can_move(7, 1, 4));
    assert!(!budget.can_move(7, 2, 4));
    assert!(budget.can_move(7, 2, 5));
    assert!(budget.can_move(8, 3, 4));
    assert!(!budget.can_move(7, usize::MAX, usize::MAX));
    assert!(budget.can_move(7, usize::MAX - 3, usize::MAX));
}

#[test]
fn recorded_moves_add_up_by_cell() {
    let mut budget = MovementBudget::new();
    budget.record_move(3, 1);
    budget.record_move(3, 2);
    budget.record_move(4, 5);
    budget.record_move(5, 0);
    assert_eq!(budget.spent(3), 3);
    assert_eq!(budget.spent(4), 5);
    assert_eq!(budget.spent(5), 0);
    assert_eq!(budget.spent(6), 0);
}
