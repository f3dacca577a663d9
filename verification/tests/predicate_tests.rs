use datalog_ir::Predicate;

#[test]
fn test_predicate_referenced_columns_simple() {
    let pred = Predicate::ColumnEqConst(2, 42);
    let cols = pred.referenced_columns();
    assert_eq!(cols.len(), 1);
    assert!(cols.contains(&2));
}

#[test]
fn test_predicate_referenced_columns_compound() {
    let pred = Predicate::And(
        Box::new(Predicate::ColumnGtConst(0, 5)),
        Box::new(Predicate::ColumnsEq(1, 2)),
    );

    let cols = pred.referenced_columns();
    assert_eq!(cols.len(), 3);
    assert!(cols.contains(&0));
    assert!(cols.contains(&1));
    assert!(cols.contains(&2));
}

#[test]
fn test_predicate_referenced_columns_or() {
    let pred = Predicate::Or(
        Box::new(Predicate::ColumnLtConst(3, 10)),
        Box::new(Predicate::ColumnsNe(4, 5)),
    );

    let cols = pred.referenced_columns();
    assert_eq!(cols.len(), 3);
    assert!(cols.contains(&3));
    assert!(cols.contains(&4));
    assert!(cols.contains(&5));
}

#[test]
fn test_predicate_referenced_columns_true_false() {
    assert!(Predicate::True.referenced_columns().is_empty());
    assert!(Predicate::False.referenced_columns().is_empty());
}

#[test]
fn test_predicate_is_always_true_false() {
    assert!(Predicate::True.is_always_true());
    assert!(!Predicate::True.is_always_false());
    assert!(Predicate::False.is_always_false());
    assert!(!Predicate::False.is_always_true());

    let pred = Predicate::ColumnEqConst(0, 1);
    assert!(!pred.is_always_true());
    assert!(!pred.is_always_false());
}

#[test]
fn test_predicate_simplify_and_true() {
    let pred = Predicate::And(
        Box::new(Predicate::True),
        Box::new(Predicate::ColumnGtConst(0, 5)),
    );
    assert_eq!(pred.simplify(), Predicate::ColumnGtConst(0, 5));

    let pred2 = Predicate::And(
        Box::new(Predicate::ColumnGtConst(0, 5)),
        Box::new(Predicate::True),
    );
    assert_eq!(pred2.simplify(), Predicate::ColumnGtConst(0, 5));
}

#[test]
fn test_predicate_simplify_and_false() {
    let pred = Predicate::And(
        Box::new(Predicate::False),
        Box::new(Predicate::ColumnGtConst(0, 5)),
    );
    assert_eq!(pred.simplify(), Predicate::False);

    let pred2 = Predicate::And(
        Box::new(Predicate::ColumnGtConst(0, 5)),
        Box::new(Predicate::False),
    );
    assert_eq!(pred2.simplify(), Predicate::False);
}

#[test]
fn test_predicate_simplify_or_true() {
    let pred = Predicate::Or(
        Box::new(Predicate::True),
        Box::new(Predicate::ColumnGtConst(0, 5)),
    );
    assert_eq!(pred.simplify(), Predicate::True);
}

#[test]
fn test_predicate_simplify_or_false() {
    let pred = Predicate::Or(
        Box::new(Predicate::False),
        Box::new(Predicate::ColumnGtConst(0, 5)),
    );
    assert_eq!(pred.simplify(), Predicate::ColumnGtConst(0, 5));

    let pred2 = Predicate::Or(
        Box::new(Predicate::ColumnGtConst(0, 5)),
        Box::new(Predicate::False),
    );
    assert_eq!(pred2.simplify(), Predicate::ColumnGtConst(0, 5));
}

#[test]
fn test_predicate_simplify_nested() {
    let pred = Predicate::And(
        Box::new(Predicate::Or(
            Box::new(Predicate::False),
            Box::new(Predicate::ColumnEqConst(0, 1)),
        )),
        Box::new(Predicate::True),
    );
    assert_eq!(pred.simplify(), Predicate::ColumnEqConst(0, 1));
}

#[test]
fn test_predicate_adjust_for_projection_simple() {
    let projection = vec![1, 0, 2];
    let pred = Predicate::ColumnGtConst(1, 5);

    let adjusted = pred.adjust_for_projection(&projection);
    assert_eq!(adjusted, Some(Predicate::ColumnGtConst(0, 5)));
}

#[test]
fn test_predicate_adjust_for_projection_missing_column() {
    let projection = vec![0, 2];
    let pred = Predicate::ColumnGtConst(1, 5);

    let adjusted = pred.adjust_for_projection(&projection);
    assert_eq!(adjusted, None);
}

#[test]
fn test_predicate_adjust_for_projection_columns_eq() {
    let projection = vec![2, 0, 1];
    let pred = Predicate::ColumnsEq(0, 1);

    let adjusted = pred.adjust_for_projection(&projection);
    assert_eq!(adjusted, Some(Predicate::ColumnsEq(1, 2)));
}

#[test]
fn test_predicate_adjust_for_projection_and() {
    let projection = vec![1, 0];
    let pred = Predicate::And(
        Box::new(Predicate::ColumnEqConst(0, 5)),
        Box::new(Predicate::ColumnGtConst(1, 10)),
    );

    let adjusted = pred.adjust_for_projection(&projection);
    assert_eq!(
        adjusted,
        Some(Predicate::And(
            Box::new(Predicate::ColumnEqConst(1, 5)),
            Box::new(Predicate::ColumnGtConst(0, 10)),
        ))
    );
}

#[test]
fn test_predicate_adjust_for_projection_and_partial() {
    let projection = vec![0];
    let pred = Predicate::And(
        Box::new(Predicate::ColumnEqConst(0, 5)),
        Box::new(Predicate::ColumnGtConst(1, 10)),
    );

    let adjusted = pred.adjust_for_projection(&projection);
    assert_eq!(adjusted, Some(Predicate::ColumnEqConst(0, 5)));
}

#[test]
fn test_predicate_adjust_for_projection_or_requires_both() {
    let projection = vec![0];
    let pred = Predicate::Or(
        Box::new(Predicate::ColumnEqConst(0, 5)),
        Box::new(Predicate::ColumnGtConst(1, 10)),
    );

    let adjusted = pred.adjust_for_projection(&projection);
    assert_eq!(adjusted, None);
}

#[test]
fn test_predicate_adjust_true_false() {
    let projection = vec![0];
    assert_eq!(
        Predicate::True.adjust_for_projection(&projection),
        Some(Predicate::True)
    );
    assert_eq!(
        Predicate::False.adjust_for_projection(&projection),
        Some(Predicate::False)
    );
}

#[test]
fn test_predicate_all_comparison_types() {
    let pred_eq = Predicate::ColumnEqConst(0, 1);
    let pred_ne = Predicate::ColumnNeConst(0, 1);
    let pred_gt = Predicate::ColumnGtConst(0, 1);
    let pred_lt = Predicate::ColumnLtConst(0, 1);
    let pred_ge = Predicate::ColumnGeConst(0, 1);
    let pred_le = Predicate::ColumnLeConst(0, 1);

    for pred in [pred_eq, pred_ne, pred_gt, pred_lt, pred_ge, pred_le] {
        let cols = pred.referenced_columns();
        assert_eq!(cols.len(), 1);
        assert!(cols.contains(&0));
    }
}

#[test]
fn test_predicate_clone_and_eq() {
    let pred = Predicate::And(
        Box::new(Predicate::ColumnEqConst(0, 1)),
        Box::new(Predicate::True),
    );

    let pred_clone = pred.clone();
    assert_eq!(pred, pred_clone);
}
