use datalog_ir::Predicate;

fn eval(p: &Predicate, row: &[i64]) -> bool {
    match p {
        Predicate::ColumnEqConst(c, v) => row[*c] == *v,
        Predicate::ColumnNeConst(c, v) => row[*c] != *v,
        Predicate::ColumnGtConst(c, v) => row[*c] > *v,
        Predicate::ColumnLtConst(c, v) => row[*c] < *v,
        Predicate::ColumnGeConst(c, v) => row[*c] >= *v,
        Predicate::ColumnLeConst(c, v) => row[*c] <= *v,
        Predicate::ColumnsEq(a, b) => row[*a] == row[*b],
        Predicate::ColumnsNe(a, b) => row[*a] != row[*b],
        Predicate::And(p1, p2) => eval(p1, row) && eval(p2, row),
        Predicate::Or(p1, p2) => eval(p1, row) || eval(p2, row),
        Predicate::True => true,
        Predicate::False => false,
    }
}

fn project(row: &[i64], projection: &[usize]) -> Vec<i64> {
    projection.iter().map(|&i| row[i]).collect()
}

fn and(a: Predicate, b: Predicate) -> Predicate {
    Predicate::And(Box::new(a), Box::new(b))
}

fn or(a: Predicate, b: Predicate) -> Predicate {
    Predicate::Or(Box::new(a), Box::new(b))
}

fn sample() -> Predicate {
    and(
        or(Predicate::False, and(Predicate::True, Predicate::ColumnGtConst(0, 5))),
        or(Predicate::ColumnsEq(1, 2), and(Predicate::ColumnNeConst(2, 0), Predicate::True)),
    )
}

#[test]
fn simplify_keeps_the_meaning_on_rows() {
    let rows: Vec<Vec<i64>> = vec![vec![6, 1, 1], vec![6, 1, 0], vec![4, 2, 2], vec![7, 3, 4], vec![5, 0, 0]];
    let p = sample();
    let s = p.clone().simplify();
    for row in &rows {
        assert_eq!(eval(&s, row), eval(&p, row));
    }
    assert_eq!(
        s,
        and(Predicate::ColumnGtConst(0, 5), or(Predicate::ColumnsEq(1, 2), Predicate::ColumnNeConst(2, 0)))
    );
}

#[test]
fn simplify_is_idempotent() {
    let once = sample().simplify();
    assert_eq!(once.clone().simplify(), once);
    let folded = or(Predicate::True, Predicate::ColumnEqConst(0, 1)).simplify();
    assert_eq!(folded.clone().simplify(), folded);
}

#[test]
fn simplify_references_no_new_column() {
    let p = and(or(Predicate::ColumnLtConst(7, 1), Predicate::True), Predicate::ColumnsNe(1, 2));
    let before = p.referenced_columns();
    let after = p.simplify().referenced_columns();
    assert!(after.is_subset(&before));
    assert_eq!(after.len(), 2);
}

#[test]
fn simplify_leaves_no_constant_inside() {
    let p = and(and(Predicate::True, Predicate::True), or(Predicate::False, Predicate::False));
    assert_eq!(p.simplify(), Predicate::False);
    let q = or(and(Predicate::ColumnEqConst(0, 1), Predicate::False), Predicate::ColumnEqConst(1, 2));
    assert_eq!(q.simplify(), Predicate::ColumnEqConst(1, 2));
}

#[test]
fn adjusted_predicate_is_implied_on_projected_rows() {
    let projection = vec![2, 0];
    let p = and(Predicate::ColumnEqConst(0, 5), Predicate::ColumnGtConst(1, 10));
    let q = p.adjust_for_projection(&projection).unwrap();
    assert_eq!(q, Predicate::ColumnEqConst(1, 5));
    let rows: Vec<Vec<i64>> = vec![vec![5, 11, 0], vec![5, 9, 0], vec![4, 11, 1]];
    for row in &rows {
        if eval(&p, row) {
            assert!(eval(&q, &project(row, &projection)));
        }
    }
}

#[test]
fn adjustment_is_exact_when_all_columns_survive() {
    let projection = vec![3, 1, 0, 2];
    let p = or(and(Predicate::ColumnsEq(0, 3), Predicate::ColumnLeConst(1, -2)), Predicate::ColumnNeConst(2, 7));
    let q = p.adjust_for_projection(&projection).unwrap();
    assert_eq!(q, or(and(Predicate::ColumnsEq(2, 0), Predicate::ColumnLeConst(1, -2)), Predicate::ColumnNeConst(3, 7)));
    let rows: Vec<Vec<i64>> = vec![vec![1, -3, 7, 1], vec![1, 0, 7, 1], vec![2, -5, 8, 3], vec![0, 0, 7, 9]];
    for row in &rows {
        assert_eq!(eval(&q, &project(row, &projection)), eval(&p, row));
    }
}

#[test]
fn adjusted_columns_lie_within_the_projection() {
    let projection = vec![4, 4, 1];
    let p = and(Predicate::ColumnsNe(4, 1), Predicate::ColumnGtConst(9, 0));
    let q = p.adjust_for_projection(&projection).unwrap();
    assert_eq!(q, Predicate::ColumnsNe(0, 2));
    for c in q.referenced_columns() {
        assert!(c < projection.len());
    }
}

#[test]
fn adjustment_fails_for_a_missing_column() {
    assert_eq!(Predicate::ColumnsEq(0, 3).adjust_for_projection(&[0, 1]), None);
    assert_eq!(and(Predicate::ColumnEqConst(5, 0), Predicate::ColumnEqConst(6, 0)).adjust_for_projection(&[0]), None);
    assert_eq!(Predicate::ColumnEqConst(0, 0).adjust_for_projection(&[]), None);
}

#[test]
fn duplicate_projection_entries_map_to_the_first() {
    assert_eq!(
        Predicate::ColumnLtConst(2, 3).adjust_for_projection(&[1, 2, 2]),
        Some(Predicate::ColumnLtConst(1, 3))
    );
}

#[test]
fn referenced_columns_collects_each_index_once() {
    let p = and(or(Predicate::ColumnsEq(1, 1), Predicate::ColumnEqConst(1, 0)), Predicate::ColumnGeConst(usize::MAX, 0));
    let cols = p.referenced_columns();
    assert_eq!(cols.len(), 2);
    assert!(cols.contains(&1));
    assert!(cols.contains(&usize::MAX));
}
