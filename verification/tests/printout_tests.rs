use datalog_ir::{IRNode, Predicate};

fn scan(relation: &str, names: &[&str]) -> IRNode {
    IRNode::Scan {
        relation: relation.to_string(),
        schema: names.iter().map(|n| n.to_string()).collect(),
    }
}

#[test]
fn printout_of_scan_is_exact() {
    assert_eq!(scan("edge", &["x", "y"]).pretty_print(0), "Scan(edge) schema=[\"x\", \"y\"]");
}

#[test]
fn printout_of_filter_indents_its_input() {
    let plan = IRNode::Filter {
        input: Box::new(scan("edge", &["x", "y"])),
        predicate: Predicate::ColumnGtConst(0, 5),
    };
    assert_eq!(
        plan.pretty_print(0),
        "Filter(ColumnGtConst(0, 5))\n  Scan(edge) schema=[\"x\", \"y\"]"
    );
    assert_eq!(
        plan.pretty_print(2),
        "    Filter(ColumnGtConst(0, 5))\n      Scan(edge) schema=[\"x\", \"y\"]"
    );
}

#[test]
fn printout_of_projection_shows_map() {
    let plan = IRNode::Project {
        input: Box::new(scan("edge", &["x", "y"])),
        projection: vec![1, 0],
        output_schema: vec!["y".to_string(), "x".to_string()],
    };
    assert_eq!(
        plan.pretty_print(0),
        "Map(projection=[1, 0], output=[\"y\", \"x\"])\n  Scan(edge) schema=[\"x\", \"y\"]"
    );
}

#[test]
fn printout_of_join_lists_both_inputs() {
    let plan = IRNode::Join {
        left: Box::new(scan("edge", &["a", "b"])),
        right: Box::new(scan("node", &["id"])),
        left_keys: vec![1],
        right_keys: vec![0],
        output_schema: vec!["a".to_string(), "b".to_string(), "id".to_string()],
    };
    assert_eq!(
        plan.pretty_print(1),
        "  Join(left_keys=[1], right_keys=[0], output=[\"a\", \"b\", \"id\"])\n    Scan(edge) schema=[\"a\", \"b\"]\n    Scan(node) schema=[\"id\"]"
    );
}

#[test]
fn printout_of_union_ends_each_input_with_newline() {
    let plan = IRNode::Union { inputs: vec![scan("r", &["x"]), IRNode::Distinct { input: Box::new(scan("s", &[])) }] };
    assert_eq!(
        plan.pretty_print(0),
        "Union\n  Scan(r) schema=[\"x\"]\n  Distinct\n    Scan(s) schema=[]\n"
    );
    assert_eq!(IRNode::Union { inputs: vec![] }.pretty_print(0), "Union\n");
}

#[test]
fn printout_escapes_names_as_debug_does() {
    let plan = scan("odd", &["a\"b", "c\\d", "line\nbreak"]);
    assert_eq!(
        plan.pretty_print(0),
        format!("Scan(odd) schema={:?}", vec!["a\"b", "c\\d", "line\nbreak"])
    );
    assert_eq!(plan.pretty_print(0), "Scan(odd) schema=[\"a\\\"b\", \"c\\\\d\", \"line\\nbreak\"]");
}

#[test]
fn printout_of_predicate_matches_its_debug_form() {
    let predicate = Predicate::Or(
        Box::new(Predicate::And(
            Box::new(Predicate::ColumnLtConst(3, -10)),
            Box::new(Predicate::ColumnsNe(4, 5)),
        )),
        Box::new(Predicate::Or(
            Box::new(Predicate::ColumnEqConst(0, i64::MIN)),
            Box::new(Predicate::And(
                Box::new(Predicate::ColumnLeConst(usize::MAX, i64::MAX)),
                Box::new(Predicate::False),
            )),
        )),
    );
    let plan = IRNode::Filter { input: Box::new(scan("t", &["v"])), predicate: predicate.clone() };
    let expected = format!("Filter({:?})\n  Scan(t) schema=[\"v\"]", predicate);
    assert_eq!(plan.pretty_print(0), expected);
    assert!(expected.contains("ColumnLtConst(3, -10)"));
    assert!(expected.contains("ColumnEqConst(0, -9223372036854775808)"));
}

#[test]
fn clone_has_same_schema_and_printout() {
    let plan = IRNode::Union {
        inputs: vec![
            IRNode::Filter { input: Box::new(scan("r", &["x", "y"])), predicate: Predicate::True },
            scan("s", &["x", "y"]),
        ],
    };
    let copy = plan.clone();
    assert_eq!(copy, plan);
    assert_eq!(copy.output_schema(), plan.output_schema());
    assert_eq!(copy.pretty_print(3), plan.pretty_print(3));
}

#[test]
fn filter_and_distinct_keep_the_input_schema() {
    let input = scan("edge", &["a", "b", "c"]);
    let filter = IRNode::Filter { input: Box::new(input.clone()), predicate: Predicate::False };
    let distinct = IRNode::Distinct { input: Box::new(filter.clone()) };
    assert_eq!(filter.output_schema(), input.output_schema());
    assert_eq!(distinct.output_schema(), input.output_schema());
}

#[test]
fn union_of_common_schema_has_that_schema() {
    let union = IRNode::Union { inputs: vec![scan("a", &["k", "v"]), scan("b", &["k", "v"])] };
    assert_eq!(union.output_schema(), vec!["k", "v"]);
}

#[test]
fn schema_of_join_is_its_output_schema() {
    let join = IRNode::Join {
        left: Box::new(scan("l", &["a"])),
        right: Box::new(scan("r", &["b"])),
        left_keys: vec![0],
        right_keys: vec![0],
        output_schema: vec!["left_a".to_string(), "right_b".to_string()],
    };
    assert_eq!(join.output_schema(), vec!["left_a", "right_b"]);
    assert!(!IRNode::Distinct { input: Box::new(join.clone()) }.is_join());
}
