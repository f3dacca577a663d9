use datalog_ir::IRNode;
use datalog_ir::Predicate;

#[test]
fn test_scan_output_schema() {
    let scan = IRNode::Scan {
        relation: "edge".to_string(),
        schema: vec!["x".to_string(), "y".to_string()],
    };
    assert_eq!(scan.output_schema(), vec!["x", "y"]);
    assert!(scan.is_scan());
    assert!(!scan.is_join());
}

#[test]
fn test_filter_passes_through_schema() {
    let scan = IRNode::Scan {
        relation: "edge".to_string(),
        schema: vec!["x".to_string(), "y".to_string()],
    };

    let filter = IRNode::Filter {
        input: Box::new(scan),
        predicate: Predicate::ColumnGtConst(0, 5),
    };

    assert_eq!(filter.output_schema(), vec!["x", "y"]);
}

#[test]
fn test_map_reorders_schema() {
    let scan = IRNode::Scan {
        relation: "edge".to_string(),
        schema: vec!["x".to_string(), "y".to_string()],
    };

    let map = IRNode::Project {
        input: Box::new(scan),
        projection: vec![1, 0],
        output_schema: vec!["y".to_string(), "x".to_string()],
    };

    assert_eq!(map.output_schema(), vec!["y", "x"]);
}

#[test]
fn test_join_output_schema() {
    let left = IRNode::Scan {
        relation: "edge".to_string(),
        schema: vec!["a".to_string(), "b".to_string()],
    };

    let right = IRNode::Scan {
        relation: "node".to_string(),
        schema: vec!["id".to_string(), "label".to_string()],
    };

    let join = IRNode::Join {
        left: Box::new(left),
        right: Box::new(right),
        left_keys: vec![1],
        right_keys: vec![0],
        output_schema: vec![
            "a".to_string(),
            "b".to_string(),
            "id".to_string(),
            "label".to_string(),
        ],
    };

    assert_eq!(join.output_schema(), vec!["a", "b", "id", "label"]);
    assert!(join.is_join());
    assert!(!join.is_scan());
}

#[test]
fn test_distinct_passes_through_schema() {
    let scan = IRNode::Scan {
        relation: "edge".to_string(),
        schema: vec!["x".to_string(), "y".to_string()],
    };

    let distinct = IRNode::Distinct {
        input: Box::new(scan),
    };

    assert_eq!(distinct.output_schema(), vec!["x", "y"]);
}

#[test]
fn test_union_uses_first_input_schema() {
    let scan1 = IRNode::Scan {
        relation: "edge1".to_string(),
        schema: vec!["x".to_string(), "y".to_string()],
    };

    let scan2 = IRNode::Scan {
        relation: "edge2".to_string(),
        schema: vec!["a".to_string(), "b".to_string()],
    };

    let union = IRNode::Union {
        inputs: vec![scan1, scan2],
    };

    assert_eq!(union.output_schema(), vec!["x", "y"]);
}

#[test]
fn test_empty_union_schema() {
    let union = IRNode::Union { inputs: vec![] };
    assert_eq!(union.output_schema(), Vec::<String>::new());
}

#[test]
fn test_pretty_print_contains_operators() {
    let plan = IRNode::Filter {
        input: Box::new(IRNode::Scan {
            relation: "edge".to_string(),
            schema: vec!["x".to_string(), "y".to_string()],
        }),
        predicate: Predicate::ColumnGtConst(0, 5),
    };

    let output = plan.pretty_print(0);
    assert!(output.contains("Filter"));
    assert!(output.contains("Scan"));
    assert!(output.contains("edge"));
}


#[test]
fn test_irnode_clone_and_eq() {
    let scan = IRNode::Scan {
        relation: "test".to_string(),
        schema: vec!["a".to_string()],
    };

    let scan_clone = scan.clone();
    assert_eq!(scan, scan_clone);
}
