//! Properties of plan schemas, printouts and copies.
use vstd::prelude::*;
use crate::plan::{IRNode, max_depth, pretty_lines, same_plans};
use crate::predicate::Predicate;
use crate::text::{indentation, texts, index_list_text, name_list_text};

verus! {

/// A filter passes its input's schema through unchanged.
pub proof fn lemma_filter_keeps_schema(input: IRNode, predicate: Predicate)
    ensures
        (IRNode::Filter { input: Box::new(input), predicate }).schema() == input.schema(),
{
}

/// Removing duplicate rows passes the input's schema through unchanged.
pub proof fn lemma_distinct_keeps_schema(input: IRNode)
    ensures
        (IRNode::Distinct { input: Box::new(input) }).schema() == input.schema(),
{
}

/// A union of inputs that all have one schema has that schema.
pub proof fn lemma_union_of_common_schema(inputs: Vec<IRNode>, names: Seq<Seq<char>>)
    requires
        inputs@.len() > 0,
        forall|i: int| 0 <= i < inputs@.len() ==> #[trigger] inputs@[i].schema() == names,
    ensures
        (IRNode::Union { inputs }).schema() == names,
{
    assert(inputs@[0].schema() == names);
}

/// Pointwise reading of `same_plans`.
proof fn lemma_same_plans_pointwise(a: Seq<IRNode>, b: Seq<IRNode>)
    requires
        same_plans(a, b),
    ensures
        a.len() == b.len(),
        forall|i: int| 0 <= i < a.len() ==> #[trigger] a[i].same_plan(b[i]),
    decreases a.len(),
{
    if a.len() > 0 {
        lemma_same_plans_pointwise(a.drop_last(), b.drop_last());
        assert forall|i: int| 0 <= i < a.len() implies #[trigger] a[i].same_plan(b[i]) by {
            if i < a.len() - 1 {
                assert(a.drop_last()[i] == a[i]);
                assert(b.drop_last()[i] == b[i]);
            }
        }
    }
}

/// Every plan is the same plan as itself.
pub proof fn lemma_same_plan_reflexive(a: IRNode)
    ensures
        a.same_plan(a),
    decreases a,
{
    match a {
        IRNode::Scan { .. } => {},
        IRNode::Project { input, .. } => lemma_same_plan_reflexive(*input),
        IRNode::Filter { input, .. } => lemma_same_plan_reflexive(*input),
        IRNode::Join { left, right, .. } => {
            lemma_same_plan_reflexive(*left);
            lemma_same_plan_reflexive(*right);
        },
        IRNode::Distinct { input } => lemma_same_plan_reflexive(*input),
        IRNode::Union { inputs } => lemma_same_plans_reflexive(inputs@),
    }
}

/// Every sequence of plans is pairwise the same as itself.
pub proof fn lemma_same_plans_reflexive(s: Seq<IRNode>)
    ensures
        same_plans(s, s),
    decreases s,
{
    if s.len() > 0 {
        lemma_same_plan_reflexive(s.last());
        lemma_same_plans_reflexive(s.drop_last());
    }
}

/// Plans that are the same plan (such as a plan and its clone) have the same
/// schema, the same depth and the same printout at every indentation.
pub proof fn lemma_same_plan_same_output(a: IRNode, b: IRNode, indent: nat)
    requires
        a.same_plan(b),
    ensures
        a.schema() == b.schema(),
        a.depth() == b.depth(),
        a.pretty(indent) == b.pretty(indent),
    decreases a,
{
    match (a, b) {
        (IRNode::Project { input: i1, .. }, IRNode::Project { input: i2, .. }) => {
            lemma_same_plan_same_output(*i1, *i2, indent + 1);
        },
        (IRNode::Filter { input: i1, .. }, IRNode::Filter { input: i2, .. }) => {
            lemma_same_plan_same_output(*i1, *i2, indent + 1);
        },
        (IRNode::Join { left: l1, right: r1, .. }, IRNode::Join { left: l2, right: r2, .. }) => {
            lemma_same_plan_same_output(*l1, *l2, indent + 1);
            lemma_same_plan_same_output(*r1, *r2, indent + 1);
        },
        (IRNode::Distinct { input: i1 }, IRNode::Distinct { input: i2 }) => {
            lemma_same_plan_same_output(*i1, *i2, indent + 1);
        },
        (IRNode::Union { inputs: n1 }, IRNode::Union { inputs: n2 }) => {
            lemma_same_plans_same_output(n1@, n2@, indent + 1);
            lemma_same_plans_pointwise(n1@, n2@);
            if n1@.len() > 0 {
                lemma_same_plan_same_output(n1@[0], n2@[0], indent);
            }
        },
        _ => {},
    }
}

/// Sequences of plans that are pairwise the same have the same greatest depth
/// and the same printouts.
pub proof fn lemma_same_plans_same_output(s: Seq<IRNode>, t: Seq<IRNode>, indent: nat)
    requires
        same_plans(s, t),
    ensures
        max_depth(s) == max_depth(t),
        pretty_lines(s, indent) == pretty_lines(t, indent),
    decreases s,
{
    if s.len() > 0 {
        lemma_same_plan_same_output(s.last(), t.last(), indent);
        lemma_same_plans_same_output(s.drop_last(), t.drop_last(), indent);
    }
}

/// The name list of a schema has one entry per stored name, in order.
pub proof fn lemma_texts_pointwise(names: Seq<String>)
    ensures
        texts(names).len() == names.len(),
        forall|i: int| 0 <= i < names.len() ==> #[trigger] texts(names)[i] == names[i]@,
{
}

/// A scan produces the columns of its relation's schema.
pub proof fn lemma_scan_schema(relation: String, schema: Vec<String>)
    ensures
        (IRNode::Scan { relation, schema }).schema() == texts(schema@),
{
}

/// A projection produces its declared output names, whatever its input and
/// its column indices.
pub proof fn lemma_projection_schema(input: IRNode, projection: Vec<usize>, output_schema: Vec<String>)
    ensures
        (IRNode::Project { input: Box::new(input), projection, output_schema }).schema() == texts(
            output_schema@,
        ),
{
}

/// A join produces its declared output names, whatever its inputs and keys.
pub proof fn lemma_join_schema(
    left: IRNode,
    right: IRNode,
    left_keys: Vec<usize>,
    right_keys: Vec<usize>,
    output_schema: Vec<String>,
)
    ensures
        (IRNode::Join {
            left: Box::new(left),
            right: Box::new(right),
            left_keys,
            right_keys,
            output_schema,
        }).schema() == texts(output_schema@),
{
}

/// A union has the schema of its first input, and no columns when it has no inputs.
pub proof fn lemma_union_schema(inputs: Vec<IRNode>)
    ensures
        inputs@.len() == 0 ==> (IRNode::Union { inputs }).schema() == Seq::<Seq<char>>::empty(),
        inputs@.len() > 0 ==> (IRNode::Union { inputs }).schema() == inputs@[0].schema(),
{
}

/// `n` indentation units are `2 * n` spaces.
pub proof fn lemma_indentation_is_spaces(n: nat)
    ensures
        indentation(n).len() == 2 * n,
        forall|i: int| 0 <= i < 2 * n ==> #[trigger] indentation(n)[i] == ' ',
    decreases n,
{
    reveal_strlit("  ");
    if n > 0 {
        lemma_indentation_is_spaces((n - 1) as nat);
        let prev = indentation((n - 1) as nat);
        assert forall|i: int| 0 <= i < 2 * n implies #[trigger] indentation(n)[i] == ' ' by {
            if i < prev.len() {
                assert(indentation(n)[i] == prev[i]);
            }
        }
    }
}

/// The printout of every node starts with its indentation.
pub proof fn lemma_printout_starts_with_indentation(node: IRNode, indent: nat)
    ensures
        indentation(indent).is_prefix_of(node.pretty(indent)),
{
    let prefix = indentation(indent);
    let text = node.pretty(indent);
    assert(prefix =~= text.subrange(0, prefix.len() as int));
}

/// The printout of an operator with a single input ends with a newline and the
/// input's printout one unit deeper.
pub proof fn lemma_printout_ends_with_input(input: IRNode, indent: nat, predicate: Predicate, projection: Vec<usize>, output_schema: Vec<String>)
    ensures
        ("\n"@ + input.pretty(indent + 1)).is_suffix_of(
            (IRNode::Filter { input: Box::new(input), predicate }).pretty(indent),
        ),
        ("\n"@ + input.pretty(indent + 1)).is_suffix_of(
            (IRNode::Distinct { input: Box::new(input) }).pretty(indent),
        ),
        ("\n"@ + input.pretty(indent + 1)).is_suffix_of(
            (IRNode::Project { input: Box::new(input), projection, output_schema }).pretty(indent),
        ),
{
    reveal_strlit(")\n");
    reveal_strlit("Distinct\n");
    reveal_strlit("\n");
    let child = input.pretty(indent + 1);
    let tail = "\n"@ + child;
    let f = (IRNode::Filter { input: Box::new(input), predicate }).pretty(indent);
    assert(tail =~= f.subrange(f.len() - tail.len(), f.len() as int));
    let d = (IRNode::Distinct { input: Box::new(input) }).pretty(indent);
    assert(tail =~= d.subrange(d.len() - tail.len(), d.len() as int));
    let m = (IRNode::Project { input: Box::new(input), projection, output_schema }).pretty(indent);
    assert(tail =~= m.subrange(m.len() - tail.len(), m.len() as int));
}

/// The printout of a join ends with its left input's printout and then its
/// right input's printout, each one unit deeper and on lines of their own.
pub proof fn lemma_join_printout_ends_with_inputs(
    left: IRNode,
    right: IRNode,
    left_keys: Vec<usize>,
    right_keys: Vec<usize>,
    output_schema: Vec<String>,
    indent: nat,
)
    ensures
        ("\n"@ + left.pretty(indent + 1) + "\n"@ + right.pretty(indent + 1)).is_suffix_of(
            (IRNode::Join {
                left: Box::new(left),
                right: Box::new(right),
                left_keys,
                right_keys,
                output_schema,
            }).pretty(indent),
        ),
{
    reveal_strlit(")\n");
    reveal_strlit("\n");
    let tail = "\n"@ + left.pretty(indent + 1) + "\n"@ + right.pretty(indent + 1);
    let j = (IRNode::Join {
        left: Box::new(left),
        right: Box::new(right),
        left_keys,
        right_keys,
        output_schema,
    }).pretty(indent);
    assert(tail =~= j.subrange(j.len() - tail.len(), j.len() as int));
}

/// The printout of a union ends with its last input's printout, one unit
/// deeper, followed by a newline.
pub proof fn lemma_union_printout_ends_with_last_input(inputs: Vec<IRNode>, indent: nat)
    requires
        inputs@.len() > 0,
    ensures
        (inputs@.last().pretty(indent + 1) + "\n"@).is_suffix_of(
            (IRNode::Union { inputs }).pretty(indent),
        ),
{
    let tail = inputs@.last().pretty(indent + 1) + "\n"@;
    let lines = pretty_lines(inputs@, indent + 1);
    let before = pretty_lines(inputs@.drop_last(), indent + 1);
    assert(lines == before + inputs@.last().pretty(indent + 1) + "\n"@);
    assert(lines =~= before + tail);
    let u = (IRNode::Union { inputs }).pretty(indent);
    assert(u == indentation(indent) + "Union\n"@ + lines);
    assert(tail =~= u.subrange(u.len() - tail.len(), u.len() as int));
}

/// The printouts of two lists of inputs, one after the other, are the
/// printout of the combined list.
pub proof fn lemma_pretty_lines_concat(s: Seq<IRNode>, t: Seq<IRNode>, indent: nat)
    ensures
        pretty_lines(s + t, indent) == pretty_lines(s, indent) + pretty_lines(t, indent),
    decreases t.len(),
{
    if t.len() == 0 {
        assert(s + t =~= s);
        assert(pretty_lines(s, indent) + pretty_lines(t, indent) =~= pretty_lines(s, indent));
    } else {
        assert((s + t).drop_last() =~= s + t.drop_last());
        assert((s + t).last() == t.last());
        lemma_pretty_lines_concat(s, t.drop_last(), indent);
        assert(pretty_lines(s + t, indent) =~= pretty_lines(s, indent) + pretty_lines(t, indent));
    }
}

/// The first line of each operator's printout: after the indentation, the
/// operator's name and what it holds; for operators with inputs the line ends
/// with a newline before the inputs' printouts.
pub proof fn lemma_printout_first_line(
    relation: String,
    names: Vec<String>,
    input: IRNode,
    projection: Vec<usize>,
    predicate: Predicate,
    right: IRNode,
    right_keys: Vec<usize>,
    inputs: Vec<IRNode>,
    indent: nat,
)
    ensures
        (IRNode::Scan { relation, schema: names }).pretty(indent) == indentation(indent)
            + "Scan("@ + relation@ + ") schema="@ + name_list_text(texts(names@)),
        (indentation(indent) + "Map(projection="@ + index_list_text(projection@) + ", output="@
            + name_list_text(texts(names@)) + ")\n"@).is_prefix_of(
            (IRNode::Project {
                input: Box::new(input),
                projection,
                output_schema: names,
            }).pretty(indent),
        ),
        (indentation(indent) + "Filter("@ + predicate.debug_text() + ")\n"@).is_prefix_of(
            (IRNode::Filter { input: Box::new(input), predicate }).pretty(indent),
        ),
        (indentation(indent) + "Join(left_keys="@ + index_list_text(projection@)
            + ", right_keys="@ + index_list_text(right_keys@) + ", output="@ + name_list_text(
            texts(names@),
        ) + ")\n"@).is_prefix_of(
            (IRNode::Join {
                left: Box::new(input),
                right: Box::new(right),
                left_keys: projection,
                right_keys,
                output_schema: names,
            }).pretty(indent),
        ),
        (indentation(indent) + "Distinct\n"@).is_prefix_of(
            (IRNode::Distinct { input: Box::new(input) }).pretty(indent),
        ),
        (indentation(indent) + "Union\n"@).is_prefix_of((IRNode::Union { inputs }).pretty(indent)),
{
    let m = (IRNode::Project { input: Box::new(input), projection, output_schema: names }).pretty(
        indent,
    );
    let mh = indentation(indent) + "Map(projection="@ + index_list_text(projection@) + ", output="@
        + name_list_text(texts(names@)) + ")\n"@;
    assert(mh =~= m.subrange(0, mh.len() as int));
    let f = (IRNode::Filter { input: Box::new(input), predicate }).pretty(indent);
    let fh = indentation(indent) + "Filter("@ + predicate.debug_text() + ")\n"@;
    assert(fh =~= f.subrange(0, fh.len() as int));
    let j = (IRNode::Join {
        left: Box::new(input),
        right: Box::new(right),
        left_keys: projection,
        right_keys,
        output_schema: names,
    }).pretty(indent);
    let jh = indentation(indent) + "Join(left_keys="@ + index_list_text(projection@)
        + ", right_keys="@ + index_list_text(right_keys@) + ", output="@ + name_list_text(
        texts(names@),
    ) + ")\n"@;
    assert(jh =~= j.subrange(0, jh.len() as int));
    let d = (IRNode::Distinct { input: Box::new(input) }).pretty(indent);
    let dh = indentation(indent) + "Distinct\n"@;
    assert(dh =~= d.subrange(0, dh.len() as int));
    let u = (IRNode::Union { inputs }).pretty(indent);
    let uh = indentation(indent) + "Union\n"@;
    assert(uh =~= u.subrange(0, uh.len() as int));
}

} // verus!
