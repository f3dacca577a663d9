//! Query plan operators.
use vstd::prelude::*;
use vstd::string::StringExecFns;
use crate::predicate::Predicate;
use crate::text::{
    indentation, index_list_text, name_list_text, texts, push_indentation, push_index_list,
    push_name_list,
};

verus! {

/// An operator of a query plan.
#[derive(Debug, PartialEq, Eq, Hash)]
pub enum IRNode {
    /// Scan a relation (read from EDB or IDB).
    Scan {
        /// Name of the relation to scan.
        relation: String,
        /// Column names in the relation's schema.
        schema: Vec<String>,
    },
    /// Map (project/transform columns). Printed as `Map`.
    Project {
        /// The input node to project from.
        input: Box<IRNode>,
        /// Indices of input columns to keep (in output order).
        projection: Vec<usize>,
        /// Names of columns in the output schema.
        output_schema: Vec<String>,
    },
    /// Filter (select rows matching a predicate).
    Filter {
        /// The input node to filter.
        input: Box<IRNode>,
        /// The condition rows must satisfy.
        predicate: Predicate,
    },
    /// Join two inputs on shared keys.
    Join {
        /// Left input to the join.
        left: Box<IRNode>,
        /// Right input to the join.
        right: Box<IRNode>,
        /// Column indices from left input to join on.
        left_keys: Vec<usize>,
        /// Column indices from right input to join on.
        right_keys: Vec<usize>,
        /// Names of columns in the joined output.
        output_schema: Vec<String>,
    },
    /// Distinct (remove duplicate rows).
    Distinct {
        /// The input node to deduplicate.
        input: Box<IRNode>,
    },
    /// Union (combine multiple inputs).
    Union {
        /// The input nodes to combine.
        inputs: Vec<IRNode>,
    },
}

/// The greatest depth among the nodes of `s`.
pub open spec fn max_depth(s: Seq<IRNode>) -> nat
    decreases s,
{
    if s.len() == 0 {
        0
    } else {
        let rest = max_depth(s.drop_last());
        let d = s.last().depth();
        if d > rest {
            d
        } else {
            rest
        }
    }
}

/// The printouts of the nodes of `s`, each followed by a newline.
pub open spec fn pretty_lines(s: Seq<IRNode>, indent: nat) -> Seq<char>
    decreases s,
{
    if s.len() == 0 {
        Seq::empty()
    } else {
        pretty_lines(s.drop_last(), indent) + s.last().pretty(indent) + "\n"@
    }
}

impl IRNode {
    /// Number of levels below this node: 0 for a node without inputs.
    pub open spec fn depth(self) -> nat
        decreases self,
    {
        match self {
            IRNode::Scan { .. } => 0,
            IRNode::Project { input, .. } => input.depth() + 1,
            IRNode::Filter { input, .. } => input.depth() + 1,
            IRNode::Join { left, right, .. } => if left.depth() > right.depth() {
                left.depth() + 1
            } else {
                right.depth() + 1
            },
            IRNode::Distinct { input } => input.depth() + 1,
            IRNode::Union { inputs } => if inputs.len() == 0 {
                0
            } else {
                max_depth(inputs@) + 1
            },
        }
    }

    /// The column names of the rows this operator produces.
    pub open spec fn schema(self) -> Seq<Seq<char>>
        decreases self,
    {
        match self {
            IRNode::Scan { schema, .. } => texts(schema@),
            IRNode::Project { output_schema, .. } => texts(output_schema@),
            IRNode::Filter { input, .. } => input.schema(),
            IRNode::Join { output_schema, .. } => texts(output_schema@),
            IRNode::Distinct { input } => input.schema(),
            IRNode::Union { inputs } => if inputs.len() == 0 {
                Seq::empty()
            } else {
                inputs@[0].schema()
            },
        }
    }

    /// The printout of the plan rooted here, its first line indented by `indent`
    /// units of two spaces and each input one unit deeper than its operator.
    pub open spec fn pretty(self, indent: nat) -> Seq<char>
        decreases self,
    {
        let prefix = indentation(indent);
        match self {
            IRNode::Scan { relation, schema } => prefix + "Scan("@ + relation@ + ") schema="@
                + name_list_text(texts(schema@)),
            IRNode::Project { input, projection, output_schema } => prefix + "Map(projection="@
                + index_list_text(projection@) + ", output="@ + name_list_text(texts(output_schema@))
                + ")\n"@ + input.pretty(indent + 1),
            IRNode::Filter { input, predicate } => prefix + "Filter("@ + predicate.debug_text()
                + ")\n"@ + input.pretty(indent + 1),
            IRNode::Join { left, right, left_keys, right_keys, output_schema } => prefix
                + "Join(left_keys="@ + index_list_text(left_keys@) + ", right_keys="@
                + index_list_text(right_keys@) + ", output="@ + name_list_text(
                texts(output_schema@),
            ) + ")\n"@ + left.pretty(indent + 1) + "\n"@ + right.pretty(indent + 1),
            IRNode::Distinct { input } => prefix + "Distinct\n"@ + input.pretty(indent + 1),
            IRNode::Union { inputs } => prefix + "Union\n"@ + pretty_lines(inputs@, indent + 1),
        }
    }
}

/// Every node of `s` is at most `max_depth(s)` deep.
proof fn lemma_max_depth_bounds(s: Seq<IRNode>, i: int)
    requires
        0 <= i < s.len(),
    ensures
        s[i].depth() <= max_depth(s),
    decreases s.len(),
{
    if i < s.len() - 1 {
        lemma_max_depth_bounds(s.drop_last(), i);
    }
}

/// Two sequences of plans that are pairwise the same plan.
pub open spec fn same_plans(a: Seq<IRNode>, b: Seq<IRNode>) -> bool
    decreases a,
{
    if a.len() == 0 {
        b.len() == 0
    } else {
        b.len() != 0 && a.last().same_plan(b.last()) && same_plans(a.drop_last(), b.drop_last())
    }
}

impl IRNode {
    /// Both nodes are the same operator over the same names, indices and
    /// predicate, and their inputs are the same plans.
    pub open spec fn same_plan(self, other: IRNode) -> bool
        decreases self,
    {
        match (self, other) {
            (IRNode::Scan { relation: r1, schema: s1 }, IRNode::Scan { relation: r2, schema: s2 }) => {
                r1@ == r2@ && texts(s1@) == texts(s2@)
            },
            (
                IRNode::Project { input: i1, projection: p1, output_schema: o1 },
                IRNode::Project { input: i2, projection: p2, output_schema: o2 },
            ) => p1@ == p2@ && texts(o1@) == texts(o2@) && i1.same_plan(*i2),
            (
                IRNode::Filter { input: i1, predicate: p1 },
                IRNode::Filter { input: i2, predicate: p2 },
            ) => p1 == p2 && i1.same_plan(*i2),
            (
                IRNode::Join {
                    left: l1,
                    right: r1,
                    left_keys: lk1,
                    right_keys: rk1,
                    output_schema: o1,
                },
                IRNode::Join {
                    left: l2,
                    right: r2,
                    left_keys: lk2,
                    right_keys: rk2,
                    output_schema: o2,
                },
            ) => {
                &&& lk1@ == lk2@
                &&& rk1@ == rk2@
                &&& texts(o1@) == texts(o2@)
                &&& l1.same_plan(*l2)
                &&& r1.same_plan(*r2)
            },
            (IRNode::Distinct { input: i1 }, IRNode::Distinct { input: i2 }) => i1.same_plan(*i2),
            (IRNode::Union { inputs: n1 }, IRNode::Union { inputs: n2 }) => same_plans(n1@, n2@),
            _ => false,
        }
    }

    /// Returns the output schema of this node: the column names of the rows it
    /// produces. `Filter` and `Distinct` pass their input's schema through, and a
    /// `Union` has the schema of its first input (none when it has no inputs).
    pub fn output_schema(&self) -> (names: Vec<String>)
        ensures
            texts(names@) == self.schema(),
        decreases self,
    {
        match self {
            IRNode::Scan { schema, .. } => clone_names(schema),
            IRNode::Project { output_schema, .. } => clone_names(output_schema),
            IRNode::Filter { input, .. } => input.output_schema(),
            IRNode::Join { output_schema, .. } => clone_names(output_schema),
            IRNode::Distinct { input } => input.output_schema(),
            IRNode::Union { inputs } => {
                if inputs.len() == 0 {
                    let names: Vec<String> = Vec::new();
                    proof {
                        assert(texts(names@) =~= Seq::empty());
                    }
                    names
                } else {
                    inputs[0].output_schema()
                }
            },
        }
    }

    /// Pretty prints the plan rooted here for debugging: one line per operator,
    /// each input indented one unit (two spaces) deeper than its operator, the
    /// first line `indent` units deep.
    ///
    /// The deepest line is indented by `2 * (indent + depth)` spaces; that length
    /// must fit in `isize::MAX`, the largest string std can allocate.
    pub fn pretty_print(&self, indent: usize) -> (text: String)
        requires
            2 * (indent + self.depth()) <= isize::MAX,
        ensures
            text@ == self.pretty(indent as nat),
        decreases self,
    {
        let mut out = String::new();
        push_indentation(&mut out, indent);
        let ghost prefix = out@;
        match self {
            IRNode::Scan { relation, schema } => {
                out.append("Scan(");
                out.append(relation.as_str());
                out.append(") schema=");
                push_name_list(&mut out, schema);
            },
            IRNode::Project { input, projection, output_schema } => {
                out.append("Map(projection=");
                push_index_list(&mut out, projection);
                out.append(", output=");
                push_name_list(&mut out, output_schema);
                out.append(")\n");
                let child = input.pretty_print(indent + 1);
                out.append(child.as_str());
            },
            IRNode::Filter { input, predicate } => {
                out.append("Filter(");
                predicate.push_debug_text(&mut out);
                out.append(")\n");
                let child = input.pretty_print(indent + 1);
                out.append(child.as_str());
            },
            IRNode::Join { left, right, left_keys, right_keys, output_schema } => {
                out.append("Join(left_keys=");
                push_index_list(&mut out, left_keys);
                out.append(", right_keys=");
                push_index_list(&mut out, right_keys);
                out.append(", output=");
                push_name_list(&mut out, output_schema);
                out.append(")\n");
                let left_text = left.pretty_print(indent + 1);
                out.append(left_text.as_str());
                out.append("\n");
                let right_text = right.pretty_print(indent + 1);
                out.append(right_text.as_str());
            },
            IRNode::Distinct { input } => {
                out.append("Distinct\n");
                let child = input.pretty_print(indent + 1);
                out.append(child.as_str());
            },
            IRNode::Union { inputs } => {
                out.append("Union\n");
                let ghost head = out@;
                let mut i: usize = 0;
                while i < inputs.len()
                    invariant
                        i <= inputs@.len(),
                        2 * (indent + self.depth()) <= isize::MAX,
                        *self == (IRNode::Union { inputs: *inputs }),
                        out@ == head + pretty_lines(inputs@.take(i as int), indent as nat + 1),
                    decreases inputs@.len() - i,
                {
                    proof {
                        lemma_max_depth_bounds(inputs@, i as int);
                    }
                    let line = inputs[i].pretty_print(indent + 1);
                    out.append(line.as_str());
                    out.append("\n");
                    proof {
                        let next = inputs@.take(i + 1);
                        assert(next.drop_last() =~= inputs@.take(i as int));
                        assert(out@ =~= head + pretty_lines(next, indent as nat + 1));
                    }
                    i = i + 1;
                }
                proof {
                    assert(inputs@.take(inputs@.len() as int) =~= inputs@);
                }
            },
        }
        proof {
            assert(out@ =~= self.pretty(indent as nat));
        }
        out
    }

    /// Returns `true` if this node is a `Scan`.
    pub fn is_scan(&self) -> (r: bool)
        ensures
            r == (*self is Scan),
    {
        match self {
            IRNode::Scan { .. } => true,
            _ => false,
        }
    }

    /// Returns `true` if this node is a `Join`.
    pub fn is_join(&self) -> (r: bool)
        ensures
            r == (*self is Join),
    {
        match self {
            IRNode::Join { .. } => true,
            _ => false,
        }
    }
}

/// A copy of a list of names.
fn clone_names(names: &Vec<String>) -> (copy: Vec<String>)
    ensures
        texts(copy@) == texts(names@),
{
    let mut copy: Vec<String> = Vec::new();
    let mut i: usize = 0;
    while i < names.len()
        invariant
            i <= names@.len(),
            texts(copy@) =~= texts(names@).take(i as int),
        decreases names@.len() - i,
    {
        let ghost prev = copy@;
        copy.push(names[i].clone());
        proof {
            assert(texts(copy@) =~= texts(prev).push(names@[i as int]@));
        }
        i = i + 1;
    }
    proof {
        assert(texts(names@).take(names@.len() as int) =~= texts(names@));
    }
    copy
}

impl Clone for IRNode {
    fn clone(&self) -> (copy: Self)
        ensures
            copy.same_plan(*self),
        decreases self,
    {
        match self {
            IRNode::Scan { relation, schema } => IRNode::Scan {
                relation: relation.clone(),
                schema: clone_names(schema),
            },
            IRNode::Project { input, projection, output_schema } => IRNode::Project {
                input: Box::new((**input).clone()),
                projection: projection.clone(),
                output_schema: clone_names(output_schema),
            },
            IRNode::Filter { input, predicate } => IRNode::Filter {
                input: Box::new((**input).clone()),
                predicate: predicate.clone(),
            },
            IRNode::Join { left, right, left_keys, right_keys, output_schema } => IRNode::Join {
                left: Box::new((**left).clone()),
                right: Box::new((**right).clone()),
                left_keys: left_keys.clone(),
                right_keys: right_keys.clone(),
                output_schema: clone_names(output_schema),
            },
            IRNode::Distinct { input } => IRNode::Distinct { input: Box::new((**input).clone()) },
            IRNode::Union { inputs } => {
                let mut copies: Vec<IRNode> = Vec::new();
                let mut i: usize = 0;
                while i < inputs.len()
                    invariant
                        i <= inputs@.len(),
                        *self == (IRNode::Union { inputs: *inputs }),
                        same_plans(copies@, inputs@.take(i as int)),
                    decreases inputs@.len() - i,
                {
                    let ghost prev = copies@;
                    let item: &IRNode = &inputs[i];
                    proof {
                        assert(decreases_to!(self->inputs => self->inputs@));
                        assert(decreases_to!(*self => inputs@[i as int]));
                    }
                    copies.push(item.clone());
                    proof {
                        let next = inputs@.take(i + 1);
                        assert(next.drop_last() =~= inputs@.take(i as int));
                        assert(copies@.drop_last() =~= prev);
                    }
                    i = i + 1;
                }
                proof {
                    assert(inputs@.take(inputs@.len() as int) =~= inputs@);
                }
                IRNode::Union { inputs: copies }
            },
        }
    }
}

} // verus!
