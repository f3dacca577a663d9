use std::collections::HashSet;
use vstd::prelude::*;
use vstd::string::StringExecFns;
use crate::text::{decimal, signed_decimal, push_decimal, push_signed_decimal};

verus! {

/// Filter condition of a query plan.
#[derive(Debug, PartialEq, Eq, Hash)]
pub enum Predicate {
    /// Column equals constant: `column[idx] == value`.
    ColumnEqConst(usize, i64),
    /// Column not equals constant: `column[idx] != value`.
    ColumnNeConst(usize, i64),
    /// Column greater than constant: `column[idx] > value`.
    ColumnGtConst(usize, i64),
    /// Column less than constant: `column[idx] < value`.
    ColumnLtConst(usize, i64),
    /// Column greater or equal to constant: `column[idx] >= value`.
    ColumnGeConst(usize, i64),
    /// Column less or equal to constant: `column[idx] <= value`.
    ColumnLeConst(usize, i64),
    /// Two columns are equal: `column[left] == column[right]`.
    ColumnsEq(usize, usize),
    /// Two columns are not equal: `column[left] != column[right]`.
    ColumnsNe(usize, usize),
    /// Logical AND of two predicates.
    And(Box<Predicate>, Box<Predicate>),
    /// Logical OR of two predicates.
    Or(Box<Predicate>, Box<Predicate>),
    /// Always true.
    True,
    /// Always false.
    False,
}

impl Clone for Predicate {
    fn clone(&self) -> (r: Self)
        ensures
            r == *self,
        decreases self,
    {
        match self {
            Predicate::ColumnEqConst(c, v) => Predicate::ColumnEqConst(*c, *v),
            Predicate::ColumnNeConst(c, v) => Predicate::ColumnNeConst(*c, *v),
            Predicate::ColumnGtConst(c, v) => Predicate::ColumnGtConst(*c, *v),
            Predicate::ColumnLtConst(c, v) => Predicate::ColumnLtConst(*c, *v),
            Predicate::ColumnGeConst(c, v) => Predicate::ColumnGeConst(*c, *v),
            Predicate::ColumnLeConst(c, v) => Predicate::ColumnLeConst(*c, *v),
            Predicate::ColumnsEq(a, b) => Predicate::ColumnsEq(*a, *b),
            Predicate::ColumnsNe(a, b) => Predicate::ColumnsNe(*a, *b),
            Predicate::And(p1, p2) => Predicate::And(Box::new((**p1).clone()), Box::new((**p2).clone())),
            Predicate::Or(p1, p2) => Predicate::Or(Box::new((**p1).clone()), Box::new((**p2).clone())),
            Predicate::True => Predicate::True,
            Predicate::False => Predicate::False,
        }
    }
}


/// Position of the first occurrence of `c` in `s`, if any.
pub open spec fn first_position(s: Seq<usize>, c: usize) -> Option<nat>
    decreases s.len(),
{
    if s.len() == 0 {
        None
    } else if s[0] == c {
        Some(0)
    } else {
        match first_position(s.drop_first(), c) {
            Some(j) => Some(j + 1),
            None => None,
        }
    }
}

/// New index of the old column `c` under `projection` (`projection[new] = old`):
/// the first position at which `c` occurs.
pub open spec fn remap_column(projection: Seq<usize>, c: usize) -> Option<usize> {
    match first_position(projection, c) {
        Some(j) => Some(j as usize),
        None => None,
    }
}

/// The row seen after a projection: its column `j` is the input's column `projection[j]`.
pub open spec fn project_row(row: Seq<i64>, projection: Seq<usize>) -> Seq<i64> {
    Seq::new(projection.len(), |j: int| row[projection[j] as int])
}

/// `name(column, value)`, as the debug rendering shows a comparison with a constant.
pub open spec fn const_comparison_text(name: Seq<char>, c: usize, v: i64) -> Seq<char> {
    name + "("@ + decimal(c as nat) + ", "@ + signed_decimal(v as int) + ")"@
}

/// `name(left, right)`, as the debug rendering shows a comparison of two columns.
pub open spec fn column_comparison_text(name: Seq<char>, a: usize, b: usize) -> Seq<char> {
    name + "("@ + decimal(a as nat) + ", "@ + decimal(b as nat) + ")"@
}

impl Predicate {
    /// The debug rendering of the predicate: the variant's name followed by its
    /// fields in parentheses, such as `And(ColumnGtConst(0, 5), True)`.
    pub open spec fn debug_text(self) -> Seq<char>
        decreases self,
    {
        match self {
            Predicate::ColumnEqConst(c, v) => const_comparison_text("ColumnEqConst"@, c, v),
            Predicate::ColumnNeConst(c, v) => const_comparison_text("ColumnNeConst"@, c, v),
            Predicate::ColumnGtConst(c, v) => const_comparison_text("ColumnGtConst"@, c, v),
            Predicate::ColumnLtConst(c, v) => const_comparison_text("ColumnLtConst"@, c, v),
            Predicate::ColumnGeConst(c, v) => const_comparison_text("ColumnGeConst"@, c, v),
            Predicate::ColumnLeConst(c, v) => const_comparison_text("ColumnLeConst"@, c, v),
            Predicate::ColumnsEq(a, b) => column_comparison_text("ColumnsEq"@, a, b),
            Predicate::ColumnsNe(a, b) => column_comparison_text("ColumnsNe"@, a, b),
            Predicate::And(p1, p2) => "And("@ + p1.debug_text() + ", "@ + p2.debug_text() + ")"@,
            Predicate::Or(p1, p2) => "Or("@ + p1.debug_text() + ", "@ + p2.debug_text() + ")"@,
            Predicate::True => "True"@,
            Predicate::False => "False"@,
        }
    }

    /// Appends the debug rendering of the predicate to `out`.
    pub fn push_debug_text(&self, out: &mut String)
        ensures
            final(out)@ == old(out)@ + self.debug_text(),
        decreases self,
    {
        let ghost start = out@;
        match self {
            Predicate::ColumnEqConst(c, v) => push_const_comparison(out, "ColumnEqConst", *c, *v),
            Predicate::ColumnNeConst(c, v) => push_const_comparison(out, "ColumnNeConst", *c, *v),
            Predicate::ColumnGtConst(c, v) => push_const_comparison(out, "ColumnGtConst", *c, *v),
            Predicate::ColumnLtConst(c, v) => push_const_comparison(out, "ColumnLtConst", *c, *v),
            Predicate::ColumnGeConst(c, v) => push_const_comparison(out, "ColumnGeConst", *c, *v),
            Predicate::ColumnLeConst(c, v) => push_const_comparison(out, "ColumnLeConst", *c, *v),
            Predicate::ColumnsEq(a, b) => push_column_comparison(out, "ColumnsEq", *a, *b),
            Predicate::ColumnsNe(a, b) => push_column_comparison(out, "ColumnsNe", *a, *b),
            Predicate::And(p1, p2) => {
                out.append("And(");
                p1.push_debug_text(out);
                out.append(", ");
                p2.push_debug_text(out);
                out.append(")");
                proof {
                    assert(out@ =~= start + self.debug_text());
                }
            },
            Predicate::Or(p1, p2) => {
                out.append("Or(");
                p1.push_debug_text(out);
                out.append(", ");
                p2.push_debug_text(out);
                out.append(")");
                proof {
                    assert(out@ =~= start + self.debug_text());
                }
            },
            Predicate::True => out.append("True"),
            Predicate::False => out.append("False"),
        }
    }

    /// Whether this predicate holds of `row`, whose `i`-th entry is the value of column `i`.
    pub open spec fn eval(self, row: Seq<i64>) -> bool
        decreases self,
    {
        match self {
            Predicate::ColumnEqConst(c, v) => row[c as int] == v,
            Predicate::ColumnNeConst(c, v) => row[c as int] != v,
            Predicate::ColumnGtConst(c, v) => row[c as int] > v,
            Predicate::ColumnLtConst(c, v) => row[c as int] < v,
            Predicate::ColumnGeConst(c, v) => row[c as int] >= v,
            Predicate::ColumnLeConst(c, v) => row[c as int] <= v,
            Predicate::ColumnsEq(a, b) => row[a as int] == row[b as int],
            Predicate::ColumnsNe(a, b) => row[a as int] != row[b as int],
            Predicate::And(p1, p2) => p1.eval(row) && p2.eval(row),
            Predicate::Or(p1, p2) => p1.eval(row) || p2.eval(row),
            Predicate::True => true,
            Predicate::False => false,
        }
    }

    /// The set of column indices that occur in this predicate.
    pub open spec fn columns(self) -> Set<usize>
        decreases self,
    {
        match self {
            Predicate::ColumnEqConst(c, _) => set![c],
            Predicate::ColumnNeConst(c, _) => set![c],
            Predicate::ColumnGtConst(c, _) => set![c],
            Predicate::ColumnLtConst(c, _) => set![c],
            Predicate::ColumnGeConst(c, _) => set![c],
            Predicate::ColumnLeConst(c, _) => set![c],
            Predicate::ColumnsEq(a, b) => set![a, b],
            Predicate::ColumnsNe(a, b) => set![a, b],
            Predicate::And(p1, p2) => p1.columns().union(p2.columns()),
            Predicate::Or(p1, p2) => p1.columns().union(p2.columns()),
            Predicate::True => Set::empty(),
            Predicate::False => Set::empty(),
        }
    }

    /// Constant folding of `True` and `False` through `And` and `Or`, bottom up.
    pub open spec fn simplified(self) -> Predicate
        decreases self,
    {
        match self {
            Predicate::And(p1, p2) => {
                let s1 = p1.simplified();
                let s2 = p2.simplified();
                if s1 is True {
                    s2
                } else if s2 is True {
                    s1
                } else if s1 is False || s2 is False {
                    Predicate::False
                } else {
                    Predicate::And(Box::new(s1), Box::new(s2))
                }
            },
            Predicate::Or(p1, p2) => {
                let s1 = p1.simplified();
                let s2 = p2.simplified();
                if s1 is True || s2 is True {
                    Predicate::True
                } else if s1 is False {
                    s2
                } else if s2 is False {
                    s1
                } else {
                    Predicate::Or(Box::new(s1), Box::new(s2))
                }
            },
            other => other,
        }
    }

    /// No `True` or `False` stands as an operand of an `And` or an `Or`.
    pub open spec fn is_folded(self) -> bool
        decreases self,
    {
        match self {
            Predicate::And(p1, p2) => {
                &&& !(*p1 is True) && !(*p1 is False)
                &&& !(*p2 is True) && !(*p2 is False)
                &&& p1.is_folded()
                &&& p2.is_folded()
            },
            Predicate::Or(p1, p2) => {
                &&& !(*p1 is True) && !(*p1 is False)
                &&& !(*p2 is True) && !(*p2 is False)
                &&& p1.is_folded()
                &&& p2.is_folded()
            },
            _ => true,
        }
    }

    /// The predicate with its columns renumbered for `projection`, where
    /// `projection[new] = old`. A comparison whose columns do not all survive is
    /// `None`; an `And` keeps the conjuncts that survive; an `Or` needs both sides.
    pub open spec fn adjusted(self, projection: Seq<usize>) -> Option<Predicate>
        decreases self,
    {
        match self {
            Predicate::ColumnEqConst(c, v) => match remap_column(projection, c) {
                Some(j) => Some(Predicate::ColumnEqConst(j, v)),
                None => None,
            },
            Predicate::ColumnNeConst(c, v) => match remap_column(projection, c) {
                Some(j) => Some(Predicate::ColumnNeConst(j, v)),
                None => None,
            },
            Predicate::ColumnGtConst(c, v) => match remap_column(projection, c) {
                Some(j) => Some(Predicate::ColumnGtConst(j, v)),
                None => None,
            },
            Predicate::ColumnLtConst(c, v) => match remap_column(projection, c) {
                Some(j) => Some(Predicate::ColumnLtConst(j, v)),
                None => None,
            },
            Predicate::ColumnGeConst(c, v) => match remap_column(projection, c) {
                Some(j) => Some(Predicate::ColumnGeConst(j, v)),
                None => None,
            },
            Predicate::ColumnLeConst(c, v) => match remap_column(projection, c) {
                Some(j) => Some(Predicate::ColumnLeConst(j, v)),
                None => None,
            },
            Predicate::ColumnsEq(a, b) => match (remap_column(projection, a), remap_column(projection, b)) {
                (Some(x), Some(y)) => Some(Predicate::ColumnsEq(x, y)),
                _ => None,
            },
            Predicate::ColumnsNe(a, b) => match (remap_column(projection, a), remap_column(projection, b)) {
                (Some(x), Some(y)) => Some(Predicate::ColumnsNe(x, y)),
                _ => None,
            },
            Predicate::And(p1, p2) => match (p1.adjusted(projection), p2.adjusted(projection)) {
                (Some(q1), Some(q2)) => Some(Predicate::And(Box::new(q1), Box::new(q2))),
                (Some(q1), None) => Some(q1),
                (None, Some(q2)) => Some(q2),
                (None, None) => None,
            },
            Predicate::Or(p1, p2) => match (p1.adjusted(projection), p2.adjusted(projection)) {
                (Some(q1), Some(q2)) => Some(Predicate::Or(Box::new(q1), Box::new(q2))),
                _ => None,
            },
            Predicate::True => Some(Predicate::True),
            Predicate::False => Some(Predicate::False),
        }
    }

    /// Returns all column indices referenced by this predicate.
    pub fn referenced_columns(&self) -> (cols: HashSet<usize>)
        ensures
            cols@ == self.columns(),
    {
        let mut cols = HashSet::new();
        self.collect_columns(&mut cols);
        proof {
            assert(cols@ =~= self.columns());
        }
        cols
    }

    fn collect_columns(&self, cols: &mut HashSet<usize>)
        ensures
            final(cols)@ == old(cols)@.union(self.columns()),
        decreases self,
    {
        match self {
            Predicate::ColumnEqConst(col, _)
            | Predicate::ColumnNeConst(col, _)
            | Predicate::ColumnGtConst(col, _)
            | Predicate::ColumnLtConst(col, _)
            | Predicate::ColumnGeConst(col, _)
            | Predicate::ColumnLeConst(col, _) => {
                cols.insert(*col);
                assert(cols@ =~= old(cols)@.union(self.columns()));
            },
            Predicate::ColumnsEq(left, right) | Predicate::ColumnsNe(left, right) => {
                cols.insert(*left);
                cols.insert(*right);
                assert(cols@ =~= old(cols)@.union(self.columns()));
            },
            Predicate::And(p1, p2) | Predicate::Or(p1, p2) => {
                p1.collect_columns(cols);
                p2.collect_columns(cols);
                assert(cols@ =~= old(cols)@.union(self.columns()));
            },
            Predicate::True | Predicate::False => {
                assert(cols@ =~= old(cols)@.union(self.columns()));
            },
        }
    }

    /// Returns `true` if this predicate is `Predicate::True`.
    pub fn is_always_true(&self) -> (r: bool)
        ensures
            r == (*self is True),
    {
        match self {
            Predicate::True => true,
            _ => false,
        }
    }

    /// Returns `true` if this predicate is `Predicate::False`.
    pub fn is_always_false(&self) -> (r: bool)
        ensures
            r == (*self is False),
    {
        match self {
            Predicate::False => true,
            _ => false,
        }
    }

    /// Simplifies the predicate by folding `True` and `False` through `And` and `Or`.
    pub fn simplify(self) -> (r: Self)
        ensures
            r == self.simplified(),
        decreases self,
    {
        match self {
            Predicate::And(p1, p2) => {
                let p1 = (*p1).simplify();
                let p2 = (*p2).simplify();
                if p1.is_always_true() {
                    p2
                } else if p2.is_always_true() {
                    p1
                } else if p1.is_always_false() || p2.is_always_false() {
                    Predicate::False
                } else {
                    Predicate::And(Box::new(p1), Box::new(p2))
                }
            },
            Predicate::Or(p1, p2) => {
                let p1 = (*p1).simplify();
                let p2 = (*p2).simplify();
                if p1.is_always_true() || p2.is_always_true() {
                    Predicate::True
                } else if p1.is_always_false() {
                    p2
                } else if p2.is_always_false() {
                    p1
                } else {
                    Predicate::Or(Box::new(p1), Box::new(p2))
                }
            },
            other => other,
        }
    }

    /// Adjusts column indices after a projection, where `projection[new] = old`.
    ///
    /// Returns `None` when the predicate cannot be expressed over the projected columns.
    pub fn adjust_for_projection(&self, projection: &[usize]) -> (r: Option<Self>)
        ensures
            r == self.adjusted(projection@),
        decreases self,
    {
        match self {
            Predicate::ColumnEqConst(col, val) => match find_new_index(projection, *col) {
                Some(j) => Some(Predicate::ColumnEqConst(j, *val)),
                None => None,
            },
            Predicate::ColumnNeConst(col, val) => match find_new_index(projection, *col) {
                Some(j) => Some(Predicate::ColumnNeConst(j, *val)),
                None => None,
            },
            Predicate::ColumnGtConst(col, val) => match find_new_index(projection, *col) {
                Some(j) => Some(Predicate::ColumnGtConst(j, *val)),
                None => None,
            },
            Predicate::ColumnLtConst(col, val) => match find_new_index(projection, *col) {
                Some(j) => Some(Predicate::ColumnLtConst(j, *val)),
                None => None,
            },
            Predicate::ColumnGeConst(col, val) => match find_new_index(projection, *col) {
                Some(j) => Some(Predicate::ColumnGeConst(j, *val)),
                None => None,
            },
            Predicate::ColumnLeConst(col, val) => match find_new_index(projection, *col) {
                Some(j) => Some(Predicate::ColumnLeConst(j, *val)),
                None => None,
            },
            Predicate::ColumnsEq(left, right) => match (
                find_new_index(projection, *left),
                find_new_index(projection, *right),
            ) {
                (Some(new_left), Some(new_right)) => Some(Predicate::ColumnsEq(new_left, new_right)),
                _ => None,
            },
            Predicate::ColumnsNe(left, right) => match (
                find_new_index(projection, *left),
                find_new_index(projection, *right),
            ) {
                (Some(new_left), Some(new_right)) => Some(Predicate::ColumnsNe(new_left, new_right)),
                _ => None,
            },
            Predicate::And(p1, p2) => match (
                p1.adjust_for_projection(projection),
                p2.adjust_for_projection(projection),
            ) {
                (Some(new_p1), Some(new_p2)) => Some(
                    Predicate::And(Box::new(new_p1), Box::new(new_p2)),
                ),
                (Some(new_p1), None) => Some(new_p1),
                (None, Some(new_p2)) => Some(new_p2),
                (None, None) => None,
            },
            Predicate::Or(p1, p2) => match (
                p1.adjust_for_projection(projection),
                p2.adjust_for_projection(projection),
            ) {
                (Some(new_p1), Some(new_p2)) => Some(
                    Predicate::Or(Box::new(new_p1), Box::new(new_p2)),
                ),
                _ => None,
            },
            Predicate::True => Some(Predicate::True),
            Predicate::False => Some(Predicate::False),
        }
    }
}

fn push_const_comparison(out: &mut String, name: &str, c: usize, v: i64)
    ensures
        final(out)@ == old(out)@ + const_comparison_text(name@, c, v),
{
    let ghost start = out@;
    out.append(name);
    out.append("(");
    push_decimal(out, c as u64);
    out.append(", ");
    push_signed_decimal(out, v);
    out.append(")");
    proof {
        assert(out@ =~= start + const_comparison_text(name@, c, v));
    }
}

fn push_column_comparison(out: &mut String, name: &str, a: usize, b: usize)
    ensures
        final(out)@ == old(out)@ + column_comparison_text(name@, a, b),
{
    let ghost start = out@;
    out.append(name);
    out.append("(");
    push_decimal(out, a as u64);
    out.append(", ");
    push_decimal(out, b as u64);
    out.append(")");
    proof {
        assert(out@ =~= start + column_comparison_text(name@, a, b));
    }
}

/// The characterisation of `first_position` by the first match of a scan.
proof fn lemma_first_position_scan(s: Seq<usize>, c: usize, i: int)
    requires
        0 <= i <= s.len(),
        forall|k: int| 0 <= k < i ==> s[k] != c,
    ensures
        i < s.len() && s[i] == c ==> first_position(s, c) == Some(i as nat),
        i == s.len() ==> first_position(s, c) is None,
    decreases i,
{
    if i > 0 {
        let t = s.drop_first();
        assert forall|k: int| 0 <= k < i - 1 implies t[k] != c by {
            assert(t[k] == s[k + 1]);
        }
        lemma_first_position_scan(t, c, i - 1);
        if i < s.len() {
            assert(t[i - 1] == s[i]);
        }
    }
}

/// Index of the first occurrence of `old_idx` in `projection`.
fn find_new_index(projection: &[usize], old_idx: usize) -> (r: Option<usize>)
    ensures
        r == remap_column(projection@, old_idx),
{
    let mut j: usize = 0;
    while j < projection.len()
        invariant
            j <= projection@.len(),
            forall|k: int| 0 <= k < j ==> projection@[k] != old_idx,
        decreases projection@.len() - j,
    {
        if projection[j] == old_idx {
            proof {
                lemma_first_position_scan(projection@, old_idx, j as int);
            }
            return Some(j);
        }
        j = j + 1;
    }
    proof {
        lemma_first_position_scan(projection@, old_idx, j as int);
    }
    None
}

} // verus!
