//! Properties of predicate simplification and projection adjustment.
use vstd::prelude::*;
use crate::predicate::{
    Predicate, first_position, remap_column, project_row, const_comparison_text,
    column_comparison_text,
};
use crate::text::{decimal, signed_decimal};
use crate::text_laws::{is_digit, lemma_decimal_denotes, lemma_decimal_injective, lemma_signed_decimal_denotes};

verus! {

/// A found position holds the searched column.
proof fn lemma_first_position_found(s: Seq<usize>, c: usize)
    ensures
        first_position(s, c) matches Some(j) ==> j < s.len() && s[j as int] == c,
    decreases s.len(),
{
    if s.len() > 0 && s[0] != c {
        lemma_first_position_found(s.drop_first(), c);
    }
}

/// A column that occurs in `s` has a position.
proof fn lemma_first_position_complete(s: Seq<usize>, c: usize)
    requires
        s.contains(c),
    ensures
        first_position(s, c) is Some,
    decreases s.len(),
{
    if s[0] != c {
        let k = choose|k: int| 0 <= k < s.len() && s[k] == c;
        assert(s.drop_first()[k - 1] == c);
        lemma_first_position_complete(s.drop_first(), c);
    }
}

/// A remapped column reads, in the projected row, the value the original
/// column has in the input row.
proof fn lemma_remap_reads_same(projection: Seq<usize>, c: usize, row: Seq<i64>)
    requires
        projection.len() <= usize::MAX,
    ensures
        remap_column(projection, c) matches Some(j) ==> {
            &&& j < projection.len()
            &&& project_row(row, projection)[j as int] == row[c as int]
        },
{
    lemma_first_position_found(projection, c);
}

/// Simplification does not change what a predicate means: on every row the
/// simplified predicate holds exactly when the original one does.
pub proof fn lemma_simplify_preserves_eval(p: Predicate, row: Seq<i64>)
    ensures
        p.simplified().eval(row) == p.eval(row),
    decreases p,
{
    match p {
        Predicate::And(p1, p2) => {
            lemma_simplify_preserves_eval(*p1, row);
            lemma_simplify_preserves_eval(*p2, row);
        },
        Predicate::Or(p1, p2) => {
            lemma_simplify_preserves_eval(*p1, row);
            lemma_simplify_preserves_eval(*p2, row);
        },
        _ => {},
    }
}

/// After simplification no `True` or `False` is left inside an `And` or an `Or`:
/// a constant can only be the whole predicate.
pub proof fn lemma_simplify_is_folded(p: Predicate)
    ensures
        p.simplified().is_folded(),
    decreases p,
{
    match p {
        Predicate::And(p1, p2) => {
            lemma_simplify_is_folded(*p1);
            lemma_simplify_is_folded(*p2);
        },
        Predicate::Or(p1, p2) => {
            lemma_simplify_is_folded(*p1);
            lemma_simplify_is_folded(*p2);
        },
        _ => {},
    }
}

/// A predicate with no constant inside an `And` or an `Or` is left unchanged by
/// simplification.
pub proof fn lemma_folded_is_fixed_point(p: Predicate)
    requires
        p.is_folded(),
    ensures
        p.simplified() == p,
    decreases p,
{
    match p {
        Predicate::And(p1, p2) => {
            lemma_folded_is_fixed_point(*p1);
            lemma_folded_is_fixed_point(*p2);
        },
        Predicate::Or(p1, p2) => {
            lemma_folded_is_fixed_point(*p1);
            lemma_folded_is_fixed_point(*p2);
        },
        _ => {},
    }
}

/// Simplifying twice gives the same predicate as simplifying once.
pub proof fn lemma_simplify_idempotent(p: Predicate)
    ensures
        p.simplified().simplified() == p.simplified(),
{
    lemma_simplify_is_folded(p);
    lemma_folded_is_fixed_point(p.simplified());
}

/// Simplification references no column that the original predicate does not.
pub proof fn lemma_simplify_columns_subset(p: Predicate)
    ensures
        p.simplified().columns().subset_of(p.columns()),
    decreases p,
{
    match p {
        Predicate::And(p1, p2) => {
            lemma_simplify_columns_subset(*p1);
            lemma_simplify_columns_subset(*p2);
        },
        Predicate::Or(p1, p2) => {
            lemma_simplify_columns_subset(*p1);
            lemma_simplify_columns_subset(*p2);
        },
        _ => {},
    }
}

/// An adjusted predicate references only columns of the projected row.
pub proof fn lemma_adjust_columns_in_range(p: Predicate, projection: Seq<usize>)
    requires
        projection.len() <= usize::MAX,
    ensures
        p.adjusted(projection) matches Some(q) ==> forall|c: usize|
            q.columns().contains(c) ==> c < projection.len(),
    decreases p,
{
    let row = Seq::<i64>::empty();
    match p {
        Predicate::And(p1, p2) | Predicate::Or(p1, p2) => {
            lemma_adjust_columns_in_range(*p1, projection);
            lemma_adjust_columns_in_range(*p2, projection);
            if let Some(q) = p.adjusted(projection) {
                assert forall|d: usize| q.columns().contains(d) implies d < projection.len() by {
                    if let Some(q1) = p1.adjusted(projection) {
                        if q1.columns().contains(d) {
                        }
                    }
                    if let Some(q2) = p2.adjusted(projection) {
                        if q2.columns().contains(d) {
                        }
                    }
                }
            }
        },
        Predicate::True | Predicate::False => {},
        Predicate::ColumnsEq(a, b) | Predicate::ColumnsNe(a, b) => {
            lemma_remap_reads_same(projection, a, row);
            lemma_remap_reads_same(projection, b, row);
            if let Some(q) = p.adjusted(projection) {
                assert forall|d: usize| q.columns().contains(d) implies d < projection.len() by {
                    assert(d == remap_column(projection, a).unwrap() || d == remap_column(
                        projection,
                        b,
                    ).unwrap());
                }
            }
        },
        Predicate::ColumnEqConst(c, _) | Predicate::ColumnNeConst(c, _)
        | Predicate::ColumnGtConst(c, _) | Predicate::ColumnLtConst(c, _)
        | Predicate::ColumnGeConst(c, _) | Predicate::ColumnLeConst(c, _) => {
            lemma_remap_reads_same(projection, c, row);
            if let Some(q) = p.adjusted(projection) {
                assert forall|d: usize| q.columns().contains(d) implies d < projection.len() by {
                    assert(d == remap_column(projection, c).unwrap());
                }
            }
        },
    }
}

/// Pushing a filter through a projection is sound: when the adjusted predicate
/// exists, every input row that satisfies the original predicate gives a
/// projected row that satisfies the adjusted one.
pub proof fn lemma_adjust_sound(p: Predicate, projection: Seq<usize>, row: Seq<i64>)
    requires
        projection.len() <= usize::MAX,
    ensures
        p.adjusted(projection) matches Some(q) ==> (p.eval(row) ==> q.eval(
            project_row(row, projection),
        )),
    decreases p,
{
    match p {
        Predicate::ColumnEqConst(c, _) | Predicate::ColumnNeConst(c, _)
        | Predicate::ColumnGtConst(c, _) | Predicate::ColumnLtConst(c, _)
        | Predicate::ColumnGeConst(c, _) | Predicate::ColumnLeConst(c, _) => {
            lemma_remap_reads_same(projection, c, row);
        },
        Predicate::ColumnsEq(a, b) | Predicate::ColumnsNe(a, b) => {
            lemma_remap_reads_same(projection, a, row);
            lemma_remap_reads_same(projection, b, row);
        },
        Predicate::And(p1, p2) | Predicate::Or(p1, p2) => {
            lemma_adjust_sound(*p1, projection, row);
            lemma_adjust_sound(*p2, projection, row);
        },
        _ => {},
    }
}

/// When every column of the predicate survives the projection, adjustment
/// succeeds and the adjusted predicate holds of the projected row exactly when
/// the original holds of the input row.
pub proof fn lemma_adjust_exact(p: Predicate, projection: Seq<usize>, row: Seq<i64>)
    requires
        projection.len() <= usize::MAX,
        p.columns().subset_of(projection.to_set()),
    ensures
        p.adjusted(projection) is Some,
        p.adjusted(projection).unwrap().eval(project_row(row, projection)) == p.eval(row),
    decreases p,
{
    match p {
        Predicate::ColumnEqConst(c, _) | Predicate::ColumnNeConst(c, _)
        | Predicate::ColumnGtConst(c, _) | Predicate::ColumnLtConst(c, _)
        | Predicate::ColumnGeConst(c, _) | Predicate::ColumnLeConst(c, _) => {
            assert(p.columns().contains(c));
            lemma_first_position_complete(projection, c);
            lemma_remap_reads_same(projection, c, row);
        },
        Predicate::ColumnsEq(a, b) | Predicate::ColumnsNe(a, b) => {
            assert(p.columns().contains(a));
            assert(p.columns().contains(b));
            lemma_first_position_complete(projection, a);
            lemma_first_position_complete(projection, b);
            lemma_remap_reads_same(projection, a, row);
            lemma_remap_reads_same(projection, b, row);
        },
        Predicate::And(p1, p2) | Predicate::Or(p1, p2) => {
            lemma_adjust_exact(*p1, projection, row);
            lemma_adjust_exact(*p2, projection, row);
        },
        _ => {},
    }
}

/// Number of operators and comparisons in a predicate.
pub open spec fn node_count(p: Predicate) -> nat
    decreases p,
{
    match p {
        Predicate::And(p1, p2) => 1 + node_count(*p1) + node_count(*p2),
        Predicate::Or(p1, p2) => 1 + node_count(*p1) + node_count(*p2),
        _ => 1,
    }
}

/// Simplification never makes a predicate bigger.
pub proof fn lemma_simplify_never_grows(p: Predicate)
    ensures
        node_count(p.simplified()) <= node_count(p),
    decreases p,
{
    match p {
        Predicate::And(p1, p2) => {
            lemma_simplify_never_grows(*p1);
            lemma_simplify_never_grows(*p2);
        },
        Predicate::Or(p1, p2) => {
            lemma_simplify_never_grows(*p1);
            lemma_simplify_never_grows(*p2);
        },
        _ => {},
    }
}

/// The folding rules of simplification, for every operand `x`:
/// `True AND x -> x`, `x AND True -> x`, `False AND x -> False`, `x AND False -> False`,
/// `True OR x -> True`, `x OR True -> True`, `False OR x -> x`, `x OR False -> x`
/// (where `x` stands for its own simplification).
pub proof fn lemma_simplify_folding_rules(x: Predicate)
    ensures
        Predicate::And(Box::new(Predicate::True), Box::new(x)).simplified() == x.simplified(),
        Predicate::And(Box::new(x), Box::new(Predicate::True)).simplified() == x.simplified(),
        Predicate::And(Box::new(Predicate::False), Box::new(x)).simplified() == Predicate::False,
        Predicate::And(Box::new(x), Box::new(Predicate::False)).simplified() == Predicate::False,
        Predicate::Or(Box::new(Predicate::True), Box::new(x)).simplified() == Predicate::True,
        Predicate::Or(Box::new(x), Box::new(Predicate::True)).simplified() == Predicate::True,
        Predicate::Or(Box::new(Predicate::False), Box::new(x)).simplified() == x.simplified(),
        Predicate::Or(Box::new(x), Box::new(Predicate::False)).simplified() == x.simplified(),
{
    assert(Predicate::True.simplified() == Predicate::True);
    assert(Predicate::False.simplified() == Predicate::False);
}

/// An `And` survives a projection when either conjunct does: when both survive
/// it is the `And` of the adjusted conjuncts, and when only one survives it is
/// that conjunct's adjustment, whichever side it stands on.
pub proof fn lemma_adjust_and_keeps_survivors(p1: Predicate, p2: Predicate, projection: Seq<usize>)
    ensures
        Predicate::And(Box::new(p1), Box::new(p2)).adjusted(projection) is Some <==> (p1.adjusted(
            projection,
        ) is Some || p2.adjusted(projection) is Some),
        p1.adjusted(projection) is Some && p2.adjusted(projection) is None ==> Predicate::And(
            Box::new(p1),
            Box::new(p2),
        ).adjusted(projection) == p1.adjusted(projection),
        p1.adjusted(projection) is None && p2.adjusted(projection) is Some ==> Predicate::And(
            Box::new(p1),
            Box::new(p2),
        ).adjusted(projection) == p2.adjusted(projection),
        p1.adjusted(projection) is Some && p2.adjusted(projection) is Some ==> Predicate::And(
            Box::new(p1),
            Box::new(p2),
        ).adjusted(projection) == Some(
            Predicate::And(
                Box::new(p1.adjusted(projection).unwrap()),
                Box::new(p2.adjusted(projection).unwrap()),
            ),
        ),
{
}

/// Adjusting an `And` does not depend on the order of its conjuncts, up to the
/// order of the operands of the result.
pub proof fn lemma_adjust_and_symmetric(p1: Predicate, p2: Predicate, projection: Seq<usize>)
    ensures
        ({
            let a = Predicate::And(Box::new(p1), Box::new(p2)).adjusted(projection);
            let b = Predicate::And(Box::new(p2), Box::new(p1)).adjusted(projection);
            match (a, b) {
                (None, None) => true,
                (Some(x), Some(y)) => x == y || (x matches Predicate::And(l, r) && y
                    == Predicate::And(r, l)),
                _ => false,
            }
        }),
{
}

/// An `Or` survives a projection exactly when both of its sides do.
pub proof fn lemma_adjust_or_needs_both(p1: Predicate, p2: Predicate, projection: Seq<usize>)
    ensures
        Predicate::Or(Box::new(p1), Box::new(p2)).adjusted(projection) is Some <==> (p1.adjusted(
            projection,
        ) is Some && p2.adjusted(projection) is Some),
{
}

/// A column is remapped to the position of its first occurrence in the
/// projection, and to nothing when it does not occur.
pub proof fn lemma_remap_is_first_occurrence(projection: Seq<usize>, c: usize)
    requires
        projection.len() <= usize::MAX,
    ensures
        remap_column(projection, c) matches Some(j) ==> {
            &&& j < projection.len()
            &&& projection[j as int] == c
            &&& forall|k: int| 0 <= k < j ==> projection[k] != c
        },
        remap_column(projection, c) is None <==> !projection.contains(c),
{
    lemma_first_position_found(projection, c);
    lemma_first_position_minimal(projection, c);
    if projection.contains(c) {
        lemma_first_position_complete(projection, c);
    }
}

/// No earlier position holds the searched column.
proof fn lemma_first_position_minimal(s: Seq<usize>, c: usize)
    ensures
        first_position(s, c) matches Some(j) ==> forall|k: int| 0 <= k < j ==> s[k] != c,
    decreases s.len(),
{
    if s.len() > 0 && s[0] != c {
        lemma_first_position_minimal(s.drop_first(), c);
        lemma_first_position_found(s, c);
        if let Some(j) = first_position(s, c) {
            assert forall|k: int| 0 <= k < j implies s[k] != c by {
                if k > 0 {
                    assert(s[k] == s.drop_first()[k - 1]);
                }
            }
        }
    }
}

/// Equal concatenations with equally long fronts have equal fronts and backs.
proof fn lemma_split(a: Seq<char>, x: Seq<char>, b: Seq<char>, y: Seq<char>)
    requires
        a + x == b + y,
        a.len() == b.len(),
    ensures
        a == b,
        x == y,
{
    assert(a =~= (a + x).subrange(0, a.len() as int));
    assert(b =~= (b + y).subrange(0, b.len() as int));
    assert(x =~= (a + x).subrange(a.len() as int, (a + x).len() as int));
    assert(y =~= (b + y).subrange(b.len() as int, (b + y).len() as int));
}

/// A decimal followed by a non-digit is read back unambiguously.
proof fn lemma_decimal_prefix(a: nat, x: Seq<char>, b: nat, y: Seq<char>)
    requires
        decimal(a) + x == decimal(b) + y,
        x.len() > 0 && !is_digit(x[0]),
        y.len() > 0 && !is_digit(y[0]),
    ensures
        a == b,
        x == y,
{
    lemma_decimal_denotes(a);
    lemma_decimal_denotes(b);
    let da = decimal(a);
    let db = decimal(b);
    if da.len() < db.len() {
        assert((da + x)[da.len() as int] == x[0]);
        assert((db + y)[da.len() as int] == db[da.len() as int]);
    } else if db.len() < da.len() {
        assert((db + y)[db.len() as int] == y[0]);
        assert((da + x)[db.len() as int] == da[db.len() as int]);
    }
    lemma_split(da, x, db, y);
    lemma_decimal_injective(a, b);
}

/// A signed decimal followed by a non-digit is read back unambiguously.
proof fn lemma_signed_decimal_prefix(v: int, x: Seq<char>, w: int, y: Seq<char>)
    requires
        signed_decimal(v) + x == signed_decimal(w) + y,
        x.len() > 0 && !is_digit(x[0]),
        y.len() > 0 && !is_digit(y[0]),
    ensures
        v == w,
        x == y,
{
    reveal_strlit("-");
    lemma_signed_decimal_denotes(v);
    lemma_signed_decimal_denotes(w);
    assert((signed_decimal(v) + x)[0] == signed_decimal(v)[0]);
    assert((signed_decimal(w) + y)[0] == signed_decimal(w)[0]);
    if v < 0 {
        let m = (-v) as nat;
        let k = (-w) as nat;
        assert(signed_decimal(v) + x =~= "-"@ + (decimal(m) + x));
        assert(signed_decimal(w) + y =~= "-"@ + (decimal(k) + y));
        lemma_split("-"@, decimal(m) + x, "-"@, decimal(k) + y);
        lemma_decimal_prefix(m, x, k, y);
    } else {
        lemma_decimal_prefix(v as nat, x, w as nat, y);
    }
}

/// Two renderings of comparisons with a constant under one name are read back unambiguously.
proof fn lemma_const_comparison_prefix(
    name: Seq<char>,
    c: usize,
    v: i64,
    r1: Seq<char>,
    d: usize,
    w: i64,
    r2: Seq<char>,
)
    requires
        const_comparison_text(name, c, v) + r1 == const_comparison_text(name, d, w) + r2,
    ensures
        c == d,
        v == w,
        r1 == r2,
{
    reveal_strlit("(");
    reveal_strlit(", ");
    reveal_strlit(")");
    let head = name + "("@;
    let x1 = ", "@ + (signed_decimal(v as int) + (")"@ + r1));
    let x2 = ", "@ + (signed_decimal(w as int) + (")"@ + r2));
    assert(const_comparison_text(name, c, v) + r1 =~= head + (decimal(c as nat) + x1));
    assert(const_comparison_text(name, d, w) + r2 =~= head + (decimal(d as nat) + x2));
    lemma_split(head, decimal(c as nat) + x1, head, decimal(d as nat) + x2);
    assert(x1[0] == ',' && x2[0] == ',');
    lemma_decimal_prefix(c as nat, x1, d as nat, x2);
    lemma_split(", "@, signed_decimal(v as int) + (")"@ + r1), ", "@, signed_decimal(w as int) + (")"@ + r2));
    assert((")"@ + r1)[0] == ')' && (")"@ + r2)[0] == ')');
    lemma_signed_decimal_prefix(v as int, ")"@ + r1, w as int, ")"@ + r2);
    lemma_split(")"@, r1, ")"@, r2);
}

/// Two renderings of column comparisons under one name are read back unambiguously.
proof fn lemma_column_comparison_prefix(
    name: Seq<char>,
    a: usize,
    b: usize,
    r1: Seq<char>,
    c: usize,
    d: usize,
    r2: Seq<char>,
)
    requires
        column_comparison_text(name, a, b) + r1 == column_comparison_text(name, c, d) + r2,
    ensures
        a == c,
        b == d,
        r1 == r2,
{
    reveal_strlit("(");
    reveal_strlit(", ");
    reveal_strlit(")");
    let head = name + "("@;
    let x1 = ", "@ + (decimal(b as nat) + (")"@ + r1));
    let x2 = ", "@ + (decimal(d as nat) + (")"@ + r2));
    assert(column_comparison_text(name, a, b) + r1 =~= head + (decimal(a as nat) + x1));
    assert(column_comparison_text(name, c, d) + r2 =~= head + (decimal(c as nat) + x2));
    lemma_split(head, decimal(a as nat) + x1, head, decimal(c as nat) + x2);
    assert(x1[0] == ',' && x2[0] == ',');
    lemma_decimal_prefix(a as nat, x1, c as nat, x2);
    lemma_split(", "@, decimal(b as nat) + (")"@ + r1), ", "@, decimal(d as nat) + (")"@ + r2));
    assert((")"@ + r1)[0] == ')' && (")"@ + r2)[0] == ')');
    lemma_decimal_prefix(b as nat, ")"@ + r1, d as nat, ")"@ + r2);
    lemma_split(")"@, r1, ")"@, r2);
}

/// Which variant a predicate is, as a number.
spec fn variant_code(p: Predicate) -> int {
    match p {
        Predicate::ColumnEqConst(..) => 0,
        Predicate::ColumnNeConst(..) => 1,
        Predicate::ColumnGtConst(..) => 2,
        Predicate::ColumnLtConst(..) => 3,
        Predicate::ColumnGeConst(..) => 4,
        Predicate::ColumnLeConst(..) => 5,
        Predicate::ColumnsEq(..) => 6,
        Predicate::ColumnsNe(..) => 7,
        Predicate::And(..) => 8,
        Predicate::Or(..) => 9,
        Predicate::True => 10,
        Predicate::False => 11,
    }
}

/// The variant read off the first characters of a rendering.
spec fn head_code(t: Seq<char>) -> int {
    if t[0] == 'A' {
        8
    } else if t[0] == 'O' {
        9
    } else if t[0] == 'T' {
        10
    } else if t[0] == 'F' {
        11
    } else if t[6] == 'E' {
        0
    } else if t[6] == 'N' {
        1
    } else if t[6] == 'G' {
        if t[7] == 't' {
            2
        } else {
            4
        }
    } else if t[6] == 'L' {
        if t[7] == 't' {
            3
        } else {
            5
        }
    } else if t[7] == 'E' {
        6
    } else {
        7
    }
}

/// The first characters of a rendering tell its variant.
proof fn lemma_head_code(p: Predicate, r: Seq<char>)
    ensures
        head_code(p.debug_text() + r) == variant_code(p),
{
    reveal_strlit("ColumnEqConst");
    reveal_strlit("ColumnNeConst");
    reveal_strlit("ColumnGtConst");
    reveal_strlit("ColumnLtConst");
    reveal_strlit("ColumnGeConst");
    reveal_strlit("ColumnLeConst");
    reveal_strlit("ColumnsEq");
    reveal_strlit("ColumnsNe");
    reveal_strlit("And(");
    reveal_strlit("Or(");
    reveal_strlit("True");
    reveal_strlit("False");
    let t = p.debug_text() + r;
    match p {
        Predicate::ColumnEqConst(c, v) | Predicate::ColumnNeConst(c, v)
        | Predicate::ColumnGtConst(c, v) | Predicate::ColumnLtConst(c, v)
        | Predicate::ColumnGeConst(c, v) | Predicate::ColumnLeConst(c, v) => {
            assert(t[0] == p.debug_text()[0]);
            assert(t[6] == p.debug_text()[6]);
            assert(t[7] == p.debug_text()[7]);
        },
        Predicate::ColumnsEq(a, b) | Predicate::ColumnsNe(a, b) => {
            assert(t[0] == p.debug_text()[0]);
            assert(t[6] == p.debug_text()[6]);
            assert(t[7] == p.debug_text()[7]);
        },
        _ => {
            assert(t[0] == p.debug_text()[0]);
        },
    }
}

/// Renderings of predicates form a prefix code: a rendering followed by any
/// text is read back as that predicate and that text.
proof fn lemma_debug_text_prefix_free(p: Predicate, r1: Seq<char>, q: Predicate, r2: Seq<char>)
    requires
        p.debug_text() + r1 == q.debug_text() + r2,
    ensures
        p == q,
        r1 == r2,
    decreases p,
{
    lemma_head_code(p, r1);
    lemma_head_code(q, r2);
    match (p, q) {
        (Predicate::ColumnEqConst(c, v), Predicate::ColumnEqConst(d, w)) => {
            lemma_const_comparison_prefix("ColumnEqConst"@, c, v, r1, d, w, r2);
        },
        (Predicate::ColumnNeConst(c, v), Predicate::ColumnNeConst(d, w)) => {
            lemma_const_comparison_prefix("ColumnNeConst"@, c, v, r1, d, w, r2);
        },
        (Predicate::ColumnGtConst(c, v), Predicate::ColumnGtConst(d, w)) => {
            lemma_const_comparison_prefix("ColumnGtConst"@, c, v, r1, d, w, r2);
        },
        (Predicate::ColumnLtConst(c, v), Predicate::ColumnLtConst(d, w)) => {
            lemma_const_comparison_prefix("ColumnLtConst"@, c, v, r1, d, w, r2);
        },
        (Predicate::ColumnGeConst(c, v), Predicate::ColumnGeConst(d, w)) => {
            lemma_const_comparison_prefix("ColumnGeConst"@, c, v, r1, d, w, r2);
        },
        (Predicate::ColumnLeConst(c, v), Predicate::ColumnLeConst(d, w)) => {
            lemma_const_comparison_prefix("ColumnLeConst"@, c, v, r1, d, w, r2);
        },
        (Predicate::ColumnsEq(a, b), Predicate::ColumnsEq(c, d)) => {
            lemma_column_comparison_prefix("ColumnsEq"@, a, b, r1, c, d, r2);
        },
        (Predicate::ColumnsNe(a, b), Predicate::ColumnsNe(c, d)) => {
            lemma_column_comparison_prefix("ColumnsNe"@, a, b, r1, c, d, r2);
        },
        (Predicate::And(a, b), Predicate::And(c, d)) => {
            let x1 = ", "@ + (b.debug_text() + (")"@ + r1));
            let x2 = ", "@ + (d.debug_text() + (")"@ + r2));
            lemma_operator_split("And("@, *a, *b, r1, *c, *d, r2);
            lemma_debug_text_prefix_free(*a, x1, *c, x2);
            lemma_split(", "@, b.debug_text() + (")"@ + r1), ", "@, d.debug_text() + (")"@ + r2));
            lemma_debug_text_prefix_free(*b, ")"@ + r1, *d, ")"@ + r2);
            lemma_split(")"@, r1, ")"@, r2);
        },
        (Predicate::Or(a, b), Predicate::Or(c, d)) => {
            let x1 = ", "@ + (b.debug_text() + (")"@ + r1));
            let x2 = ", "@ + (d.debug_text() + (")"@ + r2));
            lemma_operator_split("Or("@, *a, *b, r1, *c, *d, r2);
            lemma_debug_text_prefix_free(*a, x1, *c, x2);
            lemma_split(", "@, b.debug_text() + (")"@ + r1), ", "@, d.debug_text() + (")"@ + r2));
            lemma_debug_text_prefix_free(*b, ")"@ + r1, *d, ")"@ + r2);
            lemma_split(")"@, r1, ")"@, r2);
        },
        (Predicate::True, Predicate::True) => {
            lemma_split("True"@, r1, "True"@, r2);
        },
        (Predicate::False, Predicate::False) => {
            lemma_split("False"@, r1, "False"@, r2);
        },
        _ => {},
    }
}

/// Two renderings of a binary operator under one opening agree from the
/// first operand on.
proof fn lemma_operator_split(
    open: Seq<char>,
    a: Predicate,
    b: Predicate,
    r1: Seq<char>,
    c: Predicate,
    d: Predicate,
    r2: Seq<char>,
)
    requires
        open + a.debug_text() + ", "@ + b.debug_text() + ")"@ + r1 == open + c.debug_text()
            + ", "@ + d.debug_text() + ")"@ + r2,
    ensures
        a.debug_text() + (", "@ + (b.debug_text() + (")"@ + r1))) == c.debug_text() + (", "@ + (
        d.debug_text() + (")"@ + r2))),
{
    let x1 = ", "@ + (b.debug_text() + (")"@ + r1));
    let x2 = ", "@ + (d.debug_text() + (")"@ + r2));
    assert(open + a.debug_text() + ", "@ + b.debug_text() + ")"@ + r1 =~= open + (a.debug_text()
        + x1));
    assert(open + c.debug_text() + ", "@ + d.debug_text() + ")"@ + r2 =~= open + (c.debug_text()
        + x2));
    lemma_split(open, a.debug_text() + x1, open, c.debug_text() + x2);
}

/// Different predicates have different debug renderings: the rendering in a
/// printout tells exactly which predicate a filter holds.
pub proof fn lemma_debug_text_injective(p: Predicate, q: Predicate)
    ensures
        p.debug_text() == q.debug_text() ==> p == q,
{
    if p.debug_text() == q.debug_text() {
        let e = Seq::<char>::empty();
        assert(p.debug_text() + e =~= p.debug_text());
        assert(q.debug_text() + e =~= q.debug_text());
        lemma_debug_text_prefix_free(p, e, q, e);
    }
}

/// A predicate's value on a row depends only on the row's values at the
/// predicate's referenced columns.
pub proof fn lemma_eval_depends_only_on_columns(p: Predicate, row1: Seq<i64>, row2: Seq<i64>)
    requires
        forall|c: usize| #[trigger] p.columns().contains(c) ==> row1[c as int] == row2[c as int],
    ensures
        p.eval(row1) == p.eval(row2),
    decreases p,
{
    match p {
        Predicate::ColumnEqConst(c, _) | Predicate::ColumnNeConst(c, _)
        | Predicate::ColumnGtConst(c, _) | Predicate::ColumnLtConst(c, _)
        | Predicate::ColumnGeConst(c, _) | Predicate::ColumnLeConst(c, _) => {
            assert(p.columns().contains(c));
        },
        Predicate::ColumnsEq(a, b) | Predicate::ColumnsNe(a, b) => {
            assert(p.columns().contains(a));
            assert(p.columns().contains(b));
        },
        Predicate::And(p1, p2) | Predicate::Or(p1, p2) => {
            assert forall|c: usize| #[trigger] p1.columns().contains(c) implies row1[c as int]
                == row2[c as int] by {
                assert(p.columns().contains(c));
            }
            assert forall|c: usize| #[trigger] p2.columns().contains(c) implies row1[c as int]
                == row2[c as int] by {
                assert(p.columns().contains(c));
            }
            lemma_eval_depends_only_on_columns(*p1, row1, row2);
            lemma_eval_depends_only_on_columns(*p2, row1, row2);
        },
        _ => {},
    }
}

/// The debug rendering of a predicate opens with the name of its variant, as
/// `Debug` shows an enum value.
pub proof fn lemma_debug_text_names_variant(p: Predicate)
    ensures
        p is ColumnEqConst ==> "ColumnEqConst("@.is_prefix_of(p.debug_text()),
        p is ColumnNeConst ==> "ColumnNeConst("@.is_prefix_of(p.debug_text()),
        p is ColumnGtConst ==> "ColumnGtConst("@.is_prefix_of(p.debug_text()),
        p is ColumnLtConst ==> "ColumnLtConst("@.is_prefix_of(p.debug_text()),
        p is ColumnGeConst ==> "ColumnGeConst("@.is_prefix_of(p.debug_text()),
        p is ColumnLeConst ==> "ColumnLeConst("@.is_prefix_of(p.debug_text()),
        p is ColumnsEq ==> "ColumnsEq("@.is_prefix_of(p.debug_text()),
        p is ColumnsNe ==> "ColumnsNe("@.is_prefix_of(p.debug_text()),
        p is And ==> "And("@.is_prefix_of(p.debug_text()),
        p is Or ==> "Or("@.is_prefix_of(p.debug_text()),
        p is True ==> p.debug_text() == "True"@,
        p is False ==> p.debug_text() == "False"@,
{
    reveal_strlit("(");
    reveal_strlit("ColumnEqConst");
    reveal_strlit("ColumnEqConst(");
    reveal_strlit("ColumnNeConst");
    reveal_strlit("ColumnNeConst(");
    reveal_strlit("ColumnGtConst");
    reveal_strlit("ColumnGtConst(");
    reveal_strlit("ColumnLtConst");
    reveal_strlit("ColumnLtConst(");
    reveal_strlit("ColumnGeConst");
    reveal_strlit("ColumnGeConst(");
    reveal_strlit("ColumnLeConst");
    reveal_strlit("ColumnLeConst(");
    reveal_strlit("ColumnsEq");
    reveal_strlit("ColumnsEq(");
    reveal_strlit("ColumnsNe");
    reveal_strlit("ColumnsNe(");
    let t = p.debug_text();
    match p {
        Predicate::And(..) | Predicate::Or(..) | Predicate::True | Predicate::False => {},
        _ => {
            assert(t[0] == 'C');
        },
    }
}

} // verus!
