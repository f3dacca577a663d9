//! Text rendering of plan components: indentation, decimal numbers and bracketed lists.
use vstd::prelude::*;
use vstd::string::StringExecFns;

verus! {

/// The text of the decimal digit `d`.
pub open spec fn digit_text(d: nat) -> Seq<char> {
    if d == 0 {
        "0"@
    } else if d == 1 {
        "1"@
    } else if d == 2 {
        "2"@
    } else if d == 3 {
        "3"@
    } else if d == 4 {
        "4"@
    } else if d == 5 {
        "5"@
    } else if d == 6 {
        "6"@
    } else if d == 7 {
        "7"@
    } else if d == 8 {
        "8"@
    } else {
        "9"@
    }
}

/// Decimal notation of `n`, without leading zeros.
pub open spec fn decimal(n: nat) -> Seq<char>
    decreases n,
{
    if n < 10 {
        digit_text(n)
    } else {
        decimal(n / 10) + digit_text(n % 10)
    }
}

/// Decimal notation of the integer `v`, with a leading `-` when it is negative.
pub open spec fn signed_decimal(v: int) -> Seq<char> {
    if v < 0 {
        "-"@ + decimal((-v) as nat)
    } else {
        decimal(v as nat)
    }
}

/// `n` indentation units of two spaces each.
pub open spec fn indentation(n: nat) -> Seq<char>
    decreases n,
{
    if n == 0 {
        Seq::empty()
    } else {
        indentation((n - 1) as nat) + "  "@
    }
}

/// The items joined by `", "`.
pub open spec fn comma_joined(items: Seq<Seq<char>>) -> Seq<char>
    decreases items.len(),
{
    if items.len() == 0 {
        Seq::empty()
    } else if items.len() == 1 {
        items[0]
    } else {
        comma_joined(items.drop_last()) + ", "@ + items.last()
    }
}

/// The items joined by `", "` between square brackets, as a list is shown for debugging.
pub open spec fn bracketed(items: Seq<Seq<char>>) -> Seq<char> {
    "["@ + comma_joined(items) + "]"@
}

/// The views of a sequence of strings.
pub open spec fn texts(s: Seq<String>) -> Seq<Seq<char>> {
    s.map_values(|x: String| x@)
}

/// The debug rendering of a list of column indices, such as `[1, 0]`.
pub open spec fn index_list_text(s: Seq<usize>) -> Seq<char> {
    bracketed(s.map_values(|i: usize| decimal(i as nat)))
}

/// The debug rendering of a list of names: each name quoted and escaped as
/// `Debug` shows a string, such as `["x", "y"]`.
pub open spec fn name_list_text(s: Seq<Seq<char>>) -> Seq<char> {
    bracketed(s.map_values(|x: Seq<char>| debug_quoted(x)))
}

/// What `<str as Debug>::fmt` writes for a string with these characters.
pub uninterp spec fn debug_quoted(s: Seq<char>) -> Seq<char>;

/// Calls `<str as core::fmt::Debug>::fmt` (through `format!("{:?}", ..)`); the
/// contract only names its result, `debug_quoted` of the characters: the quoting
/// and the escape rules of std are not restated here.
#[verifier::external_body]
fn debug_string(s: &str) -> (r: String)
    ensures
        r@ == debug_quoted(s@),
{
    format!("{:?}", s)
}

fn digit_str(d: u64) -> (r: &'static str)
    requires
        d < 10,
    ensures
        r@ == digit_text(d as nat),
{
    if d == 0 {
        "0"
    } else if d == 1 {
        "1"
    } else if d == 2 {
        "2"
    } else if d == 3 {
        "3"
    } else if d == 4 {
        "4"
    } else if d == 5 {
        "5"
    } else if d == 6 {
        "6"
    } else if d == 7 {
        "7"
    } else if d == 8 {
        "8"
    } else {
        "9"
    }
}

/// Appends the decimal notation of `n` to `out`.
pub fn push_decimal(out: &mut String, n: u64)
    ensures
        final(out)@ == old(out)@ + decimal(n as nat),
    decreases n,
{
    if n >= 10 {
        push_decimal(out, n / 10);
    }
    out.append(digit_str(n % 10));
    proof {
        assert(final(out)@ =~= old(out)@ + decimal(n as nat));
    }
}

/// Appends the decimal notation of `v` to `out`, with a `-` in front when it is negative.
pub fn push_signed_decimal(out: &mut String, v: i64)
    ensures
        final(out)@ == old(out)@ + signed_decimal(v as int),
{
    if v < 0 {
        out.append("-");
        let magnitude: u64 = (-(v as i128)) as u64;
        push_decimal(out, magnitude);
        proof {
            assert(final(out)@ =~= old(out)@ + signed_decimal(v as int));
        }
    } else {
        push_decimal(out, v as u64);
    }
}

/// Appends `n` indentation units of two spaces to `out`.
pub fn push_indentation(out: &mut String, n: usize)
    ensures
        final(out)@ == old(out)@ + indentation(n as nat),
{
    let ghost start = out@;
    let mut i: usize = 0;
    while i < n
        invariant
            i <= n,
            out@ == start + indentation(i as nat),
        decreases n - i,
    {
        out.append("  ");
        i = i + 1;
        proof {
            assert(out@ =~= start + indentation(i as nat));
        }
    }
}

/// Appends to `out` the already rendered `items`, joined by `", "` between brackets.
pub fn push_bracketed(out: &mut String, items: &Vec<String>)
    ensures
        final(out)@ == old(out)@ + bracketed(texts(items@)),
{
    let ghost start = out@;
    let ghost all = texts(items@);
    out.append("[");
    let mut i: usize = 0;
    while i < items.len()
        invariant
            i <= items@.len(),
            all == texts(items@),
            out@ == start + "["@ + comma_joined(all.take(i as int)),
        decreases items@.len() - i,
    {
        if i > 0 {
            out.append(", ");
        }
        out.append(items[i].as_str());
        proof {
            let next = all.take(i + 1);
            assert(next.drop_last() =~= all.take(i as int));
            assert(next.last() == items@[i as int]@);
            if i == 0 {
                assert(next.len() == 1);
            }
            assert(out@ =~= start + "["@ + comma_joined(next));
        }
        i = i + 1;
    }
    out.append("]");
    proof {
        assert(all.take(items@.len() as int) =~= all);
        assert(final(out)@ =~= old(out)@ + bracketed(texts(items@)));
    }
}

/// Appends the debug rendering of a list of column indices to `out`.
pub fn push_index_list(out: &mut String, indices: &Vec<usize>)
    ensures
        final(out)@ == old(out)@ + index_list_text(indices@),
{
    let mut items: Vec<String> = Vec::new();
    let mut i: usize = 0;
    while i < indices.len()
        invariant
            i <= indices@.len(),
            texts(items@) =~= indices@.take(i as int).map_values(|k: usize| decimal(k as nat)),
        decreases indices@.len() - i,
    {
        let mut item = String::new();
        push_decimal(&mut item, indices[i] as u64);
        let ghost prev = items@;
        items.push(item);
        proof {
            let f = |k: usize| decimal(k as nat);
            assert(texts(items@) =~= texts(prev).push(decimal(indices@[i as int] as nat)));
            assert(indices@.take(i + 1).map_values(f) =~= indices@.take(i as int).map_values(
                f,
            ).push(decimal(indices@[i as int] as nat)));
        }
        i = i + 1;
    }
    proof {
        assert(indices@.take(indices@.len() as int) =~= indices@);
    }
    push_bracketed(out, &items);
}

/// Appends the debug rendering of a list of names to `out`.
pub fn push_name_list(out: &mut String, names: &Vec<String>)
    ensures
        final(out)@ == old(out)@ + name_list_text(texts(names@)),
{
    let mut items: Vec<String> = Vec::new();
    let mut i: usize = 0;
    while i < names.len()
        invariant
            i <= names@.len(),
            texts(items@) =~= texts(names@).take(i as int).map_values(
                |x: Seq<char>| debug_quoted(x),
            ),
        decreases names@.len() - i,
    {
        let ghost prev = items@;
        items.push(debug_string(names[i].as_str()));
        proof {
            let f = |x: Seq<char>| debug_quoted(x);
            assert(texts(items@) =~= texts(prev).push(debug_quoted(names@[i as int]@)));
            assert(texts(names@).take(i + 1).map_values(f) =~= texts(names@).take(
                i as int,
            ).map_values(f).push(debug_quoted(names@[i as int]@)));
        }
        i = i + 1;
    }
    proof {
        assert(texts(names@).take(names@.len() as int) =~= texts(names@));
    }
    push_bracketed(out, &items);
}

} // verus!
