//! Small verified string-building helpers: decimal rendering of integers and
//! joining a list of strings with a separator.

use vstd::prelude::*;
use vstd::string::*;

verus! {

/// The one-character string for a single decimal digit.
pub open spec fn spec_digit(d: nat) -> Seq<char> {
    if d == 0 {
        "0"@
    } else if d == 1 {
        "1"@
    } else if d == 2 {
        "2"@
    } else if d == 3 {
        "3"@
    } else if d == 4 {
        "4"@
    } else if d == 5 {
        "5"@
    } else if d == 6 {
        "6"@
    } else if d == 7 {
        "7"@
    } else if d == 8 {
        "8"@
    } else {
        "9"@
    }
}

/// The usual decimal rendering of `n`, with no leading zeros (except for 0
/// itself).
pub open spec fn spec_decimal(n: nat) -> Seq<char>
    decreases n,
{
    if n < 10 {
        spec_digit(n)
    } else {
        spec_decimal(n / 10) + spec_digit(n % 10)
    }
}

fn digit_str(d: u64) -> (r: &'static str)
    requires
        d < 10,
    ensures
        r@ == spec_digit(d as nat),
{
    if d == 0 {
        "0"
    } else if d == 1 {
        "1"
    } else if d == 2 {
        "2"
    } else if d == 3 {
        "3"
    } else if d == 4 {
        "4"
    } else if d == 5 {
        "5"
    } else if d == 6 {
        "6"
    } else if d == 7 {
        "7"
    } else if d == 8 {
        "8"
    } else {
        "9"
    }
}

/// Renders `n` in decimal.
pub fn u64_to_decimal(n: u64) -> (s: String)
    ensures
        s@ == spec_decimal(n as nat),
    decreases n,
{
    if n < 10 {
        String::from_str(digit_str(n))
    } else {
        assert(n / 10 < n) by (nonlinear_arith)
            requires
                10 <= n,
        ;
        let mut s = u64_to_decimal(n / 10);
        s.append(digit_str(n % 10));
        s
    }
}

/// The items interleaved with `sep`: empty for no items, and no trailing
/// separator.
pub open spec fn spec_join(items: Seq<Seq<char>>, sep: Seq<char>) -> Seq<char>
    decreases items.len(),
{
    if items.len() == 0 {
        Seq::empty()
    } else if items.len() == 1 {
        items[0]
    } else {
        items[0] + sep + spec_join(items.drop_first(), sep)
    }
}

/// Appending one more item to a join appends one separator and the item.
pub proof fn lemma_spec_join_push(items: Seq<Seq<char>>, sep: Seq<char>, x: Seq<char>)
    ensures
        items.len() == 0 ==> spec_join(items.push(x), sep) == x,
        items.len() > 0 ==> spec_join(items.push(x), sep) == spec_join(items, sep) + sep + x,
    decreases items.len(),
{
    if items.len() == 0 {
        assert(spec_join(items.push(x), sep) == items.push(x)[0]);
        assert(items.push(x)[0] == x);
    } else if items.len() == 1 {
        assert(items.push(x).drop_first() =~= seq![x]);
        assert(spec_join(seq![x], sep) == x);
        assert(items.push(x)[0] == items[0]);
        assert(spec_join(items.push(x), sep) == items[0] + sep + x);
        assert(spec_join(items, sep) == items[0]);
    } else {
        lemma_spec_join_push(items.drop_first(), sep, x);
        assert(items.push(x).drop_first() =~= items.drop_first().push(x));
        assert(spec_join(items.push(x), sep) == items[0] + sep + spec_join(
            items.drop_first().push(x),
            sep,
        ));
        assert(spec_join(items, sep) + sep + x == items[0] + sep + (spec_join(
            items.drop_first(),
            sep,
        ) + sep + x));
        assert(items[0] + sep + (spec_join(items.drop_first(), sep) + sep + x) =~= items[0] + sep
            + spec_join(items.drop_first(), sep) + sep + x);
        assert(spec_join(items.push(x), sep) =~= spec_join(items, sep) + sep + x);
    }
}

/// The views of the strings in `items`.
pub open spec fn views_of(items: Seq<String>) -> Seq<Seq<char>> {
    items.map_values(|s: String| s@)
}

/// Pushing a string and taking views commute.
pub proof fn lemma_views_of_push(s: Seq<String>, x: String)
    ensures
        views_of(s.push(x)) == views_of(s).push(x@),
{
    assert(views_of(s.push(x)) =~= views_of(s).push(x@));
}

/// Joins the strings in `items`, separated by `sep`.
pub fn join_strings(items: &Vec<String>, sep: &str) -> (r: String)
    ensures
        r@ == spec_join(views_of(items@), sep@),
{
    let mut r = String::new();
    let mut i: usize = 0;
    while i < items.len()
        invariant
            i <= items.len(),
            r@ == spec_join(views_of(items@.take(i as int)), sep@),
        decreases items.len() - i,
    {
        if i > 0 {
            r.append(sep);
        }
        r.append(items[i].as_str());
        proof {
            lemma_spec_join_push(views_of(items@.take(i as int)), sep@, items@[i as int]@);
            assert(views_of(items@.take(i as int + 1)) =~= views_of(items@.take(i as int)).push(
                items@[i as int]@,
            ));
        }
        i += 1;
    }
    proof {
        assert(items@.take(items@.len() as int) =~= items@);
    }
    r
}

} // verus!
