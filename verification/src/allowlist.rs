//! The nested subsystem's variable allow-list: a colon-separated list of
//! environment variable *names* permitted to cross into the nested
//! subsystem's process environment. Forwarding credentials means appending
//! the credential names (never their values) and the allow-list variable's
//! own name to the existing list, keeping each name exactly once.

use vstd::prelude::*;
use vstd::string::*;
use crate::strings::{
    join_strings, lemma_spec_join_push, lemma_views_of_push, spec_join, views_of,
};

verus! {

/// Splits a colon-separated list into its entries. The empty string holds
/// no entries; otherwise no entry contains a colon and the entries joined
/// by colons give the input back.
pub fn split_colon_list(s: &str) -> (r: Vec<String>)
    ensures
        s@.len() == 0 ==> r@.len() == 0,
        s@.len() > 0 ==> {
            &&& r@.len() > 0
            &&& spec_join(views_of(r@), ":"@) == s@
            &&& forall|i: int, j: int|
                0 <= i < r@.len() && 0 <= j < r@[i]@.len() ==> r@[i]@[j] != ':'
        },
{
    let n = s.unicode_len();
    let mut out: Vec<String> = Vec::new();
    if n == 0 {
        return out;
    }
    let mut start: usize = 0;
    let mut i: usize = 0;
    proof {
        reveal_strlit(":");
    }
    while i < n
        invariant
            0 <= start as int <= i as int <= n as int,
            n as int == s@.len(),
            ":"@ =~= seq![':'],
            out@.len() == 0 ==> start == 0,
            out@.len() > 0 ==> spec_join(views_of(out@), ":"@) + ":"@ == s@.take(start as int),
            forall|k: int| start as int <= k < i as int ==> s@[k] != ':',
            forall|a: int, b: int|
                0 <= a < out@.len() && 0 <= b < out@[a]@.len() ==> out@[a]@[b] != ':',
        decreases n as int - i as int,
    {
        let c = s.get_char(i);
        if c == ':' {
            let entry = String::from_str(s.substring_char(start, i));
            let ghost pre = out@;
            out.push(entry);
            proof {
                lemma_spec_join_push(views_of(pre), ":"@, entry@);
                lemma_views_of_push(pre, entry);
                if pre.len() == 0 {
                    assert(spec_join(views_of(out@), ":"@) + ":"@ =~= s@.take(i as int + 1));
                } else {
                    assert(spec_join(views_of(pre), ":"@) + ":"@ + entry@ + ":"@ =~= s@.take(
                        i as int + 1,
                    ));
                    assert(spec_join(views_of(out@), ":"@) + ":"@ =~= s@.take(i as int + 1));
                }
            }
            start = i + 1;
        }
        i += 1;
    }
    let entry = String::from_str(s.substring_char(start, n));
    let ghost pre = out@;
    out.push(entry);
    proof {
        lemma_spec_join_push(views_of(pre), ":"@, entry@);
        lemma_views_of_push(pre, entry);
        if pre.len() == 0 {
            assert(spec_join(views_of(out@), ":"@) =~= s@);
        } else {
            assert(spec_join(views_of(pre), ":"@) + ":"@ + entry@ =~= s@);
            assert(spec_join(views_of(out@), ":"@) =~= s@);
        }
    }
    out
}

/// Whether some entry of `v` has the same characters as `x`.
pub fn contains_string(v: &Vec<String>, x: &String) -> (r: bool)
    ensures
        r == views_of(v@).contains(x@),
{
    let mut i: usize = 0;
    while i < v.len()
        invariant
            i <= v@.len(),
            forall|j: int| 0 <= j < i as int ==> v@[j]@ != x@,
        decreases v@.len() - i,
    {
        if v[i].eq(x) {
            proof {
                assert(views_of(v@)[i as int] == x@);
            }
            return true;
        }
        i += 1;
    }
    proof {
        assert forall|k: int| 0 <= k < views_of(v@).len() implies views_of(v@)[k] != x@ by {
            assert(views_of(v@)[k] == v@[k]@);
        }
    }
    false
}

/// The first-occurrence deduplication of a sequence of names: every name
/// keeps its first position, repeats are dropped.
pub open spec fn spec_dedup(s: Seq<Seq<char>>) -> Seq<Seq<char>>
    decreases s.len(),
{
    if s.len() == 0 {
        Seq::empty()
    } else {
        let rest = spec_dedup(s.drop_last());
        if rest.contains(s.last()) {
            rest
        } else {
            rest.push(s.last())
        }
    }
}

/// Deduplication keeps exactly the names of the input.
pub proof fn lemma_dedup_same_names(s: Seq<Seq<char>>)
    ensures
        forall|x: Seq<char>| spec_dedup(s).contains(x) <==> s.contains(x),
    decreases s.len(),
{
    if s.len() > 0 {
        let prefix = s.drop_last();
        lemma_dedup_same_names(prefix);
        let d = spec_dedup(s);
        let rest = spec_dedup(prefix);
        assert forall|x: Seq<char>| s.contains(x) implies d.contains(x) by {
            let i = choose|i: int| 0 <= i < s.len() && s[i] == x;
            if i < s.len() - 1 {
                assert(prefix[i] == x);
                assert(prefix.contains(x));
                assert(rest.contains(x));
                let k = choose|k: int| 0 <= k < rest.len() && rest[k] == x;
                assert(d[k] == x);
                assert(d.contains(x));
            } else {
                assert(s.last() == x);
                if rest.contains(x) {
                    let k = choose|k: int| 0 <= k < rest.len() && rest[k] == x;
                    assert(d[k] == x);
                    assert(d.contains(x));
                } else {
                    assert(d.last() == x);
                    assert(d.contains(x));
                }
            }
        }
        assert forall|x: Seq<char>| d.contains(x) implies s.contains(x) by {
            let k = choose|k: int| 0 <= k < d.len() && d[k] == x;
            if k < rest.len() {
                assert(rest[k] == x);
                assert(rest.contains(x));
                assert(spec_dedup(prefix).contains(x));
                assert(prefix.contains(x));
                let i = choose|i: int| 0 <= i < prefix.len() && prefix[i] == x;
                assert(s[i] == x);
                assert(s.contains(x));
            } else {
                assert(x == s.last());
                assert(s[s.len() - 1] == x);
                assert(s.contains(x));
            }
        }
    }
}

/// Deduplication leaves no name twice.
pub proof fn lemma_dedup_no_repeats(s: Seq<Seq<char>>)
    ensures
        forall|i: int, j: int|
            0 <= i < j < spec_dedup(s).len() ==> spec_dedup(s)[i] != spec_dedup(s)[j],
    decreases s.len(),
{
    if s.len() > 0 {
        let prefix = s.drop_last();
        lemma_dedup_no_repeats(prefix);
        let rest = spec_dedup(prefix);
        let d = spec_dedup(s);
        if !rest.contains(s.last()) {
            assert forall|i: int, j: int| 0 <= i < j < d.len() implies d[i] != d[j] by {
                if j < rest.len() {
                    assert(rest[i] == d[i] && rest[j] == d[j]);
                } else {
                    assert(d[j] == s.last());
                    assert(d[i] == rest[i]);
                    assert(rest.contains(rest[i]));
                }
            }
        }
    }
}

/// Appends one name unless an entry with the same characters is already
/// present.
fn push_unique(out: &mut Vec<String>, x: String)
    ensures
        views_of(final(out)@) == if views_of(old(out)@).contains(x@) {
            views_of(old(out)@)
        } else {
            views_of(old(out)@).push(x@)
        },
{
    if !contains_string(out, &x) {
        let ghost pre = out@;
        out.push(x);
        proof {
            lemma_views_of_push(pre, x);
        }
    }
}

/// Builds the updated allow-list entries: the existing entries, then every
/// credential name, then the allow-list variable's own name, keeping the
/// first occurrence of each name and dropping every repeat.
pub fn update_allow_list(
    existing: &Vec<String>,
    credential_names: &Vec<String>,
    own_name: &String,
) -> (r: Vec<String>)
    ensures
        views_of(r@) == spec_dedup(
            views_of(existing@) + views_of(credential_names@) + seq![own_name@],
        ),
{
    let ghost e = views_of(existing@);
    let ghost c = views_of(credential_names@);
    let mut out: Vec<String> = Vec::new();
    let mut i: usize = 0;
    while i < existing.len()
        invariant
            i <= existing@.len(),
            e == views_of(existing@),
            views_of(out@) == spec_dedup(e.take(i as int)),
        decreases existing@.len() - i,
    {
        push_unique(&mut out, existing[i].clone());
        proof {
            assert(e.take(i as int + 1).drop_last() =~= e.take(i as int));
            assert(e.take(i as int + 1).last() == e[i as int]);
            assert(e[i as int] == existing@[i as int]@);
        }
        i += 1;
    }
    proof {
        assert(e.take(e.len() as int) =~= e);
    }
    let mut j: usize = 0;
    while j < credential_names.len()
        invariant
            j <= credential_names@.len(),
            e == views_of(existing@),
            c == views_of(credential_names@),
            views_of(out@) == spec_dedup(e + c.take(j as int)),
        decreases credential_names@.len() - j,
    {
        push_unique(&mut out, credential_names[j].clone());
        proof {
            assert((e + c.take(j as int + 1)).drop_last() =~= e + c.take(j as int));
            assert((e + c.take(j as int + 1)).last() == c[j as int]);
            assert(c[j as int] == credential_names@[j as int]@);
        }
        j += 1;
    }
    proof {
        assert(e + c.take(c.len() as int) =~= e + c);
    }
    push_unique(&mut out, own_name.clone());
    proof {
        assert((e + c + seq![own_name@]).drop_last() =~= e + c);
        assert((e + c + seq![own_name@]).last() == own_name@);
    }
    out
}

/// Renders the allow-list entries back into the colon-separated form the
/// environment variable carries.
pub fn join_colon_list(entries: &Vec<String>) -> (r: String)
    ensures
        r@ == spec_join(views_of(entries@), ":"@),
{
    join_strings(entries, ":")
}

/// Allow-list forwarding: after the update, a name is present exactly when
/// it was an existing entry, is a credential name, or is the allow-list
/// variable's own name — and no name is present twice.
pub proof fn lemma_allow_list_names(
    existing: Seq<Seq<char>>,
    credential_names: Seq<Seq<char>>,
    own_name: Seq<char>,
)
    ensures
        forall|x: Seq<char>|
            spec_dedup(existing + credential_names + seq![own_name]).contains(x) <==> (
            existing.contains(x) || credential_names.contains(x) || x == own_name),
        forall|i: int, j: int|
            0 <= i < j < spec_dedup(existing + credential_names + seq![own_name]).len()
                ==> spec_dedup(existing + credential_names + seq![own_name])[i] != spec_dedup(
                existing + credential_names + seq![own_name],
            )[j],
{
    let all = existing + credential_names + seq![own_name];
    lemma_dedup_same_names(all);
    lemma_dedup_no_repeats(all);
    assert forall|x: Seq<char>|
        all.contains(x) <==> (existing.contains(x) || credential_names.contains(x) || x
            == own_name) by {
        if all.contains(x) {
            let i = choose|i: int| 0 <= i < all.len() && all[i] == x;
            if i < existing.len() {
                assert(existing[i] == x);
                assert(existing.contains(x));
            } else if i < existing.len() + credential_names.len() {
                assert(credential_names[i - existing.len()] == x);
                assert(credential_names.contains(x));
            } else {
                assert(x == own_name);
            }
        }
        if existing.contains(x) {
            let i = choose|i: int| 0 <= i < existing.len() && existing[i] == x;
            assert(all[i] == x);
            assert(all.contains(x));
        }
        if credential_names.contains(x) {
            let i = choose|i: int| 0 <= i < credential_names.len() && credential_names[i] == x;
            assert(all[existing.len() + i] == x);
            assert(all.contains(x));
        }
        if x == own_name {
            assert(all[all.len() - 1] == x);
            assert(all.contains(x));
        }
    }
}

} // verus!
