use vstd::prelude::*;

use crate::location::count_char;

verus! {

/// The comma-separated fields of `s`, in order, empty fields included.
pub open spec fn tokens_of(s: Seq<char>) -> Seq<Seq<char>>
    decreases s.len(),
{
    if s.len() == 0 {
        seq![Seq::<char>::empty()]
    } else {
        let t = tokens_of(s.drop_last());
        if s.last() == ',' {
            t.push(Seq::<char>::empty())
        } else {
            t.update(t.len() - 1, t.last().push(s.last()))
        }
    }
}

/// What each string of `v` holds.
pub open spec fn views(v: Seq<String>) -> Seq<Seq<char>> {
    v.map_values(|t: String| t@)
}

/// A server list has one more entry than it has commas.
pub proof fn lemma_resolve_len(s: Seq<char>)
    ensures
        tokens_of(s).len() == count_char(s, ',') + 1,
    decreases s.len(),
{
    if s.len() > 0 {
        lemma_resolve_len(s.drop_last());
    }
}

/// The fields of `t` written out with a comma between each two.
pub open spec fn join_commas(t: Seq<Seq<char>>) -> Seq<char>
    decreases t.len(),
{
    if t.len() <= 1 {
        if t.len() == 1 {
            t[0]
        } else {
            Seq::empty()
        }
    } else {
        join_commas(t.drop_last()) + seq![','] + t.last()
    }
}

/// The entries of a server list hold no comma and, joined with commas, give
/// back the list: nothing is dropped, merged or reordered.
pub proof fn lemma_resolve_round_trip(s: Seq<char>)
    ensures
        join_commas(tokens_of(s)) == s,
        forall|i: int| 0 <= i < tokens_of(s).len() ==> count_char(#[trigger] tokens_of(s)[i], ',') == 0,
    decreases s.len(),
{
    if s.len() == 0 {
        assert(join_commas(tokens_of(s)) =~= s);
    } else {
        let d = s.drop_last();
        lemma_resolve_round_trip(d);
        lemma_resolve_len(d);
        let t = tokens_of(d);
        if s.last() == ',' {
            let u = t.push(Seq::<char>::empty());
            assert(u.drop_last() =~= t);
            assert(join_commas(u) =~= s);
            assert forall|i: int| 0 <= i < u.len() implies count_char(#[trigger] u[i], ',') == 0 by {
                if i < t.len() {
                    assert(u[i] == t[i]);
                }
            }
        } else {
            let c = s.last();
            let u = t.update(t.len() - 1, t.last().push(c));
            assert(t.last().push(c).drop_last() =~= t.last());
            if t.len() == 1 {
                assert(join_commas(u) =~= s);
            } else {
                assert(u.drop_last() =~= t.drop_last());
                assert(join_commas(t) == join_commas(t.drop_last()) + seq![','] + t.last());
                assert(u.last() == t.last().push(c));
                assert(join_commas(u) == join_commas(t.drop_last()) + seq![','] + u.last());
                assert(s =~= d.push(c));
                assert(join_commas(u) =~= s);
            }
            assert forall|i: int| 0 <= i < u.len() implies count_char(#[trigger] u[i], ',') == 0 by {
                if i < t.len() - 1 {
                    assert(u[i] == t[i]);
                }
            }
        }
    }
}

/// Splits a comma-separated list of server identifiers into its entries, in
/// order. Empty entries are kept and repeated ones are not merged.
pub fn resolve(raw: &str) -> (r: Vec<String>)
    ensures
        views(r@) == tokens_of(raw@),
        r@.len() == count_char(raw@, ',') + 1,
{
    let n = raw.unicode_len();
    let mut r: Vec<String> = Vec::new();
    let mut start: usize = 0;
    let mut i: usize = 0;
    assert(raw@.take(0) =~= Seq::<char>::empty());
    assert(views(r@).push(raw@.subrange(0, 0)) =~= tokens_of(raw@.take(0)));
    while i < n
        invariant
            n == raw@.len(),
            start <= i <= n,
            views(r@).push(raw@.subrange(start as int, i as int)) == tokens_of(raw@.take(i as int)),
        decreases n - i,
    {
        let ch = raw.get_char(i);
        let ghost before = r@;
        assert(raw@.take(i + 1).drop_last() =~= raw@.take(i as int));
        assert(raw@.take(i + 1).last() == ch);
        if ch == ',' {
            let tok = raw.substring_char(start, i);
            r.push(String::from_str(tok));
            assert(views(r@) =~= views(before).push(tok@));
            assert(tokens_of(raw@.take(i + 1)) == tokens_of(raw@.take(i as int)).push(
                Seq::<char>::empty(),
            ));
            assert(raw@.subrange(i + 1, i + 1) =~= Seq::<char>::empty());
            assert(views(r@).push(raw@.subrange(i + 1, i + 1)) =~= tokens_of(
                raw@.take(i + 1),
            ));
            start = i + 1;
        } else {
            let ghost t = tokens_of(raw@.take(i as int));
            assert(t.last().push(ch) =~= raw@.subrange(start as int, i + 1));
            assert(views(r@).push(raw@.subrange(start as int, i + 1)) =~= t.update(
                t.len() - 1,
                t.last().push(ch),
            ));
        }
        i = i + 1;
    }
    let tok = raw.substring_char(start, n);
    let ghost before = r@;
    r.push(String::from_str(tok));
    assert(raw@.take(n as int) =~= raw@);
    assert(views(r@) =~= views(before).push(tok@));
    proof {
        lemma_resolve_len(raw@);
    }
    r
}

} // verus!
