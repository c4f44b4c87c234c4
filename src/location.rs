use vstd::prelude::*;

use crate::error::CliError;

verus! {

/// How often `c` occurs in `s`.
pub open spec fn count_char(s: Seq<char>, c: char) -> nat
    decreases s.len(),
{
    if s.len() == 0 {
        0
    } else {
        count_char(s.drop_last(), c) + if s.last() == c { 1nat } else { 0nat }
    }
}

/// The text `<uid>:<path>`.
pub open spec fn joined(uid: Seq<char>, path: Seq<char>) -> Seq<char> {
    uid + seq![':'] + path
}

/// `uid` and `path` are the two colon-free parts of `s` around its one colon.
pub open spec fn is_split(s: Seq<char>, uid: Seq<char>, path: Seq<char>) -> bool {
    &&& s == joined(uid, path)
    &&& count_char(uid, ':') == 0
    &&& count_char(path, ':') == 0
}

/// The location that `s` names: present exactly when `s` holds one colon.
pub open spec fn location_of(s: Seq<char>) -> Option<(Seq<char>, Seq<char>)> {
    if count_char(s, ':') == 1 {
        let k = choose|k: int| 0 <= k < s.len() && s[k] == ':';
        Some((s.take(k), s.skip(k + 1)))
    } else {
        None
    }
}

/// Counting is additive over concatenation.
pub proof fn lemma_count_append(a: Seq<char>, b: Seq<char>, c: char)
    ensures
        count_char(a + b, c) == count_char(a, c) + count_char(b, c),
    decreases b.len(),
{
    if b.len() == 0 {
        assert(a + b =~= a);
    } else {
        lemma_count_append(a, b.drop_last(), c);
        assert((a + b).drop_last() =~= a + b.drop_last());
    }
}

/// A character counted zero times occurs nowhere.
pub proof fn lemma_count_zero(s: Seq<char>, c: char)
    requires
        count_char(s, c) == 0,
    ensures
        forall|i: int| 0 <= i < s.len() ==> s[i] != c,
    decreases s.len(),
{
    if s.len() > 0 {
        lemma_count_zero(s.drop_last(), c);
        assert forall|i: int| 0 <= i < s.len() implies s[i] != c by {
            if i < s.len() - 1 {
                assert(s[i] == s.drop_last()[i]);
            }
        }
    }
}

/// Splitting at the colon of `s` gives colon-free parts when `s` has one colon.
proof fn lemma_split_at(s: Seq<char>, k: int)
    requires
        0 <= k < s.len(),
        s[k] == ':',
        count_char(s, ':') == 1,
    ensures
        is_split(s, s.take(k), s.skip(k + 1)),
{
    let u = s.take(k);
    let p = s.skip(k + 1);
    assert(s =~= joined(u, p));
    lemma_count_append(u + seq![':'], p, ':');
    lemma_count_append(u, seq![':'], ':');
    assert(seq![':'].drop_last() =~= Seq::<char>::empty());
}

/// The parts around the colon are determined by the text.
pub proof fn lemma_split_unique(s: Seq<char>, uid_a: Seq<char>, path_a: Seq<char>, uid_b: Seq<char>, path_b: Seq<char>)
    requires
        is_split(s, uid_a, path_a),
        is_split(s, uid_b, path_b),
    ensures
        uid_a == uid_b,
        path_a == path_b,
{
    lemma_count_zero(uid_a, ':');
    lemma_count_zero(uid_b, ':');
    if uid_a.len() < uid_b.len() {
        assert(s[uid_a.len() as int] == ':');
        assert(s[uid_a.len() as int] == uid_b[uid_a.len() as int]);
    } else if uid_b.len() < uid_a.len() {
        assert(s[uid_b.len() as int] == ':');
        assert(s[uid_b.len() as int] == uid_a[uid_b.len() as int]);
    } else {
        assert(uid_a =~= s.take(uid_a.len() as int));
        assert(uid_b =~= s.take(uid_b.len() as int));
        assert(path_a =~= s.skip(uid_a.len() as int + 1));
        assert(path_b =~= s.skip(uid_b.len() as int + 1));
    }
}

/// A text with exactly one colon names a location, and writing that location
/// out again gives back the text.
pub proof fn lemma_parse_render_round_trip(s: Seq<char>)
    requires
        count_char(s, ':') == 1,
    ensures
        location_of(s) is Some,
        joined(location_of(s).unwrap().0, location_of(s).unwrap().1) == s,
        is_split(s, location_of(s).unwrap().0, location_of(s).unwrap().1),
{
    lemma_colon_exists(s);
    let k = choose|k: int| 0 <= k < s.len() && s[k] == ':';
    lemma_split_at(s, k);
}

/// A text with no colon, or with more than one, names no location.
pub proof fn lemma_parse_rejects(s: Seq<char>)
    requires
        count_char(s, ':') != 1,
    ensures
        location_of(s) is None,
{
}

proof fn lemma_colon_exists(s: Seq<char>)
    requires
        count_char(s, ':') > 0,
    ensures
        exists|k: int| 0 <= k < s.len() && s[k] == ':',
    decreases s.len(),
{
    if s.last() == ':' {
        assert(s[s.len() - 1] == ':');
    } else {
        lemma_colon_exists(s.drop_last());
        let k = choose|k: int| 0 <= k < s.drop_last().len() && s.drop_last()[k] == ':';
        assert(s[k] == ':');
    }
}

/// A server and a path on it, written `<server-id>:<path>`.
#[derive(Debug)]
pub struct RemotePath {
    pub uid: String,
    pub path: String,
}

impl RemotePath {
    /// Reads `<server-id>:<path>`; any text without exactly one colon is refused.
    pub fn parse(s: &str) -> (r: Result<RemotePath, CliError>)
        ensures
            match r {
                Ok(loc) => location_of(s@) == Some((loc.uid@, loc.path@)) && is_split(
                    s@,
                    loc.uid@,
                    loc.path@,
                ),
                Err(e) => location_of(s@) is None && e is MalformedRemoteLocation,
            },
    {
        let n = s.unicode_len();
        let mut i: usize = 0;
        let mut colons: usize = 0;
        let mut first: usize = 0;
        while i < n
            invariant
                n == s@.len(),
                i <= n,
                colons as nat == count_char(s@.take(i as int), ':'),
                colons >= 1 ==> first < i && s@[first as int] == ':' && count_char(
                    s@.take(first as int),
                    ':',
                ) == 0,
                colons <= i,
            decreases n - i,
        {
            let ch = s.get_char(i);
            assert(s@.take(i + 1).drop_last() =~= s@.take(i as int));
            if ch == ':' {
                if colons == 0 {
                    first = i;
                }
                colons = colons + 1;
            }
            i = i + 1;
        }
        assert(s@.take(n as int) =~= s@);
        if colons != 1 {
            return Err(CliError::MalformedRemoteLocation);
        }
        let uid = s.substring_char(0, first);
        let path = s.substring_char(first + 1, n);
        proof {
            lemma_split_at(s@, first as int);
            lemma_parse_render_round_trip(s@);
            let loc = location_of(s@)->0;
            lemma_split_unique(s@, loc.0, loc.1, s@.take(first as int), s@.skip(first + 1));
        }
        Ok(RemotePath { uid: String::from_str(uid), path: String::from_str(path) })
    }

    /// Writes the location out as `<server-id>:<path>`.
    pub fn render(&self) -> (r: String)
        ensures
            r@ == joined(self.uid@, self.path@),
    {
        let mut r = self.uid.clone();
        r.append(":");
        r.append(self.path.as_str());
        proof {
            reveal_strlit(":");
        }
        r
    }
}

} // verus!
