use crate::text::{string_of, strip_range, trim, trim_quotes};
use vstd::prelude::*;

verus! {

/// `s` cut at every `sep`, as `str::split` cuts it: one piece more than
/// there are separators, empty pieces included.
pub open spec fn split(s: Seq<char>, sep: char) -> Seq<Seq<char>>
    decreases s.len(),
{
    if s.len() == 0 {
        seq![Seq::empty()]
    } else {
        let rest = split(s.drop_last(), sep);
        if s.last() == sep {
            rest.push(Seq::empty())
        } else {
            rest.update(rest.len() - 1, rest.last().push(s.last()))
        }
    }
}

/// `k` is the position of the first `c` in `t`.
pub open spec fn first_at(t: Seq<char>, k: int, c: char) -> bool {
    &&& 0 <= k < t.len()
    &&& t[k] == c
    &&& forall|j: int| 0 <= j < k ==> t[j] != c
}

/// The `key=value` parameter that one piece of a `content-disposition`
/// value holds: the piece is trimmed and cut at its first `=`; the key is
/// trimmed, the value trimmed and then stripped of double quotes at its
/// ends. A piece without `=` holds none.
pub open spec fn entry_of(piece: Seq<char>) -> Option<(Seq<char>, Seq<char>)> {
    let t = trim(piece);
    if exists|k: int| first_at(t, k, '=') {
        let k = choose|k: int| first_at(t, k, '=');
        Some((trim(t.take(k)), trim_quotes(trim(t.skip(k + 1)))))
    } else {
        None
    }
}

/// The parameters of the pieces, in order.
pub open spec fn entries_of(pieces: Seq<Seq<char>>) -> Seq<(Seq<char>, Seq<char>)>
    decreases pieces.len(),
{
    if pieces.len() == 0 {
        Seq::empty()
    } else {
        let before = entries_of(pieces.drop_last());
        match entry_of(pieces.last()) {
            Some(e) => before.push(e),
            None => before,
        }
    }
}

/// The map that inserting the entries in order builds: a later entry of a
/// key replaces an earlier one.
pub open spec fn map_of(entries: Seq<(Seq<char>, Seq<char>)>) -> Map<Seq<char>, Seq<char>>
    decreases entries.len(),
{
    if entries.len() == 0 {
        Map::empty()
    } else {
        map_of(entries.drop_last()).insert(entries.last().0, entries.last().1)
    }
}

/// The parameters of a `content-disposition` value: its `;`-separated
/// pieces, read in order, the last one of a key winning.
pub open spec fn disposition_vars(s: Seq<char>) -> Map<Seq<char>, Seq<char>> {
    map_of(entries_of(split(s, ';')))
}

/// Parameters of a `content-disposition` header, by name.
#[derive(Debug, Clone)]
pub struct DispositionVars {
    entries: Vec<(String, String)>,
}

impl View for DispositionVars {
    type V = Map<Seq<char>, Seq<char>>;

    open spec fn view(&self) -> Map<Seq<char>, Seq<char>> {
        map_of(self.pairs())
    }
}

impl DispositionVars {
    /// The entries in the order they were inserted.
    pub closed spec fn pairs(&self) -> Seq<(Seq<char>, Seq<char>)> {
        self.entries@.map_values(|e: (String, String)| (e.0@, e.1@))
    }

    pub fn new() -> (r: DispositionVars)
        ensures
            r@ == Map::<Seq<char>, Seq<char>>::empty(),
            r.pairs() == Seq::<(Seq<char>, Seq<char>)>::empty(),
    {
        let r = DispositionVars { entries: Vec::new() };
        assert(r.pairs() =~= Seq::<(Seq<char>, Seq<char>)>::empty());
        r
    }

    /// Sets `key` to `value`, replacing what it held.
    pub fn insert(&mut self, key: String, value: String)
        ensures
            final(self)@ == old(self)@.insert(key@, value@),
            final(self).pairs() == old(self).pairs().push((key@, value@)),
    {
        self.entries.push((key, value));
        assert(self.pairs().drop_last() =~= old(self).pairs());
    }

    /// The value of `key`, if it has one.
    pub fn get(&self, key: &str) -> (r: Option<&String>)
        ensures
            r is Some <==> self@.contains_key(key@),
            r is Some ==> r->0@ == self@[key@],
    {
        let k = key.to_owned();
        let ghost p = self.pairs();
        let mut i: usize = self.entries.len();
        assert(p.take(i as int) =~= p);
        while i > 0
            invariant
                i <= self.entries@.len(),
                p == self.pairs(),
                k@ == key@,
                map_of(p).contains_key(key@) == map_of(p.take(i as int)).contains_key(key@),
                map_of(p.take(i as int)).contains_key(key@) ==> map_of(p)[key@] == map_of(
                    p.take(i as int),
                )[key@],
            decreases i,
        {
            assert(p.take(i as int).drop_last() =~= p.take(i - 1));
            if self.entries[i - 1].0 == k {
                return Some(&self.entries[i - 1].1);
            }
            i = i - 1;
        }
        None
    }

    /// Whether `key` has a value.
    pub fn contains_key(&self, key: &str) -> (r: bool)
        ensures
            r == self@.contains_key(key@),
    {
        self.get(key).is_some()
    }
}

/// The parameter that `cs[lo..hi]` holds, if any.
pub(crate) fn entry_at(cs: &Vec<char>, lo: usize, hi: usize) -> (r: Option<(String, String)>)
    requires
        lo <= hi <= cs@.len(),
    ensures
        match r {
            Some(p) => entry_of(cs@.subrange(lo as int, hi as int)) == Some((p.0@, p.1@)),
            None => entry_of(cs@.subrange(lo as int, hi as int)) is None,
        },
{
    let ghost piece = cs@.subrange(lo as int, hi as int);
    let (a, b) = strip_range(cs, lo, hi, false);
    let ghost t = cs@.subrange(a as int, b as int);
    assert(t == trim(piece));
    let mut k: usize = a;
    while k < b && cs[k] != '='
        invariant
            a <= k <= b <= cs@.len(),
            forall|j: int| a <= j < k ==> cs@[j] != '=',
        decreases b - k,
    {
        k = k + 1;
    }
    if k == b {
        assert forall|x: int| !first_at(t, x, '=') by {
            if 0 <= x < t.len() {
                assert(t[x] == cs@[a + x]);
            }
        }
        return None;
    }
    let ghost kk = k - a;
    assert(first_at(t, kk, '=')) by {
        assert forall|j: int| 0 <= j < kk implies t[j] != '=' by {
            assert(t[j] == cs@[a + j]);
        }
    }
    assert forall|x: int| first_at(t, x, '=') implies x == kk by {
        if x < kk {
            assert(t[x] == '=');
        } else if kk < x {
            assert(t[kk] == '=');
        }
    }
    let (ka, kb) = strip_range(cs, a, k, false);
    assert(t.take(kk) =~= cs@.subrange(a as int, k as int));
    let (va, vb) = strip_range(cs, k + 1, b, false);
    assert(t.skip(kk + 1) =~= cs@.subrange(k + 1, b as int));
    let (qa, qb) = strip_range(cs, va, vb, true);
    Some((string_of(cs, ka, kb), string_of(cs, qa, qb)))
}

} // verus!
