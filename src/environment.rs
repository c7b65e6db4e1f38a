//! The variables of a shell's environment, read from what `env -0` prints:
//! records each ended by a zero byte (the last one may lack it), a record
//! `key=value` split at its first `=`, a record without `=` ignored, and a
//! later record for a key replacing an earlier one.
use vstd::prelude::*;

verus! {

/// The byte that ends a record.
pub const RECORD_END: u8 = 0;

/// The byte that parts a key from its value.
pub const EQUALS_SIGN: u8 = 0x3d;

/// The records of `s` already ended by a zero byte.
pub open spec fn closed_records(s: Seq<u8>) -> Seq<Seq<u8>>
    decreases s.len(),
{
    if s.len() == 0 {
        seq![]
    } else if s.last() == RECORD_END {
        closed_records(s.drop_last()).push(open_record(s.drop_last()))
    } else {
        closed_records(s.drop_last())
    }
}

/// The bytes of `s` after its last zero byte.
pub open spec fn open_record(s: Seq<u8>) -> Seq<u8>
    decreases s.len(),
{
    if s.len() == 0 {
        seq![]
    } else if s.last() == RECORD_END {
        seq![]
    } else {
        open_record(s.drop_last()).push(s.last())
    }
}

/// The records of `s`: pieces between zero bytes, where a zero byte at the
/// very end adds no empty last piece.
pub open spec fn records(s: Seq<u8>) -> Seq<Seq<u8>> {
    if open_record(s).len() > 0 {
        closed_records(s).push(open_record(s))
    } else {
        closed_records(s)
    }
}

/// `k` is the position of the first `=` of `r`.
pub open spec fn is_first_equals(r: Seq<u8>, k: int) -> bool {
    &&& 0 <= k < r.len()
    &&& r[k] == EQUALS_SIGN
    &&& forall|j: int| 0 <= j < k ==> r[j] != EQUALS_SIGN
}

/// The key and value of a record, split at its first `=`; none without one.
pub open spec fn entry_of(r: Seq<u8>) -> Option<(Seq<u8>, Seq<u8>)> {
    if exists|k: int| is_first_equals(r, k) {
        let k = choose|k: int| is_first_equals(r, k);
        Some((r.subrange(0, k), r.subrange(k + 1, r.len() as int)))
    } else {
        None
    }
}

/// The variables that a sequence of records defines, later ones winning.
pub open spec fn variables_of(rs: Seq<Seq<u8>>) -> Map<Seq<u8>, Seq<u8>>
    decreases rs.len(),
{
    if rs.len() == 0 {
        Map::empty()
    } else {
        let m = variables_of(rs.drop_last());
        match entry_of(rs.last()) {
            Some(kv) => m.insert(kv.0, kv.1),
            None => m,
        }
    }
}

/// The variables that `env -0` output `s` defines.
pub open spec fn environment_of(s: Seq<u8>) -> Map<Seq<u8>, Seq<u8>> {
    variables_of(records(s))
}

/// The map that a list of pairs gives when inserted in order.
pub open spec fn pairs_map(es: Seq<(Vec<u8>, Vec<u8>)>) -> Map<Seq<u8>, Seq<u8>>
    decreases es.len(),
{
    if es.len() == 0 {
        Map::empty()
    } else {
        pairs_map(es.drop_last()).insert(es.last().0@, es.last().1@)
    }
}

/// A set of variables, one entry per key, in the order keys were first seen.
#[derive(Debug)]
pub struct Environment {
    pub entries: Vec<(Vec<u8>, Vec<u8>)>,
}

pub open spec fn keys_unique(es: Seq<(Vec<u8>, Vec<u8>)>) -> bool {
    forall|i: int, j: int| 0 <= i < es.len() && 0 <= j < es.len() && i != j ==> es[i].0@ != es[j].0@
}

proof fn lemma_pairs_map_contains(es: Seq<(Vec<u8>, Vec<u8>)>, i: int)
    requires
        keys_unique(es),
        0 <= i < es.len(),
    ensures
        pairs_map(es).contains_key(es[i].0@),
        pairs_map(es)[es[i].0@] == es[i].1@,
    decreases es.len(),
{
    if i < es.len() - 1 {
        let t = es.drop_last();
        assert(t[i] == es[i]);
        lemma_pairs_map_contains(t, i);
    }
}

proof fn lemma_pairs_map_absent(es: Seq<(Vec<u8>, Vec<u8>)>, k: Seq<u8>)
    requires
        forall|i: int| 0 <= i < es.len() ==> es[i].0@ != k,
    ensures
        !pairs_map(es).contains_key(k),
    decreases es.len(),
{
    if es.len() > 0 {
        let t = es.drop_last();
        assert forall|i: int| 0 <= i < t.len() implies t[i].0@ != k by {
            assert(t[i] == es[i]);
        }
        lemma_pairs_map_absent(t, k);
    }
}

proof fn lemma_pairs_map_update(es: Seq<(Vec<u8>, Vec<u8>)>, i: int, e: (Vec<u8>, Vec<u8>))
    requires
        keys_unique(es),
        0 <= i < es.len(),
        e.0@ == es[i].0@,
    ensures
        pairs_map(es.update(i, e)) == pairs_map(es).insert(e.0@, e.1@),
    decreases es.len(),
{
    let u = es.update(i, e);
    let t = es.drop_last();
    assert(u.drop_last() =~= if i == es.len() - 1 {
        t
    } else {
        t.update(i, e)
    });
    if i == es.len() - 1 {
        assert(pairs_map(u) =~= pairs_map(es).insert(e.0@, e.1@));
    } else {
        assert(t[i] == es[i]);
        assert(keys_unique(t));
        lemma_pairs_map_update(t, i, e);
        assert(es.last().0@ != e.0@);
        assert(pairs_map(u) =~= pairs_map(es).insert(e.0@, e.1@));
    }
}

/// Whether two byte strings are equal.
fn bytes_equal(a: &[u8], b: &[u8]) -> (r: bool)
    ensures
        r == (a@ == b@),
{
    if a.len() != b.len() {
        return false;
    }
    let mut i: usize = 0;
    while i < a.len()
        invariant
            a.len() == b.len(),
            i <= a.len(),
            forall|j: int| 0 <= j < i ==> a@[j] == b@[j],
        decreases a.len() - i,
    {
        if a[i] != b[i] {
            return false;
        }
        i = i + 1;
    }
    assert(a@ =~= b@);
    true
}

/// The bytes of `s` from `start` up to `end`.
fn copy_range(s: &[u8], start: usize, end: usize) -> (r: Vec<u8>)
    requires
        start <= end <= s.len(),
    ensures
        r@ == s@.subrange(start as int, end as int),
{
    let mut r: Vec<u8> = Vec::new();
    let mut i: usize = start;
    while i < end
        invariant
            start <= i <= end <= s.len(),
            r@ == s@.subrange(start as int, i as int),
        decreases end - i,
    {
        r.push(s[i]);
        i = i + 1;
        assert(r@ =~= s@.subrange(start as int, i as int));
    }
    r
}

impl View for Environment {
    type V = Map<Seq<u8>, Seq<u8>>;

    open spec fn view(&self) -> Map<Seq<u8>, Seq<u8>> {
        pairs_map(self.entries@)
    }
}

impl Environment {
    pub open spec fn wf(&self) -> bool {
        keys_unique(self.entries@)
    }

    pub fn new() -> (r: Environment)
        ensures
            r.wf(),
            r@ == Map::<Seq<u8>, Seq<u8>>::empty(),
    {
        Environment { entries: Vec::new() }
    }

    fn find(&self, key: &[u8]) -> (r: Option<usize>)
        ensures
            r is Some ==> r->0 < self.entries@.len() && self.entries@[r->0 as int].0@ == key@,
            r is None ==> forall|i: int|
                0 <= i < self.entries@.len() ==> self.entries@[i].0@ != key@,
    {
        let mut i: usize = 0;
        while i < self.entries.len()
            invariant
                i <= self.entries@.len(),
                forall|j: int| 0 <= j < i ==> self.entries@[j].0@ != key@,
            decreases self.entries@.len() - i,
        {
            if bytes_equal(self.entries[i].0.as_slice(), key) {
                return Some(i);
            }
            i = i + 1;
        }
        None
    }

    /// The value of `key`, if the environment has it.
    pub fn get(&self, key: &[u8]) -> (r: Option<&Vec<u8>>)
        requires
            self.wf(),
        ensures
            r is Some == self@.contains_key(key@),
            r is Some ==> r->0@ == self@[key@],
    {
        match self.find(key) {
            Some(i) => {
                proof {
                    lemma_pairs_map_contains(self.entries@, i as int);
                }
                Some(&self.entries[i].1)
            },
            None => {
                proof {
                    lemma_pairs_map_absent(self.entries@, key@);
                }
                None
            },
        }
    }

    /// Sets `key` to `value`, replacing the value it had.
    pub fn insert(&mut self, key: Vec<u8>, value: Vec<u8>)
        requires
            old(self).wf(),
        ensures
            final(self).wf(),
            final(self)@ == old(self)@.insert(key@, value@),
    {
        match self.find(key.as_slice()) {
            Some(i) => {
                proof {
                    lemma_pairs_map_update(self.entries@, i as int, (key, value));
                }
                self.entries.set(i, (key, value));
            },
            None => {
                self.entries.push((key, value));
                assert(self.entries@.drop_last() =~= old(self).entries@);
            },
        }
    }

    /// Adds the variable of record `s[start..end]`, if it has an `=`.
    fn add_record(&mut self, s: &[u8], start: usize, end: usize)
        requires
            old(self).wf(),
            start <= end <= s.len(),
        ensures
            final(self).wf(),
            final(self)@ == match entry_of(s@.subrange(start as int, end as int)) {
                Some(kv) => old(self)@.insert(kv.0, kv.1),
                None => old(self)@,
            },
    {
        let ghost r = s@.subrange(start as int, end as int);
        let mut j: usize = start;
        while j < end
            invariant
                start <= j <= end <= s.len(),
                r == s@.subrange(start as int, end as int),
                *self == *old(self),
                self.wf(),
                forall|m: int| start <= m < j ==> s@[m] != EQUALS_SIGN,
            decreases end - j,
        {
            if s[j] == EQUALS_SIGN {
                let ghost k = j - start;
                assert(is_first_equals(r, k));
                assert forall|k2: int| is_first_equals(r, k2) implies k2 == k by {
                    if k2 < k {
                        assert(r[k2] == s@[start + k2]);
                    } else if k2 > k {
                        assert(r[k] == EQUALS_SIGN);
                    }
                }
                let key = copy_range(s, start, j);
                let value = copy_range(s, j + 1, end);
                assert(key@ =~= r.subrange(0, k));
                assert(value@ =~= r.subrange(k + 1, r.len() as int));
                self.insert(key, value);
                return;
            }
            j = j + 1;
        }
        assert forall|k: int| !is_first_equals(r, k) by {
            if 0 <= k < r.len() {
                assert(r[k] == s@[start + k]);
            }
        }
    }
}

proof fn lemma_variables_push(rs: Seq<Seq<u8>>, r: Seq<u8>)
    ensures
        variables_of(rs.push(r)) == match entry_of(r) {
            Some(kv) => variables_of(rs).insert(kv.0, kv.1),
            None => variables_of(rs),
        },
{
    assert(rs.push(r).drop_last() =~= rs);
}

/// Reads the variables out of `env -0` output.
pub fn parse_environment(out: &[u8]) -> (r: Environment)
    ensures
        r.wf(),
        r@ == environment_of(out@),
{
    let mut env = Environment::new();
    let mut start: usize = 0;
    let mut i: usize = 0;
    while i < out.len()
        invariant
            start <= i <= out.len(),
            env.wf(),
            env@ == variables_of(closed_records(out@.subrange(0, i as int))),
            out@.subrange(start as int, i as int) == open_record(out@.subrange(0, i as int)),
        decreases out.len() - i,
    {
        let ghost before = out@.subrange(0, i as int);
        let ghost after = out@.subrange(0, i + 1);
        assert(after.drop_last() =~= before);
        if out[i] == RECORD_END {
            env.add_record(out, start, i);
            proof {
                lemma_variables_push(closed_records(before), open_record(before));
            }
            start = i + 1;
        } else {
            assert(out@.subrange(start as int, i + 1) =~= out@.subrange(start as int, i as int).push(
                out@[i as int],
            ));
        }
        i = i + 1;
    }
    assert(out@.subrange(0, out.len() as int) =~= out@);
    if start < out.len() {
        env.add_record(out, start, out.len());
        proof {
            lemma_variables_push(closed_records(out@), open_record(out@));
        }
    }
    env
}

} // verus!
