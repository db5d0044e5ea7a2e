//! Query parameters: a `key=value&key=value` view borrowed from the
//! request buffer. Parsing never fails; malformed input degrades to keys
//! with empty values.

use crate::scan::find_char;
use crate::scan::first_index_of;
use crate::scan::lemma_first_index_of;
use crate::scan::str_eq;
use vstd::prelude::*;

verus! {

/// A parameter's value: one borrowed string for a key seen once, or the
/// values in insertion order for a key seen more than once.
#[derive(Debug)]
pub enum Value<'buf> {
    Single(&'buf str),
    Multiple(Vec<&'buf str>),
}

impl<'buf> View for Value<'buf> {
    type V = Seq<Seq<char>>;

    open spec fn view(&self) -> Seq<Seq<char>> {
        match self {
            Value::Single(v) => seq![v@],
            Value::Multiple(vs) => vs@.map_values(|x: &'buf str| x@),
        }
    }
}

/// Query parameters in insertion order. Each entry pairs a key with the
/// values it was given, and borrows from the same buffer as the enclosing
/// request.
#[derive(Debug)]
pub struct QueryString<'buf> {
    pub pairs: Vec<(&'buf str, Value<'buf>)>,
}

/// The entries a query string abstracts to: keys with their value lists,
/// in insertion order.
pub type QueryView = Seq<(Seq<char>, Seq<Seq<char>>)>;

impl<'buf> View for QueryString<'buf> {
    type V = QueryView;

    open spec fn view(&self) -> QueryView {
        self.pairs@.map_values(|p: (&'buf str, Value<'buf>)| (p.0@, p.1@))
    }
}

/// The key and value a segment denotes: split at the first `=`, or the
/// whole segment as a key with an empty value when `=` is absent.
pub open spec fn segment_key_value(seg: Seq<char>) -> (Seq<char>, Seq<char>) {
    let e = first_index_of(seg, '=');
    if 0 <= e < seg.len() {
        (seg.take(e), seg.skip(e + 1))
    } else {
        (seg, Seq::<char>::empty())
    }
}

/// Index of the entry holding `key`, or -1 when no entry does.
pub open spec fn key_index(entries: QueryView, key: Seq<char>) -> int
    decreases entries.len(),
{
    if entries.len() == 0 {
        -1
    } else if entries[0].0 == key {
        0
    } else if key_index(entries.skip(1), key) == -1 {
        -1
    } else {
        1 + key_index(entries.skip(1), key)
    }
}

/// `key_index` returns -1 exactly when the key is absent, and otherwise
/// the least index of an entry holding it.
pub proof fn lemma_key_index(entries: QueryView, key: Seq<char>)
    ensures
        key_index(entries, key) == -1 ==> forall|i: int|
            0 <= i < entries.len() ==> (#[trigger] entries[i]).0 != key,
        key_index(entries, key) != -1 ==> {
            &&& 0 <= key_index(entries, key) < entries.len()
            &&& entries[key_index(entries, key)].0 == key
            &&& forall|i: int| 0 <= i < key_index(entries, key) ==> (#[trigger] entries[i]).0 != key
        },
    decreases entries.len(),
{
    if entries.len() != 0 && entries[0].0 != key {
        let t = entries.skip(1);
        lemma_key_index(t, key);
        assert(forall|i: int| 0 <= i < t.len() ==> t[i] == entries[i + 1]);
        if key_index(t, key) == -1 {
            assert forall|i: int| 0 <= i < entries.len() implies (#[trigger] entries[i]).0 != key by {
                if i > 0 {
                    assert(t[i - 1].0 != key);
                }
            }
        } else {
            let k = key_index(entries, key);
            assert(entries[k] == t[k - 1]);
            assert forall|i: int| 0 <= i < k implies (#[trigger] entries[i]).0 != key by {
                if i > 0 {
                    assert(t[i - 1].0 != key);
                }
            }
        }
    }
}

/// Entries after recording `value` under `key`: appended to the key's
/// existing values, or a fresh single-valued entry at the end.
pub open spec fn insert_value(entries: QueryView, key: Seq<char>, value: Seq<char>) -> QueryView {
    let k = key_index(entries, key);
    if k == -1 {
        entries.push((key, seq![value]))
    } else {
        entries.update(k, (key, entries[k].1.push(value)))
    }
}

/// Entries after recording one `&`-separated segment.
pub open spec fn insert_segment(entries: QueryView, seg: Seq<char>) -> QueryView {
    insert_value(entries, segment_key_value(seg).0, segment_key_value(seg).1)
}

/// Entries after recording every `&`-separated segment of `raw`, left to
/// right, starting from `entries`.
pub open spec fn parse_query_from(entries: QueryView, raw: Seq<char>) -> QueryView
    decreases raw.len(),
{
    let a = first_index_of(raw, '&');
    if 0 <= a < raw.len() {
        parse_query_from(insert_segment(entries, raw.take(a)), raw.skip(a + 1))
    } else {
        insert_segment(entries, raw)
    }
}

/// The entries that parsing `raw` produces: `raw` split on `&`, each
/// segment split at its first `=`, duplicate keys collecting their values
/// in insertion order.
pub open spec fn parse_query(raw: Seq<char>) -> QueryView {
    parse_query_from(Seq::empty(), raw)
}

impl<'buf> QueryString<'buf> {
    /// A `Multiple` value only ever holds two or more entries: it is
    /// created when a key is seen a second time.
    pub open spec fn wf(&self) -> bool {
        forall|i: int|
            0 <= i < self.pairs@.len() ==> match (#[trigger] self.pairs@[i]).1 {
                Value::Single(_) => true,
                Value::Multiple(vs) => vs@.len() >= 2,
            }
    }

    /// Records `value` under `key`: appends to the key's entry, turning a
    /// single value into a pair, or adds a fresh entry at the end.
    #[verifier::loop_isolation(false)]
    fn insert(&mut self, key: &'buf str, value: &'buf str)
        requires
            old(self).wf(),
        ensures
            final(self).wf(),
            final(self)@ == insert_value(old(self)@, key@, value@),
    {
        proof {
            lemma_key_index(self@, key@);
        }
        let ghost k = key_index(self@, key@);
        let n: usize = self.pairs.len();
        let mut i: usize = 0;
        while i < n
            invariant
                *self == *old(self),
                n == self.pairs@.len(),
                0 <= i <= n,
                forall|j: int| 0 <= j < i ==> (#[trigger] self@[j]).0 != key@,
                self@.len() == self.pairs@.len(),
                forall|j: int|
                    0 <= j < self.pairs@.len() ==> (#[trigger] self@[j]) == (
                        self.pairs@[j].0@,
                        self.pairs@[j].1@,
                    ),
            decreases n - i,
        {
            if str_eq(self.pairs[i].0, key) {
                proof {
                    assert(self@[i as int].0 == key@);
                    assert(k == i as int);
                }
                let pair = self.pairs.remove(i);
                let key0 = pair.0;
                let new_value = match pair.1 {
                    Value::Single(s) => {
                        let mut vs: Vec<&'buf str> = Vec::new();
                        vs.push(s);
                        vs.push(value);
                        Value::Multiple(vs)
                    }
                    Value::Multiple(mut vs) => {
                        vs.push(value);
                        Value::Multiple(vs)
                    }
                };
                proof {
                    assert(new_value@ =~~= old(self)@[k].1.push(value@));
                }
                self.pairs.insert(i, (key0, new_value));
                proof {
                    assert(self.pairs@ =~= old(self).pairs@.update(
                        k,
                        (key0, new_value),
                    ));
                    assert(self@ =~~= insert_value(old(self)@, key@, value@));
                }
                return ;
            }
            i = i + 1;
        }
        proof {
            assert(k == -1);
        }
        self.pairs.push((key, Value::Single(value)));
        proof {
            assert(self@ =~~= insert_value(old(self)@, key@, value@));
        }
    }

    /// Splits one segment at its first `=` and records the key and value.
    fn insert_segment_exec(&mut self, seg: &'buf str)
        requires
            old(self).wf(),
        ensures
            final(self).wf(),
            final(self)@ == insert_segment(old(self)@, seg@),
    {
        match find_char(seg, '=') {
            Some(e) => {
                proof {
                    lemma_first_index_of(seg@, '=');
                }
                let n: usize = seg.unicode_len();
                let key = seg.substring_char(0, e);
                let value = seg.substring_char(e + 1, n);
                self.insert(key, value);
            }
            None => {
                let value: &'buf str = "";
                proof {
                    reveal_strlit("");
                    assert(value@ =~= Seq::<char>::empty());
                }
                self.insert(seg, value);
            }
        }
    }

    /// Splits `raw` on `&` and records every segment, left to right. Never
    /// fails: a segment without `=` becomes a key with an empty value.
    pub fn parse(raw: &'buf str) -> (qs: QueryString<'buf>)
        ensures
            qs@ == parse_query(raw@),
            qs.wf(),
    {
        let mut qs = QueryString { pairs: Vec::new() };
        proof {
            assert(qs@ =~= Seq::<(Seq<char>, Seq<Seq<char>>)>::empty());
        }
        let mut rest: &'buf str = raw;
        loop
            invariant_except_break
                parse_query_from(qs@, rest@) == parse_query(raw@),
            invariant
                qs.wf(),
            ensures
                qs@ == parse_query(raw@),
            decreases rest@.len(),
        {
            match find_char(rest, '&') {
                Some(a) => {
                    proof {
                        lemma_first_index_of(rest@, '&');
                    }
                    let n: usize = rest.unicode_len();
                    let seg = rest.substring_char(0, a);
                    let new_rest = rest.substring_char(a + 1, n);
                    qs.insert_segment_exec(seg);
                    rest = new_rest;
                }
                None => {
                    qs.insert_segment_exec(rest);
                    break ;
                }
            }
        }
        qs
    }

    /// Looks a key up: the first entry whose key matches, or nothing.
    #[verifier::loop_isolation(false)]
    pub fn get(&self, key: &str) -> (r: Option<&Value<'buf>>)
        ensures
            match r {
                Some(v) => {
                    &&& key_index(self@, key@) >= 0
                    &&& v@ == self@[key_index(self@, key@)].1
                    &&& (self.wf() ==> (v is Single <==> v@.len() == 1))
                },
                None => key_index(self@, key@) == -1,
            },
    {
        proof {
            lemma_key_index(self@, key@);
        }
        let n: usize = self.pairs.len();
        let mut i: usize = 0;
        while i < n
            invariant
                n == self.pairs@.len(),
                0 <= i <= n,
                forall|j: int| 0 <= j < i ==> (#[trigger] self@[j]).0 != key@,
                self@.len() == self.pairs@.len(),
                forall|j: int|
                    0 <= j < self.pairs@.len() ==> (#[trigger] self@[j]) == (
                        self.pairs@[j].0@,
                        self.pairs@[j].1@,
                    ),
            decreases n - i,
        {
            if str_eq(self.pairs[i].0, key) {
                proof {
                    assert(self@[i as int].0 == key@);
                    assert(key_index(self@, key@) == i as int);
                }
                return Some(&self.pairs[i].1);
            }
            i = i + 1;
        }
        None
    }
}

} // verus!
