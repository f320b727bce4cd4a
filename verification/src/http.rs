//! Plain models of the HTTP messages the proxy manipulates: a header map
//! with exact-name lookup, the request data the pipeline reads, and the
//! response the pipeline produces.
//!
//! Header names are matched exactly; the surrounding runtime is responsible
//! for handing names in a consistent spelling.

use vstd::prelude::*;

use crate::strutil::str_eq;

verus! {

/// The value the entry list holds for `name`: the first matching entry.
pub open spec fn spec_entry_lookup<V>(entries: Seq<(String, V)>, name: Seq<char>) -> Option<V>
    decreases entries.len(),
{
    if entries.len() == 0 {
        Option::None
    } else if entries[0].0@ == name {
        Option::Some(entries[0].1)
    } else {
        spec_entry_lookup(entries.drop_first(), name)
    }
}

/// Skipping entries whose name differs leaves the lookup unchanged.
proof fn lemma_entry_lookup_skip<V>(entries: Seq<(String, V)>, name: Seq<char>, i: int)
    requires
        0 <= i <= entries.len(),
        forall|k: int| 0 <= k < i ==> #[trigger] entries[k].0@ != name,
    ensures
        spec_entry_lookup(entries, name) == spec_entry_lookup(entries.skip(i), name),
    decreases i,
{
    if i > 0 {
        lemma_entry_lookup_skip(entries, name, i - 1);
        assert(entries.skip(i - 1).drop_first() =~= entries.skip(i));
        assert(entries.skip(i - 1)[0] == entries[i - 1]);
    } else {
        assert(entries.skip(0) =~= entries);
    }
}

/// A name no entry carries looks up to nothing.
proof fn lemma_entry_lookup_absent<V>(entries: Seq<(String, V)>, name: Seq<char>)
    requires
        forall|k: int| 0 <= k < entries.len() ==> #[trigger] entries[k].0@ != name,
    ensures
        spec_entry_lookup(entries, name) == Option::<V>::None,
    decreases entries.len(),
{
    if entries.len() > 0 {
        lemma_entry_lookup_absent(entries.drop_first(), name);
    }
}

/// Appending an entry resolves lookups that found nothing before.
proof fn lemma_entry_lookup_push<V>(entries: Seq<(String, V)>, x: (String, V), name: Seq<char>)
    ensures
        spec_entry_lookup(entries.push(x), name) == match spec_entry_lookup(entries, name) {
            Option::Some(v) => Option::Some(v),
            Option::None => if x.0@ == name {
                Option::Some(x.1)
            } else {
                Option::<V>::None
            },
        },
    decreases entries.len(),
{
    if entries.len() == 0 {
        assert(entries.push(x)[0] == x);
        assert(entries.push(x).drop_first() =~= entries);
    } else {
        lemma_entry_lookup_push(entries.drop_first(), x, name);
        assert(entries.push(x)[0] == entries[0]);
        assert(entries.push(x).drop_first() =~= entries.drop_first().push(x));
    }
}

/// Overwriting the value of entry `i` (keeping its name) moves that name's
/// lookup to the new value when no earlier entry shadows it, and leaves
/// every other name's lookup unchanged.
proof fn lemma_entry_lookup_update<V>(
    entries: Seq<(String, V)>,
    i: int,
    x: (String, V),
    name: Seq<char>,
)
    requires
        0 <= i < entries.len(),
        entries[i].0@ == x.0@,
        forall|k: int| 0 <= k < i ==> #[trigger] entries[k].0@ != x.0@,
    ensures
        name == x.0@ ==> spec_entry_lookup(entries.update(i, x), name) == Option::Some(x.1),
        name != x.0@ ==> spec_entry_lookup(entries.update(i, x), name) == spec_entry_lookup(
            entries,
            name,
        ),
    decreases i,
{
    if i == 0 {
        if name != x.0@ {
            assert(entries.update(0, x).drop_first() =~= entries.drop_first());
        }
    } else {
        lemma_entry_lookup_update(entries.drop_first(), i - 1, x, name);
        assert(entries.update(i, x).drop_first() =~= entries.drop_first().update(i - 1, x));
        assert(entries.update(i, x)[0] == entries[0]);
    }
}

/// Removing entry `i` erases its name's lookup when no other entry carries
/// that name, and leaves every other name's lookup unchanged.
proof fn lemma_entry_lookup_remove<V>(entries: Seq<(String, V)>, i: int, name: Seq<char>)
    requires
        0 <= i < entries.len(),
        forall|k: int|
            0 <= k < entries.len() && k != i ==> #[trigger] entries[k].0@ != entries[i].0@,
    ensures
        name == entries[i].0@ ==> spec_entry_lookup(entries.remove(i), name) == Option::<V>::None,
        name != entries[i].0@ ==> spec_entry_lookup(entries.remove(i), name) == spec_entry_lookup(
            entries,
            name,
        ),
    decreases i,
{
    if i == 0 {
        assert(entries.remove(0) =~= entries.drop_first());
        if name == entries[0].0@ {
            lemma_entry_lookup_absent(entries.drop_first(), name);
        }
    } else {
        lemma_entry_lookup_remove(entries.drop_first(), i - 1, name);
        assert(entries.remove(i).drop_first() =~= entries.drop_first().remove(i - 1));
        assert(entries.remove(i)[0] == entries[0]);
    }
}

/// A lookup that found its entry at `i`, with no earlier entry carrying the
/// name, resolves to that entry's value.
pub(crate) proof fn lemma_lookup_found<V>(entries: Seq<(String, V)>, name: Seq<char>, i: int)
    requires
        0 <= i < entries.len(),
        entries[i].0@ == name,
        forall|k: int| 0 <= k < i ==> #[trigger] entries[k].0@ != name,
    ensures
        spec_entry_lookup(entries, name) == Option::Some(entries[i].1),
{
    lemma_entry_lookup_skip(entries, name, i);
    assert(entries.skip(i)[0] == entries[i]);
}

/// Overwriting the value of entry `i` (keeping its name) moves that name's
/// lookup to the new value and leaves every other name's lookup unchanged.
pub(crate) proof fn lemma_lookup_update_all<V>(entries: Seq<(String, V)>, i: int, x: (String, V))
    requires
        0 <= i < entries.len(),
        entries[i].0@ == x.0@,
        forall|k: int| 0 <= k < i ==> #[trigger] entries[k].0@ != x.0@,
    ensures
        spec_entry_lookup(entries.update(i, x), x.0@) == Option::Some(x.1),
        forall|n: Seq<char>|
            n != x.0@ ==> #[trigger] spec_entry_lookup(entries.update(i, x), n)
                == spec_entry_lookup(entries, n),
{
    lemma_entry_lookup_update(entries, i, x, x.0@);
    assert forall|n: Seq<char>| n != x.0@ implies #[trigger] spec_entry_lookup(
        entries.update(i, x),
        n,
    ) == spec_entry_lookup(entries, n) by {
        lemma_entry_lookup_update(entries, i, x, n);
    }
}

/// A name that no entry carries looks up to nothing.
pub(crate) proof fn lemma_lookup_absent_all<V>(entries: Seq<(String, V)>, name: Seq<char>)
    requires
        forall|k: int| 0 <= k < entries.len() ==> #[trigger] entries[k].0@ != name,
    ensures
        spec_entry_lookup(entries, name) == Option::<V>::None,
{
    lemma_entry_lookup_absent(entries, name);
}

/// Appending an entry resolves exactly the lookups that found nothing
/// before, for every name at once.
pub(crate) proof fn lemma_lookup_push_all<V>(entries: Seq<(String, V)>, x: (String, V))
    ensures
        forall|n: Seq<char>|
            #[trigger] spec_entry_lookup(entries.push(x), n) == match spec_entry_lookup(
                entries,
                n,
            ) {
                Option::Some(v) => Option::Some(v),
                Option::None => if x.0@ == n {
                    Option::Some(x.1)
                } else {
                    Option::<V>::None
                },
            },
{
    assert forall|n: Seq<char>| true implies #[trigger] spec_entry_lookup(entries.push(x), n)
        == match spec_entry_lookup(entries, n) {
        Option::Some(v) => Option::Some(v),
        Option::None => if x.0@ == n {
            Option::Some(x.1)
        } else {
            Option::<V>::None
        },
    } by {
        lemma_entry_lookup_push(entries, x, n);
    }
}

/// An ordered header collection with at most one entry per exact name.
pub struct HeaderMap {
    pub entries: Vec<(String, String)>,
}

impl HeaderMap {
    /// At most one entry per name.
    pub open spec fn wf(&self) -> bool {
        forall|i: int, j: int|
            0 <= i < j < self.entries@.len() ==> #[trigger] self.entries@[i].0@
                != #[trigger] self.entries@[j].0@
    }

    /// The value held for `name`, if any.
    pub open spec fn spec_get(&self, name: Seq<char>) -> Option<Seq<char>> {
        match spec_entry_lookup(self.entries@, name) {
            Option::Some(v) => Option::Some(v@),
            Option::None => Option::None,
        }
    }

    /// An empty header map.
    pub fn new() -> (r: HeaderMap)
        ensures
            r.wf(),
            r.entries@.len() == 0,
            forall|n: Seq<char>| #[trigger] r.spec_get(n) is None,
    {
        let m = HeaderMap { entries: Vec::new() };
        proof {
            assert forall|n: Seq<char>| #[trigger] m.spec_get(n) is None by {
                lemma_entry_lookup_absent::<String>(m.entries@, n);
            }
        }
        m
    }

    /// The index of the entry for `name`, if one exists.
    fn find(&self, name: &str) -> (r: Option<usize>)
        ensures
            match r {
                Option::Some(i) => i < self.entries@.len() && self.entries@[i as int].0@ == name@
                    && spec_entry_lookup(self.entries@, name@) == Option::Some(
                    self.entries@[i as int].1,
                ) && forall|k: int| 0 <= k < i ==> #[trigger] self.entries@[k].0@ != name@,
                Option::None => spec_entry_lookup(self.entries@, name@) is None && forall|k: int|
                    0 <= k < self.entries@.len() ==> #[trigger] self.entries@[k].0@ != name@,
            },
    {
        let len = self.entries.len();
        let mut i: usize = 0;
        while i < len
            invariant
                i <= len,
                len == self.entries@.len(),
                forall|k: int| 0 <= k < i ==> #[trigger] self.entries@[k].0@ != name@,
            decreases len - i,
        {
            if str_eq(self.entries[i].0.as_str(), name) {
                proof {
                    lemma_entry_lookup_skip(self.entries@, name@, i as int);
                    assert(self.entries@.skip(i as int)[0] == self.entries@[i as int]);
                }
                return Option::Some(i);
            }
            i += 1;
        }
        proof {
            lemma_entry_lookup_absent(self.entries@, name@);
        }
        Option::None
    }

    /// The value stored under `name`, if any.
    pub fn get(&self, name: &str) -> (r: Option<&String>)
        ensures
            match r {
                Option::Some(v) => self.spec_get(name@) == Option::Some(v@),
                Option::None => self.spec_get(name@) is None,
            },
    {
        match self.find(name) {
            Option::Some(i) => Option::Some(&self.entries[i].1),
            Option::None => Option::None,
        }
    }

    /// Whether an entry for `name` exists.
    pub fn contains(&self, name: &str) -> (r: bool)
        ensures
            r == (self.spec_get(name@) is Some),
    {
        match self.find(name) {
            Option::Some(_) => true,
            Option::None => false,
        }
    }

    /// Stores `value` under `name`, overwriting any previous entry.
    pub fn set(&mut self, name: &str, value: &str)
        requires
            old(self).wf(),
        ensures
            final(self).wf(),
            final(self).spec_get(name@) == Option::Some(value@),
            forall|n: Seq<char>|
                n != name@ ==> #[trigger] final(self).spec_get(n) == old(self).spec_get(n),
            old(self).spec_get(name@) is Some ==> final(self).entries@.len() == old(
                self,
            ).entries@.len(),
            old(self).spec_get(name@) is None ==> final(self).entries@.len() == old(
                self,
            ).entries@.len() + 1,
    {
        match self.find(name) {
            Option::Some(i) => {
                let kept = self.entries[i].0.clone();
                let newval = String::from_str(value);
                proof {
                    assert forall|n: Seq<char>| n != name@ implies spec_entry_lookup(
                        self.entries@.update(i as int, (self.entries@[i as int].0, newval)),
                        n,
                    ) == spec_entry_lookup(self.entries@, n) by {
                        lemma_entry_lookup_update(
                            self.entries@,
                            i as int,
                            (self.entries@[i as int].0, newval),
                            n,
                        );
                    }
                    lemma_entry_lookup_update(
                        self.entries@,
                        i as int,
                        (self.entries@[i as int].0, newval),
                        name@,
                    );
                }
                self.entries.set(i, (kept, newval));
            },
            Option::None => {
                let ghost before = self.entries@;
                self.entries.push((String::from_str(name), String::from_str(value)));
                proof {
                    let x = self.entries@.last();
                    assert(self.entries@ =~= before.push(x));
                    lemma_entry_lookup_push(before, x, name@);
                    assert forall|n: Seq<char>| n != name@ implies #[trigger] spec_entry_lookup(
                        before.push(x),
                        n,
                    ) == spec_entry_lookup(before, n) by {
                        lemma_entry_lookup_push(before, x, n);
                    }
                }
            },
        }
    }

    /// Removes the entry for `name`, if present.
    pub fn delete(&mut self, name: &str)
        requires
            old(self).wf(),
        ensures
            final(self).wf(),
            final(self).spec_get(name@) is None,
            forall|n: Seq<char>|
                n != name@ ==> #[trigger] final(self).spec_get(n) == old(self).spec_get(n),
    {
        match self.find(name) {
            Option::Some(i) => {
                proof {
                    assert forall|n: Seq<char>| true implies #[trigger] spec_entry_lookup(
                        self.entries@.remove(i as int),
                        n,
                    ) == if n == name@ {
                        Option::<String>::None
                    } else {
                        spec_entry_lookup(self.entries@, n)
                    } by {
                        lemma_entry_lookup_remove(self.entries@, i as int, n);
                    }
                }
                self.entries.remove(i);
            },
            Option::None => {},
        }
    }

    /// A copy of this header map.
    pub fn duplicate(&self) -> (r: HeaderMap)
        ensures
            r.entries@ == self.entries@,
    {
        let mut entries: Vec<(String, String)> = Vec::new();
        let mut i: usize = 0;
        while i < self.entries.len()
            invariant
                i <= self.entries@.len(),
                entries@ == self.entries@.subrange(0, i as int),
            decreases self.entries@.len() - i,
        {
            entries.push((self.entries[i].0.clone(), self.entries[i].1.clone()));
            proof {
                assert(entries@ =~= self.entries@.subrange(0, i + 1));
            }
            i += 1;
        }
        proof {
            assert(self.entries@.subrange(0, self.entries@.len() as int) =~= self.entries@);
        }
        HeaderMap { entries }
    }

    /// The number of entries.
    pub fn len(&self) -> (r: usize)
        ensures
            r == self.entries@.len(),
    {
        self.entries.len()
    }
}

/// The request data the pipeline decisions read, as plain values.  The
/// request body never enters the library: the runtime forwards it for
/// methods that carry one.
pub struct RequestInfo {
    /// The HTTP method, upper-case.
    pub method: String,
    /// The request path, beginning with `/`.
    pub path: String,
    /// The raw query string, without the leading `?`, if any.
    pub query: Option<String>,
    /// Whether the inbound URL uses the `https` scheme.
    pub url_is_https: bool,
    /// The inbound headers.
    pub headers: HeaderMap,
    /// The platform-supplied country code, if any.
    pub country: Option<String>,
}

/// A response as the pipeline shapes it: a status code, headers, and a body.
pub struct ProxyResponse {
    pub status: u16,
    pub headers: HeaderMap,
    pub body: String,
}

} // verus!
