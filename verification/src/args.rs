//! The arguments of a tool call: a JSON object whose members the library
//! reads as plain values.

use vstd::prelude::*;

verus! {

/// One member value of the argument object, as far as the tools read it.
#[derive(Debug, PartialEq, Eq)]
pub enum ArgValue {
    /// A JSON string.
    Str(String),
    /// A JSON number that is a whole number in the range of `u64`.
    UInt(u64),
    /// Any other JSON value (other numbers, booleans, null, arrays,
    /// objects), kept as its JSON text.
    Other(String),
}

/// The mathematical value of an [`ArgValue`].
pub enum ArgView {
    Str(Seq<char>),
    UInt(u64),
    Other(Seq<char>),
}

impl View for ArgValue {
    type V = ArgView;

    open spec fn view(&self) -> ArgView {
        match self {
            ArgValue::Str(s) => ArgView::Str(s@),
            ArgValue::UInt(n) => ArgView::UInt(*n),
            ArgValue::Other(s) => ArgView::Other(s@),
        }
    }
}

impl ArgValue {
    /// A copy of the value.
    pub fn duplicate(&self) -> (r: ArgValue)
        ensures
            r@ == self@,
    {
        match self {
            ArgValue::Str(s) => ArgValue::Str(s.clone()),
            ArgValue::UInt(n) => ArgValue::UInt(*n),
            ArgValue::Other(s) => ArgValue::Other(s.clone()),
        }
    }
}

/// The value of the member `key` of an argument object, if it has one.
pub open spec fn member(args: Map<Seq<char>, ArgView>, key: Seq<char>) -> Option<ArgView> {
    if args.contains_key(key) {
        Some(args[key])
    } else {
        None
    }
}

/// The string a member holds, if it is a JSON string.
pub open spec fn str_of(v: Option<ArgView>) -> Option<Seq<char>> {
    match v {
        Some(ArgView::Str(s)) => Some(s),
        _ => None,
    }
}

/// The number a member holds, if it is a whole number in the range of `u64`.
pub open spec fn u64_of(v: Option<ArgView>) -> Option<u64> {
    match v {
        Some(ArgView::UInt(n)) => Some(n),
        _ => None,
    }
}

/// The string held by the member `key`, or `default`.
pub open spec fn text_or(args: Map<Seq<char>, ArgView>, key: Seq<char>, default: Seq<char>) -> Seq<char> {
    match str_of(member(args, key)) {
        Some(s) => s,
        None => default,
    }
}

/// An argument object: member names with their values, no name twice.
pub struct ToolArgs {
    entries: Vec<(String, ArgValue)>,
}

impl ToolArgs {
    #[verifier::type_invariant]
    spec fn names_distinct(self) -> bool {
        forall|i: int, j: int|
            0 <= i < j < self.entries@.len() ==> (#[trigger] self.entries@[i]).0@
                != (#[trigger] self.entries@[j]).0@
    }

    spec fn index_of(self, key: Seq<char>) -> int {
        choose|i: int| 0 <= i < self.entries@.len() && self.entries@[i].0@ == key
    }

    /// The object as a map from member names to values.
    pub closed spec fn view(self) -> Map<Seq<char>, ArgView> {
        Map::new(
            |k: Seq<char>| exists|i: int| 0 <= i < self.entries@.len() && self.entries@[i].0@ == k,
            |k: Seq<char>| self.entries@[self.index_of(k)].1@,
        )
    }

    /// The value stored under `key`, if there is one.
    pub open spec fn lookup(self, key: Seq<char>) -> Option<ArgView> {
        member(self.view(), key)
    }

    /// An empty object.
    pub fn new() -> (r: ToolArgs)
        ensures
            r.view() == Map::<Seq<char>, ArgView>::empty(),
    {
        let r = ToolArgs { entries: Vec::new() };
        assert(r.view() =~= Map::<Seq<char>, ArgView>::empty());
        r
    }

    fn find(&self, key: &str) -> (r: Option<usize>)
        ensures
            match r {
                Some(i) => i < self.entries@.len() && self.entries@[i as int].0@ == key@,
                None => forall|j: int|
                    0 <= j < self.entries@.len() ==> self.entries@[j].0@ != key@,
            },
    {
        let mut i: usize = 0;
        while i < self.entries.len()
            invariant
                i <= self.entries@.len(),
                forall|j: int| 0 <= j < i ==> self.entries@[j].0@ != key@,
            decreases self.entries@.len() - i,
        {
            if crate::text::text_eq(self.entries[i].0.as_str(), key) {
                return Some(i);
            }
            i = i + 1;
        }
        None
    }

    /// The value of the member `key`, if the object has one.
    pub fn get(&self, key: &str) -> (r: Option<&ArgValue>)
        ensures
            match r {
                Some(v) => self.lookup(key@) == Some(v@),
                None => self.lookup(key@) is None,
            },
    {
        proof {
            use_type_invariant(self);
        }
        match self.find(key) {
            Some(i) => {
                proof {
                    let k = self.index_of(key@);
                    assert(self.view().contains_key(key@));
                    assert(0 <= k < self.entries@.len() && self.entries@[k].0@ == key@);
                    if k != i {
                        if k < i {
                            assert(self.entries@[k].0@ != self.entries@[i as int].0@);
                        } else {
                            assert(self.entries@[i as int].0@ != self.entries@[k].0@);
                        }
                    }
                }
                Some(&self.entries[i].1)
            },
            None => None,
        }
    }

    /// The string held by the member `key`, if it is a JSON string.
    pub fn str_arg(&self, key: &str) -> (r: Option<&str>)
        ensures
            match r {
                Some(s) => str_of(self.lookup(key@)) == Some(s@),
                None => str_of(self.lookup(key@)) is None,
            },
    {
        match self.get(key) {
            Some(ArgValue::Str(s)) => Some(s.as_str()),
            _ => None,
        }
    }

    /// The string held by the member `key`, or `default` where the member
    /// is missing or not a string.
    pub fn text_or<'a>(&'a self, key: &str, default: &'a str) -> (r: &'a str)
        ensures
            r@ == text_or(self.view(), key@, default@),
    {
        match self.str_arg(key) {
            Some(s) => s,
            None => default,
        }
    }

    /// The number held by the member `key`, if it is a whole number in the
    /// range of `u64`.
    pub fn u64_arg(&self, key: &str) -> (r: Option<u64>)
        ensures
            r == u64_of(self.lookup(key@)),
    {
        match self.get(key) {
            Some(ArgValue::UInt(n)) => Some(*n),
            _ => None,
        }
    }

    /// Sets the member `key` to `value`, replacing an earlier value of it.
    pub fn insert(&mut self, key: String, value: ArgValue)
        ensures
            final(self).view() == old(self).view().insert(key@, value@),
    {
        proof {
            use_type_invariant(&*self);
        }
        let ghost old_self = *self;
        let ghost k0 = key@;
        let ghost v0 = value@;
        let found = self.find(key.as_str());
        let mut entries: Vec<(String, ArgValue)> = Vec::new();
        std::mem::swap(&mut entries, &mut self.entries);
        match found {
            Some(i) => {
                entries.set(i, (key, value));
                let ghost ne = entries@;
                proof {
                    let olde = old_self.entries@;
                    assert forall|a: int, b: int|
                        0 <= a < b < ne.len() implies (#[trigger] ne[a]).0@
                        != (#[trigger] ne[b]).0@ by {
                        assert(olde[a].0@ != olde[b].0@);
                    }
                }
                self.entries = entries;
                proof {
                    let olde = old_self.entries@;
                    self.lemma_view_at(i as int);
                    assert forall|k: Seq<char>| k != k0 && #[trigger] old_self.view().contains_key(k)
                        implies self.view().contains_key(k) && self.view()[k] == old_self.view()[k] by {
                        let j = old_self.index_of(k);
                        assert(self.entries@[j].0@ == k);
                        self.lemma_view_at(j);
                        old_self.lemma_view_at(j);
                    }
                    assert forall|k: Seq<char>| k != k0 && #[trigger] self.view().contains_key(k)
                        implies old_self.view().contains_key(k) by {
                        let j = self.index_of(k);
                        assert(olde[j].0@ == k);
                    }
                    assert(self.view() =~= old_self.view().insert(k0, v0));
                }
            },
            None => {
                entries.push((key, value));
                let ghost ne = entries@;
                proof {
                    let olde = old_self.entries@;
                    let n = olde.len() as int;
                    assert forall|a: int, b: int|
                        0 <= a < b < ne.len() implies (#[trigger] ne[a]).0@
                        != (#[trigger] ne[b]).0@ by {
                        if b < n {
                            assert(olde[a].0@ != olde[b].0@);
                        }
                    }
                }
                self.entries = entries;
                proof {
                    let olde = old_self.entries@;
                    let n = olde.len() as int;
                    self.lemma_view_at(n);
                    assert forall|k: Seq<char>| k != k0 && #[trigger] old_self.view().contains_key(k)
                        implies self.view().contains_key(k) && self.view()[k] == old_self.view()[k] by {
                        let j = old_self.index_of(k);
                        assert(self.entries@[j].0@ == k);
                        self.lemma_view_at(j);
                        old_self.lemma_view_at(j);
                    }
                    assert forall|k: Seq<char>| k != k0 && #[trigger] self.view().contains_key(k)
                        implies old_self.view().contains_key(k) by {
                        let j = self.index_of(k);
                        assert(j != n);
                        assert(olde[j].0@ == k);
                    }
                    assert(self.view() =~= old_self.view().insert(k0, v0));
                }
            },
        }
    }

    proof fn lemma_view_at(self, i: int)
        requires
            0 <= i < self.entries@.len(),
            forall|a: int, b: int|
                0 <= a < b < self.entries@.len() ==> (#[trigger] self.entries@[a]).0@
                    != (#[trigger] self.entries@[b]).0@,
        ensures
            self.view().contains_key(self.entries@[i].0@),
            self.view()[self.entries@[i].0@] == self.entries@[i].1@,
    {
        let k = self.entries@[i].0@;
        assert(self.view().contains_key(k));
        let j = self.index_of(k);
        if j < i {
            assert(self.entries@[j].0@ != self.entries@[i].0@);
        } else if i < j {
            assert(self.entries@[i].0@ != self.entries@[j].0@);
        }
    }
}

} // verus!
