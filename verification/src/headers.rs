//! The header mapping of a request: names are unique up to ASCII case, and
//! the last value written under a name is the one that stays.

use vstd::prelude::*;
use crate::text::{eq_ignore_ascii_case, fold_case};

verus! {

/// Header entries as they are listed: name and value, in order of first writing.
pub type Listing = Seq<(Seq<char>, Seq<char>)>;

/// Two header names are the same name when they differ in ASCII case at most.
pub open spec fn same_name(a: Seq<char>, b: Seq<char>) -> bool {
    fold_case(a) == fold_case(b)
}

/// `at` is the first entry of `list` written under `name`.
pub open spec fn first_under(list: Listing, name: Seq<char>, at: int) -> bool {
    &&& 0 <= at < list.len()
    &&& same_name(list[at].0, name)
    &&& forall|j: int| 0 <= j < at ==> !same_name(#[trigger] list[j].0, name)
}

/// Some entry of `list` is written under `name`.
pub open spec fn listed(list: Listing, name: Seq<char>) -> bool {
    exists|at: int| first_under(list, name, at)
}

/// No two entries of `list` are written under the same name.
pub open spec fn distinct_names(list: Listing) -> bool {
    forall|i: int, j: int|
        0 <= i < j < list.len() ==> !same_name(#[trigger] list[i].0, #[trigger] list[j].0)
}

/// `list` after `value` is written under `name`: the entry under that name is
/// replaced where it stands, and a new name goes to the end.
pub open spec fn put(list: Listing, name: Seq<char>, value: Seq<char>) -> Listing {
    if listed(list, name) {
        list.update(choose|at: int| first_under(list, name, at), (name, value))
    } else {
        list.push((name, value))
    }
}

/// The value that `list` holds under `name`.
pub open spec fn lookup(list: Listing, name: Seq<char>) -> Option<Seq<char>> {
    if listed(list, name) {
        Some(list[choose|at: int| first_under(list, name, at)].1)
    } else {
        None
    }
}

/// The first entry under a name is the only first entry under it.
pub proof fn lemma_first_under_unique(list: Listing, name: Seq<char>, a: int, b: int)
    requires
        first_under(list, name, a),
        first_under(list, name, b),
    ensures
        a == b,
{
    if a < b {
        assert(!same_name(list[a].0, name));
    }
    if b < a {
        assert(!same_name(list[b].0, name));
    }
}

/// Writing keeps names distinct.
pub proof fn lemma_put_keeps_distinct(list: Listing, name: Seq<char>, value: Seq<char>)
    requires
        distinct_names(list),
    ensures
        distinct_names(put(list, name, value)),
{
    let after = put(list, name, value);
    if listed(list, name) {
        let at = choose|at: int| first_under(list, name, at);
        assert forall|i: int, j: int| 0 <= i < j < after.len() implies !same_name(
            #[trigger] after[i].0,
            #[trigger] after[j].0,
        ) by {
            assert(!same_name(list[i].0, list[j].0));
        }
    } else {
        assert forall|i: int, j: int| 0 <= i < j < after.len() implies !same_name(
            #[trigger] after[i].0,
            #[trigger] after[j].0,
        ) by {
            if j == list.len() {
                if same_name(list[i].0, name) {
                    lemma_some_first_under(list, name, i);
                }
            } else {
                assert(!same_name(list[i].0, list[j].0));
            }
        }
    }
}

/// Where some entry stands under a name, a first one does.
pub proof fn lemma_some_first_under(list: Listing, name: Seq<char>, at: int)
    requires
        0 <= at < list.len(),
        same_name(list[at].0, name),
    ensures
        listed(list, name),
    decreases at,
{
    if exists|j: int| 0 <= j < at && same_name(#[trigger] list[j].0, name) {
        let j = choose|j: int| 0 <= j < at && same_name(#[trigger] list[j].0, name);
        lemma_some_first_under(list, name, j);
    } else {
        assert(first_under(list, name, at));
    }
}

/// Last write wins: after a write the name holds the value written, whatever
/// case the name is asked in, and every other name holds what it held.
pub proof fn lemma_put_then_lookup(
    list: Listing,
    name: Seq<char>,
    value: Seq<char>,
    asked: Seq<char>,
)
    requires
        distinct_names(list),
    ensures
        same_name(asked, name) ==> lookup(put(list, name, value), asked) == Some(value),
        !same_name(asked, name) ==> lookup(put(list, name, value), asked) == lookup(list, asked),
{
    let after = put(list, name, value);
    lemma_put_keeps_distinct(list, name, value);
    let slot = if listed(list, name) {
        choose|at: int| first_under(list, name, at)
    } else {
        list.len() as int
    };
    assert(after[slot] == (name, value));
    if same_name(asked, name) {
        lemma_some_first_under(after, asked, slot);
        let found = choose|at: int| first_under(after, asked, at);
        if found != slot {
            if found < slot {
                assert(!same_name(after[found].0, after[slot].0));
            } else {
                assert(!same_name(after[slot].0, after[found].0));
            }
        }
    } else {
        if listed(list, asked) {
            let at = choose|at: int| first_under(list, asked, at);
            assert(at != slot);
            assert(after[at] == list[at]);
            assert forall|j: int| 0 <= j < at implies !same_name(#[trigger] after[j].0, asked) by {
                if j != slot {
                    assert(after[j] == list[j]);
                    assert(!same_name(list[j].0, asked));
                }
            }
            assert(first_under(after, asked, at));
            let found = choose|k: int| first_under(after, asked, k);
            lemma_first_under_unique(after, asked, at, found);
        } else {
            if listed(after, asked) {
                let found = choose|k: int| first_under(after, asked, k);
                assert(found != slot);
                assert(after[found] == list[found]);
                lemma_some_first_under(list, asked, found);
            }
        }
    }
}

/// The header mapping of a request.
#[derive(Debug)]
pub struct Headers {
    entries: Vec<(String, String)>,
}

impl View for Headers {
    type V = Listing;

    closed spec fn view(&self) -> Listing {
        self.entries.deep_view()
    }
}

impl Headers {
    #[verifier::type_invariant]
    spec fn names_are_distinct(&self) -> bool {
        distinct_names(self.entries.deep_view())
    }

    /// A mapping without entries.
    pub fn new() -> (headers: Headers)
        ensures
            headers@ == Seq::<(Seq<char>, Seq<char>)>::empty(),
            distinct_names(headers@),
    {
        let entries: Vec<(String, String)> = Vec::new();
        assert(entries.deep_view() =~= Seq::<(Seq<char>, Seq<char>)>::empty());
        Headers { entries }
    }

    /// The number of entries; no two of them stand under the same name.
    pub fn len(&self) -> (n: usize)
        ensures
            n == self@.len(),
            distinct_names(self@),
    {
        proof {
            use_type_invariant(self);
        }
        self.entries.len()
    }

    /// The name of entry `at`, as it was written.
    pub fn name_at(&self, at: usize) -> (name: &String)
        requires
            at < self@.len(),
        ensures
            name@ == self@[at as int].0,
    {
        &self.entries[at].0
    }

    /// The value of entry `at`.
    pub fn value_at(&self, at: usize) -> (value: &String)
        requires
            at < self@.len(),
        ensures
            value@ == self@[at as int].1,
    {
        &self.entries[at].1
    }

    fn position(&self, name: &str) -> (found: Option<usize>)
        ensures
            found is Some == listed(self@, name@),
            found matches Some(at) ==> first_under(self@, name@, at as int),
    {
        let mut at: usize = 0;
        while at < self.entries.len()
            invariant
                at <= self.entries.len(),
                forall|j: int| 0 <= j < at ==> !same_name(#[trigger] self@[j].0, name@),
            decreases self.entries.len() - at,
        {
            if eq_ignore_ascii_case(self.entries[at].0.as_str(), name) {
                assert(first_under(self@, name@, at as int));
                return Some(at);
            }
            at += 1;
        }
        None
    }

    /// The value held under `name`, whatever the case it is asked in.
    pub fn get(&self, name: &str) -> (value: Option<&String>)
        ensures
            value is Some == lookup(self@, name@) is Some,
            value matches Some(v) ==> lookup(self@, name@) == Some(v@),
    {
        match self.position(name) {
            Some(at) => {
                proof {
                    let chosen = choose|k: int| first_under(self@, name@, k);
                    lemma_first_under_unique(self@, name@, at as int, chosen);
                }
                Some(&self.entries[at].1)
            },
            None => None,
        }
    }

    /// Writes `value` under `name`; an earlier value under that name is lost.
    pub fn set(&mut self, name: String, value: String)
        ensures
            final(self)@ == put(old(self)@, name@, value@),
            distinct_names(final(self)@),
    {
        proof {
            use_type_invariant(&*self);
            lemma_put_keeps_distinct(self@, name@, value@);
        }
        let found = self.position(name.as_str());
        let ghost before = self@;
        let mut entries: Vec<(String, String)> = Vec::new();
        assert(entries.deep_view() =~= Seq::<(Seq<char>, Seq<char>)>::empty());
        core::mem::swap(&mut self.entries, &mut entries);
        match found {
            Some(at) => {
                proof {
                    let chosen = choose|k: int| first_under(before, name@, k);
                    lemma_first_under_unique(before, name@, at as int, chosen);
                }
                entries.set(at, (name, value));
            },
            None => {
                entries.push((name, value));
            },
        }
        assert(entries.deep_view() =~= put(before, name@, value@));
        core::mem::swap(&mut self.entries, &mut entries);
    }
}

} // verus!
