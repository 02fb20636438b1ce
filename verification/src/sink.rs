//! A model of the persistence sink: the output tree as a map from resolved
//! storage location to file content. Writes are idempotent and last-write
//! wins — the same location is overwritten, never duplicated. The unverified
//! shell mirrors each entry of this model to disk.

use vstd::prelude::*;
use vstd::set::axiom_set_insert_len;
use crate::strutil::str_eq;

verus! {

/// The storage key a normalized file resolves to:
/// `basePath/<chain>/<addressScopedPath>`.
pub fn output_location(base: &str, chain: &str, rel_path: &str) -> (r: String)
    ensures
        r@ == base@ + "/"@ + chain@ + "/"@ + rel_path@,
{
    let mut out = base.to_owned();
    out.append("/");
    out.append(chain);
    out.append("/");
    out.append(rel_path);
    out
}

/// The tree a list of (location, content) entries denotes; a later entry for
/// the same location wins.
pub open spec fn entries_map(s: Seq<(String, String)>) -> Map<Seq<char>, Seq<char>>
    decreases s.len(),
{
    if s.len() == 0 {
        Map::empty()
    } else {
        entries_map(s.drop_last()).insert(s.last().0@, s.last().1@)
    }
}

/// No location occurs twice.
pub open spec fn unique_locations(s: Seq<(String, String)>) -> bool {
    forall|j: int, k: int| 0 <= j < k < s.len() ==> s[j].0@ != s[k].0@
}

proof fn lemma_entries_map_contains(s: Seq<(String, String)>, loc: Seq<char>)
    ensures
        entries_map(s).contains_key(loc) <==> exists|i: int| 0 <= i < s.len() && s[i].0@ == loc,
    decreases s.len(),
{
    if s.len() > 0 {
        lemma_entries_map_contains(s.drop_last(), loc);
        if entries_map(s).contains_key(loc) {
            if s.last().0@ == loc {
                assert(s[s.len() - 1].0@ == loc);
            } else {
                let i = choose|i: int| 0 <= i < s.drop_last().len() && s.drop_last()[i].0@ == loc;
                assert(s[i].0@ == loc);
            }
        }
        if exists|i: int| 0 <= i < s.len() && s[i].0@ == loc {
            let i = choose|i: int| 0 <= i < s.len() && s[i].0@ == loc;
            if i < s.len() - 1 {
                assert(s.drop_last()[i].0@ == loc);
            }
        }
    }
}

proof fn lemma_entries_map_at(s: Seq<(String, String)>, i: int)
    requires
        unique_locations(s),
        0 <= i < s.len(),
    ensures
        entries_map(s).contains_key(s[i].0@),
        entries_map(s)[s[i].0@] == s[i].1@,
    decreases s.len(),
{
    if i == s.len() - 1 {
    } else {
        lemma_entries_map_at(s.drop_last(), i);
        assert(s.drop_last()[i] == s[i]);
    }
}

proof fn lemma_entries_map_len(s: Seq<(String, String)>)
    requires
        unique_locations(s),
    ensures
        entries_map(s).dom().finite(),
        entries_map(s).dom().len() == s.len(),
    decreases s.len(),
{
    if s.len() > 0 {
        lemma_entries_map_len(s.drop_last());
        lemma_entries_map_contains(s.drop_last(), s.last().0@);
        assert(!entries_map(s.drop_last()).contains_key(s.last().0@));
        axiom_set_insert_len(entries_map(s.drop_last()).dom(), s.last().0@);
        assert(entries_map(s).dom() =~= entries_map(s.drop_last()).dom().insert(s.last().0@));
    }
}

proof fn lemma_entries_map_update(s: Seq<(String, String)>, i: int, p: (String, String))
    requires
        unique_locations(s),
        0 <= i < s.len(),
        p.0@ == s[i].0@,
    ensures
        entries_map(s.update(i, p)) == entries_map(s).insert(p.0@, p.1@),
    decreases s.len(),
{
    if i == s.len() - 1 {
        assert(s.update(i, p).drop_last() =~= s.drop_last());
        assert(s.update(i, p).last() == p);
        assert(entries_map(s.drop_last()).insert(s.last().0@, s.last().1@).insert(p.0@, p.1@)
            =~= entries_map(s.drop_last()).insert(p.0@, p.1@));
    } else {
        lemma_entries_map_update(s.drop_last(), i, p);
        assert(s.update(i, p).drop_last() =~= s.drop_last().update(i, p));
        assert(s.update(i, p).last() == s.last());
        assert(p.0@ != s.last().0@);
        assert(entries_map(s.drop_last()).insert(p.0@, p.1@).insert(s.last().0@, s.last().1@)
            =~= entries_map(s.drop_last()).insert(s.last().0@, s.last().1@).insert(p.0@, p.1@));
    }
}

/// The sink: each distinct location holds exactly one content, the latest
/// written.
pub struct Sink {
    entries: Vec<(String, String)>,
}

impl View for Sink {
    type V = Map<Seq<char>, Seq<char>>;

    closed spec fn view(&self) -> Map<Seq<char>, Seq<char>> {
        entries_map(self.entries@)
    }
}

impl Sink {
    /// Well-formedness: no location is stored twice.
    pub closed spec fn wf(&self) -> bool {
        unique_locations(self.entries@)
    }

    /// An empty output tree.
    pub fn new() -> (r: Sink)
        ensures
            r.wf(),
            r@ == Map::<Seq<char>, Seq<char>>::empty(),
            r@.dom().len() == 0,
    {
        let r = Sink { entries: Vec::new() };
        proof {
            assert(r@.dom() =~= Set::<Seq<char>>::empty());
        }
        r
    }

    /// How many distinct locations have been written.
    pub fn len(&self) -> (r: usize)
        requires
            self.wf(),
        ensures
            r == self@.dom().len(),
    {
        proof {
            lemma_entries_map_len(self.entries@);
        }
        self.entries.len()
    }

    /// The content stored at a location, if any.
    pub fn get<'a>(&'a self, location: &str) -> (r: Option<&'a String>)
        requires
            self.wf(),
        ensures
            match r {
                Some(c) => self@.contains_key(location@) && self@[location@] == c@,
                None => !self@.contains_key(location@),
            },
    {
        let n = self.entries.len();
        let mut i: usize = 0;
        while i < n
            invariant
                i <= n,
                n == self.entries@.len(),
                self.wf(),
                self@ == entries_map(self.entries@),
                forall|k: int| 0 <= k < i ==> self.entries@[k].0@ != location@,
            decreases n - i,
        {
            if str_eq(self.entries[i].0.as_str(), location) {
                proof {
                    lemma_entries_map_at(self.entries@, i as int);
                }
                return Some(&self.entries[i].1);
            }
            i = i + 1;
        }
        proof {
            lemma_entries_map_contains(self.entries@, location@);
        }
        None
    }

    /// Write one (location, content) unit: overwrite the location if it is
    /// already present, append it otherwise.
    pub fn write(&mut self, location: String, content: String)
        requires
            old(self).wf(),
        ensures
            final (self).wf(),
            final (self)@ == old(self)@.insert(location@, content@),
    {
        let n = self.entries.len();
        let mut i: usize = 0;
        while i < n
            invariant
                i <= n,
                n == self.entries@.len(),
                self.wf(),
                self == old(self),
                forall|k: int| 0 <= k < i ==> self.entries@[k].0@ != location@,
            decreases n - i,
        {
            if str_eq(self.entries[i].0.as_str(), location.as_str()) {
                proof {
                    lemma_entries_map_update(
                        self.entries@,
                        i as int,
                        (location, content),
                    );
                }
                self.entries[i] = (location, content);
                proof {
                    assert forall|j: int, k: int|
                        0 <= j < k < self.entries@.len() implies self.entries@[j].0@
                        != self.entries@[k].0@ by {
                        assert(old(self).entries@[j].0@ != old(self).entries@[k].0@);
                    }
                }
                return ;
            }
            i = i + 1;
        }
        self.entries.push((location, content));
        proof {
            assert(self.entries@.drop_last() =~= old(self).entries@);
        }
    }
}

/// Idempotent-write law: writing the same (location, content) unit twice
/// leaves the tree exactly as one write does; the stored content equals the
/// input, and no second entry is created — the set of locations grows by
/// that one location alone.
pub proof fn lemma_write_idempotent(
    tree: Map<Seq<char>, Seq<char>>,
    location: Seq<char>,
    content: Seq<char>,
)
    ensures
        tree.insert(location, content).insert(location, content) == tree.insert(
            location,
            content,
        ),
        tree.insert(location, content)[location] == content,
        tree.insert(location, content).dom() == tree.dom().insert(location),
{
    assert(tree.insert(location, content).insert(location, content) =~= tree.insert(
        location,
        content,
    ));
    assert(tree.insert(location, content).dom() =~= tree.dom().insert(location));
}

} // verus!
