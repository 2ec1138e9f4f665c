use vstd::prelude::*;

use crate::text::{chars_of, same_chars};

verus! {

/// Position of the first entry whose name is `name`, if any.
pub open spec fn index_of(names: Seq<Seq<char>>, name: Seq<char>) -> Option<int>
    decreases names.len(),
{
    if names.len() == 0 {
        None
    } else {
        match index_of(names.drop_last(), name) {
            Some(i) => Some(i),
            None => if names.last() == name {
                Some(names.len() - 1)
            } else {
                None
            },
        }
    }
}

/// The names of the entries of a catalog, in order.
pub open spec fn names_of(entries: Seq<(Seq<char>, Seq<char>)>) -> Seq<Seq<char>> {
    entries.map_values(|e: (Seq<char>, Seq<char>)| e.0)
}

/// Where the track named `name` is stored, by the entries of a catalog.
pub open spec fn path_of(entries: Seq<(Seq<char>, Seq<char>)>, name: Seq<char>) -> Option<
    Seq<char>,
> {
    match index_of(names_of(entries), name) {
        Some(i) => Some(entries[i].1),
        None => None,
    }
}

/// The entries after `path` is stored under `name`: the path of the first entry
/// of that name is replaced, else a new entry is added at the end.
pub open spec fn with_entry(
    entries: Seq<(Seq<char>, Seq<char>)>,
    name: Seq<char>,
    path: Seq<char>,
) -> Seq<(Seq<char>, Seq<char>)> {
    match index_of(names_of(entries), name) {
        Some(i) => entries.update(i, (name, path)),
        None => entries.push((name, path)),
    }
}

/// No two entries have the same name.
pub open spec fn names_distinct(entries: Seq<(Seq<char>, Seq<char>)>) -> bool {
    forall|i: int, j: int| 0 <= i < j < entries.len() ==> entries[i].0 != entries[j].0
}

/// The tracks the bot knows from the start.
pub open spec fn standard_tracks() -> Seq<(Seq<char>, Seq<char>)> {
    seq![
        ("Летова"@, "D:/bot-rs/assets/letov1.mp3"@),
        ("генгаозо"@, "D:/bot-rs/assets/G e n g a o z o -Noize of Nocent-.mp3"@),
        ("че-нить пушистое"@, "D:/bot-rs/assets/fluff.mp3"@),
    ]
}

/// A fixed table from track names to the files that hold them.
pub struct TrackCatalog {
    names: Vec<String>,
    paths: Vec<String>,
}

impl View for TrackCatalog {
    /// The entries, in order: a name and a file path each.
    type V = Seq<(Seq<char>, Seq<char>)>;

    closed spec fn view(&self) -> Seq<(Seq<char>, Seq<char>)> {
        Seq::new(self.names@.len(), |i: int| (self.names@[i]@, self.paths@[i]@))
    }
}

impl TrackCatalog {
    /// The two columns have one row per entry, and no name occurs twice.
    pub closed spec fn wf(&self) -> bool {
        &&& self.names@.len() == self.paths@.len()
        &&& names_distinct(self@)
    }

    /// A catalog with no entries.
    pub fn new() -> (r: TrackCatalog)
        ensures
            r.wf(),
            r@ == Seq::<(Seq<char>, Seq<char>)>::empty(),
    {
        let r = TrackCatalog { names: Vec::new(), paths: Vec::new() };
        assert(r@ =~= Seq::<(Seq<char>, Seq<char>)>::empty());
        r
    }

    /// The catalog of the tracks the bot knows from the start.
    pub fn standard() -> (r: TrackCatalog)
        ensures
            r.wf(),
            r@ == standard_tracks(),
    {
        let mut r = TrackCatalog::new();
        proof {
            reveal_strlit("Летова");
            reveal_strlit("генгаозо");
            reveal_strlit("че-нить пушистое");
            reveal_with_fuel(index_of, 3);
        }
        assert("Летова"@.len() == 6 && "генгаозо"@.len() == 8 && "че-нить пушистое"@.len() == 16);
        r.insert("Летова", "D:/bot-rs/assets/letov1.mp3");
        assert(names_of(r@) =~= seq!["Летова"@]);
        assert(names_of(r@).drop_last() =~= Seq::<Seq<char>>::empty());
        assert(index_of(names_of(r@), "генгаозо"@) == None::<int>);
        r.insert("генгаозо", "D:/bot-rs/assets/G e n g a o z o -Noize of Nocent-.mp3");
        assert(names_of(r@) =~= seq!["Летова"@, "генгаозо"@]);
        assert(names_of(r@).drop_last() =~= seq!["Летова"@]);
        assert(names_of(r@).drop_last().drop_last() =~= Seq::<Seq<char>>::empty());
        assert(index_of(names_of(r@).drop_last(), "че-нить пушистое"@) == None::<int>);
        assert(index_of(names_of(r@), "че-нить пушистое"@) == None::<int>);
        r.insert("че-нить пушистое", "D:/bot-rs/assets/fluff.mp3");
        assert(r@ =~= standard_tracks());
        r
    }

    /// The number of entries.
    pub fn len(&self) -> (r: usize)
        requires
            self.wf(),
        ensures
            r == self@.len(),
    {
        self.names.len()
    }

    /// The position of the entry whose name has the characters `name`, if any.
    pub fn lookup_chars(&self, name: &Vec<char>) -> (r: Option<usize>)
        requires
            self.wf(),
        ensures
            r == match index_of(names_of(self@), name@) {
                Some(i) => Some(i as usize),
                None => None::<usize>,
            },
    {
        let ghost names = names_of(self@);
        assert(names.len() == self.names@.len());
        let mut i: usize = 0;
        while i < self.names.len()
            invariant
                self.wf(),
                names == names_of(self@),
                names.len() == self.names@.len(),
                i <= names.len(),
                index_of(names.subrange(0, i as int), name@) == None::<int>,
            decreases self.names.len() - i,
        {
            assert(names.subrange(0, i + 1).drop_last() =~= names.subrange(0, i as int));
            assert(names[i as int] == self.names@[i as int]@);
            let entry_name = chars_of(self.names[i].as_str());
            if same_chars(&entry_name, name) {
                assert(names.subrange(0, i + 1).last() == names[i as int]);
                proof {
                    lemma_index_of_prefix(names, name@, i as int + 1);
                }
                return Some(i);
            }
            i = i + 1;
        }
        assert(names.subrange(0, i as int) =~= names);
        None
    }

    /// The position of the entry named `name`, if the catalog has one.
    pub fn lookup(&self, name: &str) -> (r: Option<usize>)
        requires
            self.wf(),
        ensures
            r == match index_of(names_of(self@), name@) {
                Some(i) => Some(i as usize),
                None => None::<usize>,
            },
    {
        let chars = chars_of(name);
        self.lookup_chars(&chars)
    }

    /// The file path of entry `i`.
    pub fn path(&self, i: usize) -> (r: &str)
        requires
            self.wf(),
            i < self@.len(),
        ensures
            r@ == self@[i as int].1,
    {
        self.paths[i].as_str()
    }

    /// The name of entry `i`.
    pub fn name(&self, i: usize) -> (r: &str)
        requires
            self.wf(),
            i < self@.len(),
        ensures
            r@ == self@[i as int].0,
    {
        self.names[i].as_str()
    }

    /// Stores `path` under `name`: the path of an entry of that name is replaced,
    /// else a new entry is added at the end.
    pub fn insert(&mut self, name: &str, path: &str)
        requires
            old(self).wf(),
        ensures
            final(self).wf(),
            final(self)@ == with_entry(old(self)@, name@, path@),
    {
        let chars = chars_of(name);
        let n: usize = self.names.len();
        proof {
            lemma_index_of_valid(names_of(self@), name@);
            assert(names_of(self@).len() == n);
        }
        match self.lookup_chars(&chars) {
            Some(i) => {
                assert(names_of(old(self)@)[i as int] == name@);
                self.paths.set(i, path.to_owned());
                assert(self@ =~= old(self)@.update(i as int, (name@, path@)));
            },
            None => {
                self.names.push(name.to_owned());
                self.paths.push(path.to_owned());
                assert(self@ =~= old(self)@.push((name@, path@)));
                assert forall|j: int| 0 <= j < old(self)@.len() implies old(self)@[j].0
                    != name@ by {
                    assert(names_of(old(self)@)[j] == old(self)@[j].0);
                }
            },
        }
    }
}

/// A position that `index_of` gives holds the name, and no earlier one does.
pub proof fn lemma_index_of_valid(names: Seq<Seq<char>>, name: Seq<char>)
    ensures
        match index_of(names, name) {
            Some(i) => 0 <= i < names.len() && names[i] == name && forall|j: int|
                0 <= j < i ==> names[j] != name,
            None => forall|j: int| 0 <= j < names.len() ==> names[j] != name,
        },
    decreases names.len(),
{
    if names.len() > 0 {
        lemma_index_of_valid(names.drop_last(), name);
        assert forall|j: int| 0 <= j < names.len() - 1 implies names.drop_last()[j] == names[j] by {}
    }
}

/// A name just stored resolves to the path stored with it.
pub proof fn stored_name_resolves_to_its_path(
    entries: Seq<(Seq<char>, Seq<char>)>,
    name: Seq<char>,
    path: Seq<char>,
)
    ensures
        path_of(with_entry(entries, name, path), name) == Some(path),
{
    let names = names_of(entries);
    let after = with_entry(entries, name, path);
    lemma_index_of_valid(names, name);
    lemma_index_of_valid(names_of(after), name);
    match index_of(names, name) {
        Some(i) => {
            assert(names_of(after) =~= names.update(i, name));
            assert(names_of(after).subrange(0, i + 1) =~= names.subrange(0, i + 1));
            lemma_index_of_prefix(names, name, i + 1);
            lemma_index_of_prefix(names_of(after), name, i + 1);
        },
        None => {
            assert(names_of(after) =~= names.push(name));
            assert(names_of(after).drop_last() =~= names);
        },
    }
}

/// Where `index_of` finds a match in a prefix, it finds that match in the whole.
proof fn lemma_index_of_prefix(names: Seq<Seq<char>>, name: Seq<char>, n: int)
    requires
        0 <= n <= names.len(),
        index_of(names.subrange(0, n), name) is Some,
    ensures
        index_of(names, name) == index_of(names.subrange(0, n), name),
    decreases names.len() - n,
{
    if n < names.len() {
        assert(names.subrange(0, n + 1).drop_last() =~= names.subrange(0, n));
        lemma_index_of_prefix(names, name, n + 1);
    } else {
        assert(names.subrange(0, n) =~= names);
    }
}

} // verus!
