//! The set of file extensions that mark a request path as a file.

use vstd::prelude::*;

verus! {

/// The texts of `items`, in order.
spec fn texts_of(items: Seq<String>) -> Seq<Seq<char>> {
    items.map_values(|s: String| s@)
}

/// A set of extensions, each written without its leading dot.
///
/// Membership is by exact text: no case folding and no trimming.
pub struct ExtensionSet {
    items: Vec<String>,
}

impl ExtensionSet {
    #[verifier::type_invariant]
    spec fn distinct_items(self) -> bool {
        texts_of(self.items@).no_duplicates()
    }
}

impl View for ExtensionSet {
    type V = Set<Seq<char>>;

    closed spec fn view(&self) -> Set<Seq<char>> {
        texts_of(self.items@).to_set()
    }
}

/// The set of the texts in `list`.
pub open spec fn listed(list: Seq<&str>) -> Set<Seq<char>> {
    Set::new(|e: Seq<char>| exists|i: int| 0 <= i < list.len() && (#[trigger] list[i])@ == e)
}

/// The extensions that a new configuration knows.
pub open spec fn default_extensions() -> Set<Seq<char>> {
    set![
        "html"@, "js"@, "css"@, "ico"@, "jpg"@, "png"@, "woff2"@, "ttf"@, "txt"@, "xml"@, "rss"@,
        "svg"@, "gif"@, "map"@,
    ]
}

impl ExtensionSet {
    /// The empty set.
    pub fn new() -> (set: Self)
        ensures
            set@ == Set::<Seq<char>>::empty(),
    {
        let set = ExtensionSet { items: Vec::new() };
        proof {
            assert(texts_of(set.items@) =~= Seq::<Seq<char>>::empty());
            assert(set@ =~= Set::<Seq<char>>::empty());
        }
        set
    }

    /// The set of the default extensions.
    pub fn standard() -> (set: Self)
        ensures
            set@ == default_extensions(),
    {
        let mut set = ExtensionSet::new();
        set.insert("html");
        set.insert("js");
        set.insert("css");
        set.insert("ico");
        set.insert("jpg");
        set.insert("png");
        set.insert("woff2");
        set.insert("ttf");
        set.insert("txt");
        set.insert("xml");
        set.insert("rss");
        set.insert("svg");
        set.insert("gif");
        set.insert("map");
        assert(set@ =~= default_extensions());
        set
    }

    /// The set of the texts in `list`.
    pub fn from_list(list: &[&str]) -> (set: Self)
        ensures
            set@ == listed(list@),
    {
        let mut set = ExtensionSet::new();
        set.extend(list);
        assert(set@ =~= listed(list@));
        set
    }

    /// The number of extensions in the set.
    pub fn len(&self) -> (n: usize)
        ensures
            self@.finite(),
            n == self@.len(),
    {
        proof {
            use_type_invariant(self);
            texts_of(self.items@).unique_seq_to_set();
            vstd::seq_lib::seq_to_set_is_finite(texts_of(self.items@));
        }
        self.items.len()
    }

    /// Where `ext` stands among the items, if it is in the set.
    fn position(&self, ext: &str) -> (found: Option<usize>)
        ensures
            match found {
                Some(i) => i < self.items@.len() && self.items@[i as int]@ == ext@,
                None => !texts_of(self.items@).contains(ext@),
            },
    {
        let key = ext.to_owned();
        let mut i: usize = 0;
        while i < self.items.len()
            invariant
                i <= self.items@.len(),
                key@ == ext@,
                forall|j: int| 0 <= j < i ==> texts_of(self.items@)[j] != ext@,
            decreases self.items@.len() - i,
        {
            if self.items[i] == key {
                return Some(i);
            }
            assert(texts_of(self.items@)[i as int] == self.items@[i as int]@);
            i = i + 1;
        }
        None
    }

    /// Whether `ext` is in the set.
    pub fn contains(&self, ext: &str) -> (found: bool)
        ensures
            found == self@.contains(ext@),
    {
        match self.position(ext) {
            Some(i) => {
                assert(texts_of(self.items@)[i as int] == ext@);
                true
            },
            None => false,
        }
    }

    /// Adds `ext` to the set.
    pub fn insert(&mut self, ext: &str)
        ensures
            final(self)@ == old(self)@.insert(ext@),
    {
        proof {
            use_type_invariant(&*self);
        }
        let ghost before = texts_of(self.items@);
        match self.position(ext) {
            Some(i) => {
                assert(before[i as int] == ext@);
                assert(self@ =~= self@.insert(ext@));
            },
            None => {
                let mut items: Vec<String> = Vec::new();
                std::mem::swap(&mut self.items, &mut items);
                items.push(ext.to_owned());
                proof {
                    assert(texts_of(items@) =~= before.push(ext@));
                    before.lemma_push_to_set_commute(ext@);
                }
                self.items = items;
            },
        }
    }

    /// Takes `ext` out of the set.
    pub fn remove(&mut self, ext: &str)
        ensures
            final(self)@ == old(self)@.remove(ext@),
    {
        proof {
            use_type_invariant(&*self);
        }
        let ghost before = texts_of(self.items@);
        match self.position(ext) {
            Some(i) => {
                let mut items: Vec<String> = Vec::new();
                std::mem::swap(&mut self.items, &mut items);
                items.remove(i);
                proof {
                    let after = texts_of(items@);
                    assert(after =~= before.remove(i as int));
                    assert(before[i as int] == ext@);
                    assert forall|e: Seq<char>| after.contains(e) <==> before.contains(e) && e
                        != ext@ by {
                        if after.contains(e) {
                            let j = after.index_of(e);
                            assert(after[j] == e);
                            if j < i {
                                assert(before[j] == e);
                            } else {
                                assert(before[j + 1] == e);
                            }
                        }
                        if before.contains(e) && e != ext@ {
                            let j = before.index_of(e);
                            assert(before[j] == e);
                            if j < i {
                                assert(after[j] == e);
                            } else {
                                assert(after[j - 1] == e);
                            }
                        }
                    }
                    assert(after.to_set() =~= before.to_set().remove(ext@));
                }
                self.items = items;
            },
            None => {
                assert(self@ =~= self@.remove(ext@));
            },
        }
    }

    /// Adds every text of `list` to the set.
    pub fn extend(&mut self, list: &[&str])
        ensures
            final(self)@ == old(self)@.union(listed(list@)),
    {
        let mut i: usize = 0;
        assert(self@ =~= old(self)@.union(listed(list@.subrange(0, 0))));
        while i < list.len()
            invariant
                i <= list@.len(),
                self@ == old(self)@.union(listed(list@.subrange(0, i as int))),
            decreases list@.len() - i,
        {
            let ghost seen = list@.subrange(0, i as int);
            let ghost next = list@.subrange(0, i + 1);
            self.insert(list[i]);
            proof {
                assert forall|e: Seq<char>| listed(next).contains(e) <==> listed(seen).contains(e)
                    || e == list@[i as int]@ by {
                    if listed(next).contains(e) {
                        let j = choose|j: int| 0 <= j < next.len() && (#[trigger] next[j])@ == e;
                        if j < i {
                            assert(seen[j]@ == e);
                        }
                    }
                    if listed(seen).contains(e) {
                        let j = choose|j: int| 0 <= j < seen.len() && (#[trigger] seen[j])@ == e;
                        assert(next[j]@ == e);
                    }
                    if e == list@[i as int]@ {
                        assert(next[i as int]@ == e);
                    }
                }
                assert(self@ =~= old(self)@.union(listed(next)));
            }
            i = i + 1;
        }
        assert(list@.subrange(0, i as int) =~= list@);
    }

    /// Takes every text of `list` out of the set.
    pub fn remove_all(&mut self, list: &[&str])
        ensures
            final(self)@ == old(self)@.difference(listed(list@)),
    {
        let mut i: usize = 0;
        assert(self@ =~= old(self)@.difference(listed(list@.subrange(0, 0))));
        while i < list.len()
            invariant
                i <= list@.len(),
                self@ == old(self)@.difference(listed(list@.subrange(0, i as int))),
            decreases list@.len() - i,
        {
            let ghost seen = list@.subrange(0, i as int);
            let ghost next = list@.subrange(0, i + 1);
            self.remove(list[i]);
            proof {
                assert forall|e: Seq<char>| listed(next).contains(e) <==> listed(seen).contains(e)
                    || e == list@[i as int]@ by {
                    if listed(next).contains(e) {
                        let j = choose|j: int| 0 <= j < next.len() && (#[trigger] next[j])@ == e;
                        if j < i {
                            assert(seen[j]@ == e);
                        }
                    }
                    if listed(seen).contains(e) {
                        let j = choose|j: int| 0 <= j < seen.len() && (#[trigger] seen[j])@ == e;
                        assert(next[j]@ == e);
                    }
                    if e == list@[i as int]@ {
                        assert(next[i as int]@ == e);
                    }
                }
                assert(self@ =~= old(self)@.difference(listed(next)));
            }
            i = i + 1;
        }
        assert(list@.subrange(0, i as int) =~= list@);
    }
}

impl Clone for ExtensionSet {
    /// A set with the same extensions.
    fn clone(&self) -> (set: Self)
        ensures
            set@ == self@,
    {
        proof {
            use_type_invariant(self);
        }
        let mut items: Vec<String> = Vec::new();
        let mut i: usize = 0;
        while i < self.items.len()
            invariant
                i <= self.items@.len(),
                items@ == self.items@.subrange(0, i as int),
            decreases self.items@.len() - i,
        {
            items.push(self.items[i].clone());
            assert(items@ =~= self.items@.subrange(0, i + 1));
            i = i + 1;
        }
        assert(items@ =~= self.items@);
        ExtensionSet { items }
    }
}

} // verus!
