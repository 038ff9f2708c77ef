//! The route table: exact request paths mapped to handlers.

use vstd::prelude::*;

verus! {

/// One registered path with the handler that answers it.
struct Route<H> {
    path: String,
    handler: H,
}

/// A table from exact request paths to handlers.
///
/// No path occurs twice: registering a path that is already present replaces
/// its handler. A lookup matches the whole path, character for character.
pub struct RouteTable<H> {
    entries: Vec<Route<H>>,
}

/// The paths of `entries`, in order.
spec fn paths_of<H>(entries: Seq<Route<H>>) -> Seq<Seq<char>> {
    entries.map_values(|r: Route<H>| r.path@)
}

/// The map that `entries` stands for: each path with the handler beside it.
spec fn table_of<H>(entries: Seq<Route<H>>) -> Map<Seq<char>, H> {
    Map::new(
        |p: Seq<char>| paths_of(entries).contains(p),
        |p: Seq<char>| entries[paths_of(entries).index_of(p)].handler,
    )
}

/// With distinct paths, the table holds exactly the entries.
proof fn lemma_table_of<H>(entries: Seq<Route<H>>)
    requires
        paths_of(entries).no_duplicates(),
    ensures
        table_of(entries).dom().finite(),
        table_of(entries).len() == entries.len(),
        forall|p: Seq<char>| table_of(entries).contains_key(p) <==> paths_of(entries).contains(p),
        forall|i: int|
            0 <= i < entries.len() ==> table_of(entries).contains_key(#[trigger] entries[i].path@)
                && table_of(entries)[entries[i].path@] == entries[i].handler,
{
    let paths = paths_of(entries);
    assert(table_of(entries).dom() =~= paths.to_set());
    paths.unique_seq_to_set();
    vstd::seq_lib::seq_to_set_is_finite(paths);
    assert forall|i: int| 0 <= i < entries.len() implies table_of(entries).contains_key(
        #[trigger] entries[i].path@,
    ) && table_of(entries)[entries[i].path@] == entries[i].handler by {
        let p = entries[i].path@;
        assert(paths[i] == p);
        let j = paths.index_of(p);
        assert(paths[j] == p);
    }
}

/// Replacing the handler at a path's own position is an insertion at that path.
proof fn lemma_replace<H>(entries: Seq<Route<H>>, i: int, route: Route<H>)
    requires
        paths_of(entries).no_duplicates(),
        0 <= i < entries.len(),
        entries[i].path@ == route.path@,
    ensures
        paths_of(entries.update(i, route)) == paths_of(entries),
        table_of(entries.update(i, route)) == table_of(entries).insert(route.path@, route.handler),
{
    let after = entries.update(i, route);
    assert(paths_of(after) =~= paths_of(entries));
    lemma_table_of(entries);
    lemma_table_of(after);
    let wanted = table_of(entries).insert(route.path@, route.handler);
    assert(paths_of(entries)[i] == route.path@);
    assert forall|p: Seq<char>| table_of(after).contains_key(p) implies table_of(after)[p]
        == wanted[p] by {
        let j = paths_of(after).index_of(p);
        assert(paths_of(after)[j] == p);
        assert(entries[j].path@ == p);
    }
    assert(table_of(after) =~= wanted);
}

/// Appending a path that is not yet present is an insertion at that path.
proof fn lemma_append<H>(entries: Seq<Route<H>>, route: Route<H>)
    requires
        paths_of(entries).no_duplicates(),
        !paths_of(entries).contains(route.path@),
    ensures
        paths_of(entries.push(route)).no_duplicates(),
        table_of(entries.push(route)) == table_of(entries).insert(route.path@, route.handler),
{
    let after = entries.push(route);
    assert(paths_of(after) =~= paths_of(entries).push(route.path@));
    assert(paths_of(after).no_duplicates());
    lemma_table_of(entries);
    lemma_table_of(after);
    let wanted = table_of(entries).insert(route.path@, route.handler);
    assert forall|p: Seq<char>| table_of(after).contains_key(p) <==> wanted.contains_key(p) by {
        if paths_of(after).contains(p) {
            let j = paths_of(after).index_of(p);
            assert(paths_of(after)[j] == p);
            if j < entries.len() {
                assert(paths_of(entries)[j] == p);
            }
        }
        if paths_of(entries).contains(p) {
            let j = paths_of(entries).index_of(p);
            assert(paths_of(after)[j] == p);
        }
        if p == route.path@ {
            assert(paths_of(after)[entries.len() as int] == p);
        }
    }
    assert forall|p: Seq<char>| table_of(after).contains_key(p) implies table_of(after)[p]
        == wanted[p] by {
        let j = paths_of(after).index_of(p);
        assert(paths_of(after)[j] == p);
        assert(after[j].path@ == p);
        if j < entries.len() {
            assert(entries[j].path@ == p);
        }
    }
    assert(table_of(after) =~= wanted);
}

impl<H> RouteTable<H> {
    #[verifier::type_invariant]
    spec fn distinct_paths(self) -> bool {
        paths_of(self.entries@).no_duplicates()
    }
}

impl<H> View for RouteTable<H> {
    type V = Map<Seq<char>, H>;

    closed spec fn view(&self) -> Map<Seq<char>, H> {
        table_of(self.entries@)
    }
}

impl<H> RouteTable<H> {
    /// A table with no routes.
    pub fn new() -> (table: Self)
        ensures
            table@ == Map::<Seq<char>, H>::empty(),
    {
        let table = RouteTable { entries: Vec::new() };
        proof {
            assert(paths_of(table.entries@) =~= Seq::<Seq<char>>::empty());
            assert(table@ =~= Map::<Seq<char>, H>::empty());
        }
        table
    }

    /// The number of registered paths.
    pub fn len(&self) -> (n: usize)
        ensures
            self@.dom().finite(),
            n == self@.len(),
    {
        proof {
            use_type_invariant(self);
            lemma_table_of(self.entries@);
        }
        self.entries.len()
    }

    /// Where `path` stands among the entries, if it is registered.
    fn position(&self, path: &str) -> (found: Option<usize>)
        ensures
            match found {
                Some(i) => i < self.entries@.len() && self.entries@[i as int].path@ == path@,
                None => !paths_of(self.entries@).contains(path@),
            },
    {
        let key = path.to_owned();
        let mut i: usize = 0;
        while i < self.entries.len()
            invariant
                i <= self.entries@.len(),
                key@ == path@,
                forall|j: int| 0 <= j < i ==> paths_of(self.entries@)[j] != path@,
            decreases self.entries@.len() - i,
        {
            if self.entries[i].path == key {
                return Some(i);
            }
            assert(paths_of(self.entries@)[i as int] == self.entries@[i as int].path@);
            i = i + 1;
        }
        None
    }

    /// Registers `handler` for `path`, replacing the handler that `path` had.
    pub fn register(&mut self, path: &str, handler: H)
        ensures
            final(self)@ == old(self)@.insert(path@, handler),
    {
        proof {
            use_type_invariant(&*self);
        }
        let route = Route { path: path.to_owned(), handler };
        let found = self.position(path);
        let mut entries: Vec<Route<H>> = Vec::new();
        std::mem::swap(&mut self.entries, &mut entries);
        match found {
            Some(i) => {
                proof {
                    lemma_replace(entries@, i as int, route);
                }
                entries.set(i, route);
            },
            None => {
                proof {
                    lemma_append(entries@, route);
                }
                entries.push(route);
            },
        }
        self.entries = entries;
    }

    /// The handler registered for exactly `path`, if there is one.
    pub fn lookup(&self, path: &str) -> (found: Option<&H>)
        ensures
            found == if self@.contains_key(path@) {
                Some(&self@[path@])
            } else {
                None
            },
    {
        proof {
            use_type_invariant(self);
            lemma_table_of(self.entries@);
        }
        match self.position(path) {
            Some(i) => Some(&self.entries[i].handler),
            None => None,
        }
    }
}

impl<H: Copy> Clone for RouteTable<H> {
    /// A table with the same routes.
    fn clone(&self) -> (table: Self)
        ensures
            table@ == self@,
    {
        proof {
            use_type_invariant(self);
        }
        let mut entries: Vec<Route<H>> = Vec::new();
        let mut i: usize = 0;
        while i < self.entries.len()
            invariant
                i <= self.entries@.len(),
                entries@ == self.entries@.subrange(0, i as int),
            decreases self.entries@.len() - i,
        {
            let route = Route { path: self.entries[i].path.clone(), handler: self.entries[i].handler };
            entries.push(route);
            assert(entries@ =~= self.entries@.subrange(0, i + 1));
            i = i + 1;
        }
        assert(entries@ =~= self.entries@);
        RouteTable { entries }
    }
}

} // verus!
