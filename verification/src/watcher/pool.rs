//! The set of paths to watch.

use vstd::prelude::*;

verus! {

/// What one pattern matched on the file system: `None` where the pattern is
/// no valid glob, else one entry for each match, `None` where the entry
/// could not be read.
pub type Matches = Option<Vec<Option<String>>>;

/// The paths among `entries` that could be read, in their order.
pub open spec fn readable(entries: Seq<Option<Seq<char>>>) -> Seq<Seq<char>>
    decreases entries.len(),
{
    if entries.len() == 0 {
        Seq::empty()
    } else {
        match entries.last() {
            Some(path) => readable(entries.drop_last()).push(path),
            None => readable(entries.drop_last()),
        }
    }
}

/// The paths that the patterns matched, pattern after pattern. A pattern
/// that is no valid glob matched nothing.
pub open spec fn found(files: Seq<Option<Seq<Option<Seq<char>>>>>) -> Seq<Seq<char>>
    decreases files.len(),
{
    if files.len() == 0 {
        Seq::empty()
    } else {
        match files.last() {
            Some(entries) => found(files.drop_last()) + readable(entries),
            None => found(files.drop_last()),
        }
    }
}

/// `paths` without the repetitions: each path where it first occurs.
pub open spec fn distinct(paths: Seq<Seq<char>>) -> Seq<Seq<char>>
    decreases paths.len(),
{
    if paths.len() == 0 {
        Seq::empty()
    } else {
        added(distinct(paths.drop_last()), paths.last())
    }
}

/// `pool` with `path` at its end, unless it holds `path` already.
pub open spec fn added(pool: Seq<Seq<char>>, path: Seq<char>) -> Seq<Seq<char>> {
    if pool.contains(path) {
        pool
    } else {
        pool.push(path)
    }
}

/// `pool` with the paths of `paths` added one after the other.
pub open spec fn added_all(pool: Seq<Seq<char>>, paths: Seq<Seq<char>>) -> Seq<Seq<char>>
    decreases paths.len(),
{
    if paths.len() == 0 {
        pool
    } else {
        added(added_all(pool, paths.drop_last()), paths.last())
    }
}

/// The paths to watch: in the order in which they were found, none twice.
#[derive(Debug, Default)]
pub struct Pool {
    pub(crate) paths: Vec<String>,
}

impl View for Pool {
    type V = Seq<Seq<char>>;

    closed spec fn view(&self) -> Seq<Seq<char>> {
        self.paths.deep_view()
    }
}

impl Clone for Pool {
    fn clone(&self) -> (r: Pool)
        ensures
            r@ == self@,
    {
        let mut paths: Vec<String> = Vec::new();
        let mut i: usize = 0;
        while i < self.paths.len()
            invariant
                i <= self.paths.len(),
                paths.deep_view() =~= self.paths.deep_view().take(i as int),
            decreases self.paths.len() - i,
        {
            let path = self.paths[i].clone();
            let ghost before = paths.deep_view();
            paths.push(path);
            proof {
                assert(path@ == self.paths.deep_view()[i as int]);
                assert(paths.deep_view() =~= before.push(path@));
            }
            i += 1;
        }
        proof {
            use_type_invariant(self);
            assert(paths.deep_view() =~= self.paths.deep_view());
        }
        Pool { paths }
    }
}

impl Pool {
    /// No path occurs twice.
    #[verifier::type_invariant]
    spec fn distinct_paths(&self) -> bool {
        self.paths.deep_view().no_duplicates()
    }

    /// The pool that watches nothing.
    pub fn new() -> (r: Pool)
        ensures
            r@ == Seq::<Seq<char>>::empty(),
    {
        let r = Pool { paths: Vec::new() };
        assert(r@ =~= Seq::<Seq<char>>::empty());
        r
    }

    /// Builds the pool from what each pattern matched. Patterns that are no
    /// valid glob and entries that could not be read are passed over. No
    /// patterns give the empty pool.
    pub fn from(files: &Vec<Matches>) -> (r: Pool)
        ensures
            r@ == distinct(found(files.deep_view())),
            r@.no_duplicates(),
    {
        let mut pool = Pool::new();
        let mut i: usize = 0;
        proof {
            assert(files.deep_view().take(0) =~= Seq::empty());
        }
        while i < files.len()
            invariant
                i <= files.len(),
                pool@ == distinct(found(files.deep_view().take(i as int))),
            decreases files.len() - i,
        {
            let ghost before = found(files.deep_view().take(i as int));
            proof {
                let done = files.deep_view().take(i + 1);
                assert(done.drop_last() =~= files.deep_view().take(i as int));
                assert(done.last() == files[i as int].deep_view());
            }
            if let Some(entries) = &files[i] {
                pool.extend(entries);
                proof {
                    lemma_distinct_concat(before, readable(entries.deep_view()));
                }
            }
            i += 1;
        }
        proof {
            assert(files.deep_view().take(files.len() as int) =~= files.deep_view());
            use_type_invariant(&pool);
        }
        pool
    }

    /// Adds the entries that could be read, in their order, each unless the
    /// pool holds it already.
    pub fn extend(&mut self, entries: &Vec<Option<String>>)
        ensures
            final(self)@ == added_all(old(self)@, readable(entries.deep_view())),
    {
        let mut j: usize = 0;
        proof {
            assert(entries.deep_view().take(0) =~= Seq::empty());
        }
        while j < entries.len()
            invariant
                j <= entries.len(),
                self@ == added_all(old(self)@, readable(entries.deep_view().take(j as int))),
            decreases entries.len() - j,
        {
            proof {
                let done = entries.deep_view().take(j + 1);
                assert(done.drop_last() =~= entries.deep_view().take(j as int));
                assert(done.last() == entries[j as int].deep_view());
            }
            let ghost so_far = readable(entries.deep_view().take(j as int));
            if let Some(path) = &entries[j] {
                self.insert(path.clone());
                assert(readable(entries.deep_view().take(j + 1)) == so_far.push(path@));
                assert(so_far.push(path@).drop_last() =~= so_far);
            } else {
                assert(readable(entries.deep_view().take(j + 1)) == so_far);
            }
            j += 1;
        }
        proof {
            assert(entries.deep_view().take(entries.len() as int) =~= entries.deep_view());
        }
    }

    /// Adds `path` at the end unless the pool holds it already, and says
    /// whether it was added.
    pub fn insert(&mut self, path: String) -> (fresh: bool)
        ensures
            final(self)@ == added(old(self)@, path@),
            fresh == !old(self)@.contains(path@),
    {
        if self.contains(path.as_str()) {
            false
        } else {
            let ghost before = self@;
            proof {
                use_type_invariant(&*self);
                lemma_push_fresh(before, path@);
            }
            let mut paths: Vec<String> = Vec::new();
            proof {
                assert(paths.deep_view() =~= Seq::<Seq<char>>::empty());
            }
            std::mem::swap(&mut self.paths, &mut paths);
            paths.push(path);
            proof {
                assert(paths.deep_view() =~= before.push(path@));
            }
            self.paths = paths;
            true
        }
    }

    /// Whether the pool holds `path`.
    pub fn contains(&self, path: &str) -> (r: bool)
        ensures
            r == self@.contains(path@),
    {
        let mut k: usize = 0;
        while k < self.paths.len()
            invariant
                k <= self.paths.len(),
                forall|m: int| 0 <= m < k ==> self@[m] != path@,
            decreases self.paths.len() - k,
        {
            if crate::text::same(self.paths[k].as_str(), path) {
                assert(self@[k as int] == path@);
                return true;
            }
            k += 1;
        }
        false
    }

    /// How many paths the pool holds.
    pub fn len(&self) -> (n: usize)
        ensures
            n == self@.len(),
    {
        self.paths.len()
    }

    pub fn is_empty(&self) -> (r: bool)
        ensures
            r == (self@.len() == 0),
    {
        self.paths.len() == 0
    }

    /// The paths, in the order in which they were found, none twice.
    pub fn paths(&self) -> (r: &Vec<String>)
        ensures
            r.deep_view() == self@,
            r.deep_view().no_duplicates(),
    {
        proof {
            use_type_invariant(self);
        }
        &self.paths
    }
}

/// A sequence without repetitions stays so when a path that it does not
/// hold is put at its end.
pub proof fn lemma_push_fresh(pool: Seq<Seq<char>>, path: Seq<char>)
    requires
        pool.no_duplicates(),
        !pool.contains(path),
    ensures
        pool.push(path).no_duplicates(),
{
    let longer = pool.push(path);
    assert forall|i: int, j: int| 0 <= i < longer.len() && 0 <= j < longer.len() && i != j implies longer[i]
        != longer[j] by {
        if i < pool.len() && j < pool.len() {
        } else if i < pool.len() {
            assert(pool[i] == longer[i]);
        } else {
            assert(pool[j] == longer[j]);
        }
    }
}

/// Removing the repetitions of two sequences put together is adding the
/// second, path by path, to the first without its repetitions.
pub proof fn lemma_distinct_concat(first: Seq<Seq<char>>, second: Seq<Seq<char>>)
    ensures
        distinct(first + second) == added_all(distinct(first), second),
    decreases second.len(),
{
    if second.len() == 0 {
        assert(first + second =~= first);
    } else {
        lemma_distinct_concat(first, second.drop_last());
        assert((first + second).drop_last() =~= first + second.drop_last());
    }
}

/// A sequence with `x` put at its end holds `x` and what it held before.
pub proof fn lemma_push_contains(pool: Seq<Seq<char>>, x: Seq<char>, p: Seq<char>)
    ensures
        pool.push(x).contains(p) <==> pool.contains(p) || p == x,
{
    let longer = pool.push(x);
    if longer.contains(p) {
        let i = choose|i: int| 0 <= i < longer.len() && longer[i] == p;
        if i < pool.len() {
            assert(pool[i] == p);
        }
    }
    if pool.contains(p) {
        let i = choose|i: int| 0 <= i < pool.len() && pool[i] == p;
        assert(longer[i] == p);
    }
    if p == x {
        assert(longer[pool.len() as int] == p);
    }
}

/// `distinct` keeps every path and brings in none.
pub proof fn lemma_distinct_holds(paths: Seq<Seq<char>>, p: Seq<char>)
    ensures
        distinct(paths).contains(p) <==> paths.contains(p),
    decreases paths.len(),
{
    if paths.len() > 0 {
        let shorter = paths.drop_last();
        let last = paths.last();
        lemma_distinct_holds(shorter, p);
        lemma_push_contains(distinct(shorter), last, p);
        lemma_push_contains(shorter, last, p);
        assert(shorter.push(last) =~= paths);
        if distinct(shorter).contains(last) && p == last {
            lemma_distinct_holds(shorter, last);
        }
    } else {
        assert(!paths.contains(p));
        assert(!distinct(paths).contains(p));
    }
}

/// What `distinct` gives holds no path twice, and holds exactly the paths
/// that it was given.
pub proof fn lemma_distinct(paths: Seq<Seq<char>>)
    ensures
        distinct(paths).no_duplicates(),
        forall|p: Seq<char>| #[trigger] distinct(paths).contains(p) <==> paths.contains(p),
        distinct(paths).len() <= paths.len(),
    decreases paths.len(),
{
    if paths.len() > 0 {
        let shorter = paths.drop_last();
        lemma_distinct(shorter);
        if !distinct(shorter).contains(paths.last()) {
            lemma_push_fresh(distinct(shorter), paths.last());
        }
    }
    assert forall|p: Seq<char>| #[trigger] distinct(paths).contains(p) <==> paths.contains(p) by {
        lemma_distinct_holds(paths, p);
    }
}

/// Removing repetitions a second time changes nothing.
pub proof fn lemma_distinct_twice(paths: Seq<Seq<char>>)
    ensures
        distinct(distinct(paths)) == distinct(paths),
{
    lemma_distinct(paths);
    lemma_distinct_of_distinct(distinct(paths));
}

/// A sequence without repetitions is what `distinct` gives for it.
pub proof fn lemma_distinct_of_distinct(paths: Seq<Seq<char>>)
    requires
        paths.no_duplicates(),
    ensures
        distinct(paths) == paths,
    decreases paths.len(),
{
    if paths.len() > 0 {
        let shorter = paths.drop_last();
        lemma_distinct_of_distinct(shorter);
        if shorter.contains(paths.last()) {
            let k = choose|k: int| 0 <= k < shorter.len() && shorter[k] == paths.last();
            assert(paths[k] == paths[paths.len() - 1]);
        }
        assert(shorter.push(paths.last()) =~= paths);
    }
}

} // verus!
