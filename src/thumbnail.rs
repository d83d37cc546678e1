use vstd::prelude::*;

verus! {

/// Some entry of `entries` has key `k`.
pub open spec fn holds_key<T>(entries: Seq<(String, T)>, k: Seq<char>) -> bool {
    exists|i: int| 0 <= i < entries.len() && (#[trigger] entries[i]).0@ == k
}

/// Thumbnails keyed by the id of the file they show. An entry is written
/// once: storing a key again keeps the first thumbnail.
pub struct ThumbnailCache<T> {
    entries: Vec<(String, T)>,
}

impl<T> View for ThumbnailCache<T> {
    type V = Map<Seq<char>, T>;

    closed spec fn view(&self) -> Map<Seq<char>, T> {
        Map::new(
            |k: Seq<char>| holds_key(self.entries@, k),
            |k: Seq<char>|
                self.entries@[choose|i: int|
                    0 <= i < self.entries@.len() && (#[trigger] self.entries@[i]).0@ == k].1,
        )
    }
}

impl<T> ThumbnailCache<T> {
    /// No two entries have the same key.
    pub closed spec fn wf(&self) -> bool {
        forall|i: int, j: int|
            0 <= i < self.entries@.len() && 0 <= j < self.entries@.len() && (
            #[trigger] self.entries@[i]).0@ == (#[trigger] self.entries@[j]).0@ ==> i == j
    }

    /// An empty cache.
    pub fn new() -> (r: ThumbnailCache<T>)
        ensures
            r.wf(),
            r@ == Map::<Seq<char>, T>::empty(),
    {
        let r = ThumbnailCache { entries: Vec::new() };
        assert(r@ =~= Map::<Seq<char>, T>::empty());
        r
    }

    fn position(&self, file_id: &String) -> (r: Option<usize>)
        ensures
            match r {
                Some(i) => i < self.entries@.len() && self.entries@[i as int].0@ == file_id@,
                None => !holds_key(self.entries@, file_id@),
            },
    {
        let mut i: usize = 0;
        while i < self.entries.len()
            invariant
                i <= self.entries@.len(),
                forall|j: int| 0 <= j < i ==> (#[trigger] self.entries@[j]).0@ != file_id@,
            decreases self.entries.len() - i,
        {
            if self.entries[i].0 == *file_id {
                return Some(i);
            }
            i = i + 1;
        }
        None
    }

    /// Whether the thumbnail of `file_id` is cached.
    pub fn has_thumbnail(&self, file_id: &String) -> (r: bool)
        ensures
            r == self@.contains_key(file_id@),
    {
        self.position(file_id).is_some()
    }

    /// The cached thumbnail of `file_id`, if any.
    pub fn get_thumbnail(&self, file_id: &String) -> (r: Option<&T>)
        requires
            self.wf(),
        ensures
            match r {
                Some(t) => self@.contains_key(file_id@) && *t == self@[file_id@],
                None => !self@.contains_key(file_id@),
            },
    {
        match self.position(file_id) {
            Some(i) => {
                let ghost k = choose|j: int|
                    0 <= j < self.entries@.len() && (#[trigger] self.entries@[j]).0@ == file_id@;
                assert(holds_key(self.entries@, file_id@));
                assert(k == i);
                Some(&self.entries[i].1)
            },
            None => None,
        }
    }

    /// Stores `thumbnail` for `file_id` unless one is cached already.
    pub fn put_thumbnail(&mut self, file_id: String, thumbnail: T)
        requires
            old(self).wf(),
        ensures
            final(self).wf(),
            final(self)@ == if old(self)@.contains_key(file_id@) {
                old(self)@
            } else {
                old(self)@.insert(file_id@, thumbnail)
            },
    {
        match self.position(&file_id) {
            Some(_) => {},
            None => {
                let ghost k = file_id@;
                let ghost before = self.entries@;
                self.entries.push((file_id, thumbnail));
                let ghost after = self.entries@;
                assert(after[before.len() as int].0@ == k);
                assert forall|i: int, j: int|
                    0 <= i < after.len() && 0 <= j < after.len() && (#[trigger] after[i]).0@ == (
                    #[trigger] after[j]).0@ implies i == j by {
                    if i < before.len() && j < before.len() {
                        assert(after[i] == before[i] && after[j] == before[j]);
                    } else if i < before.len() {
                        assert(after[i] == before[i]);
                    } else if j < before.len() {
                        assert(after[j] == before[j]);
                    }
                }
                assert forall|q: Seq<char>| holds_key(after, q) <==> holds_key(before, q) || q == k by {
                    if holds_key(before, q) {
                        let i = choose|i: int| 0 <= i < before.len() && (#[trigger] before[i]).0@ == q;
                        assert(after[i] == before[i]);
                    }
                    if holds_key(after, q) && q != k {
                        let i = choose|i: int| 0 <= i < after.len() && (#[trigger] after[i]).0@ == q;
                        assert(after[i] == before[i]);
                    }
                }
                assert(self@ =~= old(self)@.insert(k, thumbnail)) by {
                    assert forall|q: Seq<char>| #[trigger] self@.contains_key(q) implies self@[q]
                        == old(self)@.insert(k, thumbnail)[q] by {
                        let i = choose|i: int| 0 <= i < after.len() && (#[trigger] after[i]).0@ == q;
                        if q == k {
                            assert(i == before.len());
                        } else {
                            let j = choose|j: int| 0 <= j < before.len() && (#[trigger] before[j]).0@ == q;
                            assert(after[j] == before[j]);
                            assert(i == j);
                        }
                    }
                }
            },
        }
    }
}

} // verus!
