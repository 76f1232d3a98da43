//! An in-memory image of the two persistent collections — the titles
//! awaiting acquisition and the titles already downloaded — together
//! with the duplicate guard and the commit that moves a title from one
//! to the other.

use vstd::prelude::*;
use crate::movie::{image_url_view, Movie};
use crate::text::{contains_ci, str_contains_ci};

verus! {

/// A record of one successfully acquired title; created exactly once per
/// title and never mutated thereafter.
#[derive(Debug, Clone, PartialEq, Eq)]
pub struct DownloadedEntry {
    pub name: String,
    pub id: String,
    /// The derived thumbnail URL.
    pub img: String,
}

/// A queued entry matches a deletion filter when both name and id agree.
pub open spec fn queue_match(m: Movie, name: Seq<char>, id: Seq<char>) -> bool {
    m.name@ == name && m.id@ == id
}

/// Some queued entry matches the (name, id) filter.
pub open spec fn has_queued(q: Seq<Movie>, name: Seq<char>, id: Seq<char>) -> bool {
    exists|i: int| 0 <= i < q.len() && queue_match(q[i], name, id)
}

/// How many downloaded entries carry this id.
pub open spec fn count_id(s: Seq<DownloadedEntry>, id: Seq<char>) -> nat
    decreases s.len(),
{
    if s.len() == 0 {
        0
    } else {
        count_id(s.drop_last(), id) + (if s.last().id@ == id {
            1nat
        } else {
            0nat
        })
    }
}

/// The two collections of the persistent store.
pub struct Store {
    pub queue: Vec<Movie>,
    pub downloaded: Vec<DownloadedEntry>,
}

impl Store {
    /// Well-formedness: `id` keys the downloaded collection, so no two
    /// downloaded entries share an id.
    pub open spec fn wf(self) -> bool {
        forall|i: int, j: int|
            0 <= i < j < self.downloaded@.len()
                ==> self.downloaded@[i].id@ != self.downloaded@[j].id@
    }

    /// Some downloaded entry carries this id.
    pub open spec fn has_downloaded_id(self, id: Seq<char>) -> bool {
        exists|i: int| 0 <= i < self.downloaded@.len() && self.downloaded@[i].id@ == id
    }

    /// An empty store, trivially well-formed.
    pub fn new() -> (r: Store)
        ensures
            r.wf(),
            r.queue@.len() == 0,
            r.downloaded@.len() == 0,
    {
        Store { queue: Vec::new(), downloaded: Vec::new() }
    }

    /// Appends a title to the acquisition queue.
    pub fn enqueue(&mut self, m: Movie)
        ensures
            final(self).queue@ == old(self).queue@.push(m),
            final(self).downloaded == old(self).downloaded,
    {
        self.queue.push(m);
    }

    /// The titles awaiting acquisition, in processing order.
    pub fn list_queue(&self) -> (r: &Vec<Movie>)
        ensures
            r@ == self.queue@,
    {
        &self.queue
    }

    /// Drops every queued title.
    pub fn empty_queue(&mut self)
        ensures
            final(self).queue@.len() == 0,
            final(self).downloaded == old(self).downloaded,
    {
        self.queue.clear();
    }

    /// The indices, in increasing order, of the queued titles whose
    /// names contain `name` case-insensitively.
    pub fn search_queue(&self, name: &str) -> (r: Vec<usize>)
        ensures
            forall|t: int| 0 <= t < r@.len()
                ==> r@[t] < self.queue@.len()
                    && contains_ci(self.queue@[r@[t] as int].name@, name@),
            forall|j: int|
                0 <= j < self.queue@.len() && contains_ci(self.queue@[j].name@, name@)
                    ==> r@.contains(j as usize),
            forall|t1: int, t2: int| 0 <= t1 < t2 < r@.len() ==> r@[t1] < r@[t2],
    {
        let mut r: Vec<usize> = Vec::new();
        let mut k: usize = 0;
        while k < self.queue.len()
            invariant
                k <= self.queue@.len(),
                forall|t: int| 0 <= t < r@.len()
                    ==> r@[t] < k && contains_ci(self.queue@[r@[t] as int].name@, name@),
                forall|j: int|
                    0 <= j < k && contains_ci(self.queue@[j].name@, name@)
                        ==> r@.contains(j as usize),
                forall|t1: int, t2: int| 0 <= t1 < t2 < r@.len() ==> r@[t1] < r@[t2],
            decreases self.queue@.len() - k,
        {
            if str_contains_ci(self.queue[k].name.as_str(), name) {
                let ghost r_pre = r@;
                r.push(k);
                proof {
                    assert forall|u: usize| r_pre.contains(u) implies r@.contains(u) by {
                        let t = choose|t: int| 0 <= t < r_pre.len() && r_pre[t] == u;
                        assert(r@[t] == u);
                    };
                    assert(r@[r@.len() - 1] == k as usize);
                }
            }
            k += 1;
        }
        r
    }

    /// The duplicate guard: does any downloaded title's name contain
    /// `name`, compared case-insensitively?
    pub fn exists_downloaded(&self, name: &str) -> (r: bool)
        ensures
            r == (exists|i: int|
                0 <= i < self.downloaded@.len()
                    && contains_ci(self.downloaded@[i].name@, name@)),
    {
        let mut i: usize = 0;
        while i < self.downloaded.len()
            invariant
                i <= self.downloaded@.len(),
                forall|j: int| 0 <= j < i
                    ==> !contains_ci(self.downloaded@[j].name@, name@),
            decreases self.downloaded@.len() - i,
        {
            if str_contains_ci(self.downloaded[i].name.as_str(), name) {
                return true;
            }
            i += 1;
        }
        false
    }

    /// Inserts a downloaded record keyed by `id`: when an entry with the
    /// same id is already present the store is left unchanged, so
    /// re-processing a title after a partial commit cannot create a
    /// second record.
    pub fn upsert_downloaded(&mut self, e: DownloadedEntry)
        requires
            old(self).wf(),
        ensures
            final(self).wf(),
            final(self).queue == old(self).queue,
            old(self).has_downloaded_id(e.id@)
                ==> final(self).downloaded == old(self).downloaded,
            !old(self).has_downloaded_id(e.id@)
                ==> final(self).downloaded@ == old(self).downloaded@.push(e),
            final(self).has_downloaded_id(e.id@),
    {
        let mut i: usize = 0;
        while i < self.downloaded.len()
            invariant
                *self == *old(self),
                old(self).wf(),
                i <= self.downloaded@.len(),
                forall|j: int| 0 <= j < i ==> self.downloaded@[j].id@ != e.id@,
            decreases self.downloaded@.len() - i,
        {
            if self.downloaded[i].id.eq(&e.id) {
                proof {
                    assert forall|a: int, b: int| 0 <= a < b < self.downloaded@.len()
                        implies self.downloaded@[a].id@ != self.downloaded@[b].id@ by {
                        assert(self.downloaded@[a] == old(self).downloaded@[a]);
                        assert(self.downloaded@[b] == old(self).downloaded@[b]);
                    };
                }
                return;
            }
            i += 1;
        }
        let ghost pre = self.downloaded@;
        self.downloaded.push(e);
        proof {
            let ds = self.downloaded@;
            assert(ds == pre.push(e));
            assert forall|a: int, b: int| 0 <= a < b < ds.len()
                implies ds[a].id@ != ds[b].id@ by {
                assert(ds[a] == pre[a]);
                if b == ds.len() - 1 {
                    assert(ds[b] == e);
                } else {
                    assert(ds[b] == pre[b]);
                }
            };
            assert(ds[ds.len() - 1] == e);
        }
    }

    /// Removes the first queued entry whose name and id both match, as
    /// the commit's delete does; the queue is unchanged when none does.
    pub fn remove_queued(&mut self, name: &str, id: &str)
        ensures
            final(self).downloaded == old(self).downloaded,
            !has_queued(old(self).queue@, name@, id@)
                ==> final(self).queue == old(self).queue,
            has_queued(old(self).queue@, name@, id@)
                ==> exists|k: int|
                    0 <= k < old(self).queue@.len()
                        && queue_match(old(self).queue@[k], name@, id@)
                        && (forall|j: int| 0 <= j < k
                            ==> !queue_match(old(self).queue@[j], name@, id@))
                        && final(self).queue@ == old(self).queue@.remove(k),
    {
        let name_key = String::from_str(name);
        let id_key = String::from_str(id);
        let mut k: usize = 0;
        while k < self.queue.len()
            invariant
                *self == *old(self),
                name_key@ == name@,
                id_key@ == id@,
                k <= self.queue@.len(),
                forall|j: int| 0 <= j < k
                    ==> !queue_match(self.queue@[j], name@, id@),
            decreases self.queue@.len() - k,
        {
            let hit_name = self.queue[k].name.eq(&name_key);
            let hit_id = self.queue[k].id.eq(&id_key);
            if hit_name && hit_id {
                self.queue.remove(k);
                return;
            }
            k += 1;
        }
    }

    /// The commit: the queued-to-downloaded transition, the only place
    /// the store changes during acquisition. Inserts the downloaded
    /// record (an upsert keyed by id), then deletes the matching queue
    /// entry. The two writes are not atomic against each other; the
    /// upsert keeps re-processing after a partial commit harmless.
    pub fn commit(&mut self, m: &Movie)
        requires
            old(self).wf(),
        ensures
            final(self).wf(),
            final(self).has_downloaded_id(m.id@),
            old(self).has_downloaded_id(m.id@)
                ==> final(self).downloaded == old(self).downloaded,
            !old(self).has_downloaded_id(m.id@) ==> {
                &&& final(self).downloaded@.len() == old(self).downloaded@.len() + 1
                &&& final(self).downloaded@.drop_last() == old(self).downloaded@
                &&& final(self).downloaded@.last().name@ == m.name@
                &&& final(self).downloaded@.last().id@ == m.id@
                &&& final(self).downloaded@.last().img@ == image_url_view(m.id@)
            },
            !has_queued(old(self).queue@, m.name@, m.id@)
                ==> final(self).queue == old(self).queue,
            has_queued(old(self).queue@, m.name@, m.id@)
                ==> exists|k: int|
                    0 <= k < old(self).queue@.len()
                        && queue_match(old(self).queue@[k], m.name@, m.id@)
                        && (forall|j: int| 0 <= j < k
                            ==> !queue_match(old(self).queue@[j], m.name@, m.id@))
                        && final(self).queue@ == old(self).queue@.remove(k),
    {
        let entry = DownloadedEntry {
            name: String::from_str(m.name.as_str()),
            id: String::from_str(m.id.as_str()),
            img: m.get_image(),
        };
        self.upsert_downloaded(entry);
        self.remove_queued(m.name.as_str(), m.id.as_str());
    }
}

/// No downloaded entry carries `id` exactly when its count is zero.
proof fn lemma_count_id_zero(s: Seq<DownloadedEntry>, id: Seq<char>)
    ensures
        (count_id(s, id) == 0) <==> (forall|i: int| 0 <= i < s.len() ==> s[i].id@ != id),
    decreases s.len(),
{
    if s.len() > 0 {
        lemma_count_id_zero(s.drop_last(), id);
        assert(forall|i: int| 0 <= i < s.len() - 1 ==> s[i] == s.drop_last()[i]);
    }
}

/// In a well-formed store each id keys at most one downloaded entry, and
/// exactly one when it is present at all. With `commit`'s contract this
/// says: a successful acquisition creates exactly one downloaded record
/// for the title's id, and re-processing a title that is already
/// downloaded never creates a second record with the same id.
pub proof fn lemma_downloaded_id_unique(s: Store, id: Seq<char>)
    requires
        s.wf(),
    ensures
        count_id(s.downloaded@, id) <= 1,
        s.has_downloaded_id(id) ==> count_id(s.downloaded@, id) == 1,
{
    lemma_count_le_one(s.downloaded@, id);
    if s.has_downloaded_id(id) {
        lemma_count_id_zero(s.downloaded@, id);
    }
}

/// A sequence of pairwise-distinct ids holds each id at most once.
proof fn lemma_count_le_one(s: Seq<DownloadedEntry>, id: Seq<char>)
    requires
        forall|i: int, j: int| 0 <= i < j < s.len() ==> s[i].id@ != s[j].id@,
    ensures
        count_id(s, id) <= 1,
    decreases s.len(),
{
    if s.len() > 0 {
        let prefix = s.drop_last();
        assert(forall|i: int| 0 <= i < prefix.len() ==> prefix[i] == s[i]);
        lemma_count_le_one(prefix, id);
        if s.last().id@ == id {
            assert(forall|i: int| 0 <= i < prefix.len() ==> prefix[i].id@ != id);
            lemma_count_id_zero(prefix, id);
        }
    }
}

} // verus!
