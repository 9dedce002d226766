//! The in-memory cache of labels by subject URI that stands in front of
//! the label table: filled on a read from the table, dropped for a subject
//! when one of its labels is stored.

use vstd::prelude::*;
use crate::appview::error::AppViewError;
use crate::labels::{label_views, Label, LabelView};
use crate::text::{str_eq, to_string};

verus! {

broadcast use vstd::string::group_string_axioms;

/// One cached subject: its URI and its labels.
pub type CacheEntry = (String, Vec<Label>);

/// What `entries` holds for `uri`: the labels of its last entry for it.
pub open spec fn entry_for(entries: Seq<CacheEntry>, uri: Seq<char>) -> Option<Seq<LabelView>>
    decreases entries.len(),
{
    if entries.len() == 0 {
        None
    } else if entries.last().0@ == uri {
        Some(label_views(entries.last().1@))
    } else {
        entry_for(entries.drop_last(), uri)
    }
}

/// Labels by subject URI, kept in memory.
#[derive(Debug)]
pub struct LabelCache {
    entries: Vec<CacheEntry>,
}

/// A copy of a list of labels.
fn copy_labels(labels: &[Label]) -> (r: Vec<Label>)
    ensures
        label_views(r@) == label_views(labels@),
{
    let mut out: Vec<Label> = Vec::new();
    let mut i: usize = 0;
    while i < labels.len()
        invariant
            i <= labels@.len(),
            out@.len() == i,
            forall|k: int| 0 <= k < i ==> (#[trigger] out@[k])@ == labels@[k]@,
        decreases labels@.len() - i,
    {
        out.push(labels[i].duplicate());
        i = i + 1;
    }
    assert(label_views(out@) =~= label_views(labels@));
    out
}

impl LabelCache {
    /// The labels cached for `uri`, if any.
    pub closed spec fn cached(&self, uri: Seq<char>) -> Option<Seq<LabelView>> {
        entry_for(self.entries@, uri)
    }

    /// An empty cache.
    pub fn new() -> (r: LabelCache)
        ensures
            forall|uri: Seq<char>| r.cached(uri) is None,
    {
        LabelCache { entries: Vec::new() }
    }

    /// A copy of the labels cached for `uri`; none when nothing is cached.
    pub fn get(&self, uri: &str) -> (r: Option<Vec<Label>>)
        ensures
            r is None <==> self.cached(uri@) is None,
            r matches Some(v) ==> self.cached(uri@) == Some(label_views(v@)),
    {
        let mut i: usize = self.entries.len();
        proof {
            assert(self.entries@.take(i as int) =~= self.entries@);
        }
        while i > 0
            invariant
                i <= self.entries@.len(),
                entry_for(self.entries@.take(i as int), uri@) == entry_for(self.entries@, uri@),
            decreases i,
        {
            let ghost pre = self.entries@.take(i as int);
            proof {
                assert(pre.drop_last() =~= self.entries@.take(i - 1));
                assert(pre.last() == self.entries@[i - 1]);
            }
            if str_eq(self.entries[i - 1].0.as_str(), uri) {
                return Some(copy_labels(self.entries[i - 1].1.as_slice()));
            }
            i = i - 1;
        }
        None
    }

    /// Drops what is cached for `uri`; other subjects keep theirs.
    pub fn invalidate(&mut self, uri: &str)
        ensures
            final(self).cached(uri@) is None,
            forall|k: Seq<char>| k != uri@ ==> final(self).cached(k) == old(self).cached(k),
    {
        let ghost src = self.entries@;
        let mut out: Vec<CacheEntry> = Vec::new();
        let mut i: usize = 0;
        while i < self.entries.len()
            invariant
                i <= self.entries@.len(),
                src == self.entries@,
                forall|k: Seq<char>| #[trigger] entry_for(out@, k) == if k == uri@ {
                    None
                } else {
                    entry_for(src.take(i as int), k)
                },
            decreases self.entries@.len() - i,
        {
            let ghost prev = out@;
            let keep = !str_eq(self.entries[i].0.as_str(), uri);
            if keep {
                let key = to_string(self.entries[i].0.as_str());
                let labels = copy_labels(self.entries[i].1.as_slice());
                out.push((key, labels));
            }
            proof {
                assert(src.take(i + 1).drop_last() =~= src.take(i as int));
                assert(src.take(i + 1).last() == src[i as int]);
                if keep {
                    assert(out@.drop_last() =~= prev);
                }
                assert forall|k: Seq<char>| #[trigger] entry_for(out@, k) == if k == uri@ {
                    None
                } else {
                    entry_for(src.take(i + 1), k)
                } by {
                    assert(entry_for(prev, k) == if k == uri@ {
                        None
                    } else {
                        entry_for(src.take(i as int), k)
                    });
                    if keep {
                        assert(out@.drop_last() =~= prev);
                        assert(out@.last().0@ == src[i as int].0@);
                        assert(label_views(out@.last().1@) == label_views(src[i as int].1@));
                    } else {
                        assert(out@ == prev);
                        assert(src[i as int].0@ == uri@);
                    }
                }
            }
            i = i + 1;
        }
        proof {
            assert(src.take(src.len() as int) =~= src);
        }
        self.entries = out;
    }

    /// Caches `labels` as those of `uri`; other subjects keep theirs.
    pub fn fill(&mut self, uri: &str, labels: &[Label])
        ensures
            final(self).cached(uri@) == Some(label_views(labels@)),
            forall|k: Seq<char>| k != uri@ ==> final(self).cached(k) == old(self).cached(k),
    {
        self.invalidate(uri);
        let ghost mid = self.entries@;
        let key = to_string(uri);
        let copy = copy_labels(labels);
        self.entries.push((key, copy));
        proof {
            assert(self.entries@.drop_last() =~= mid);
        }
    }

    /// What a read from the label table comes to: loaded labels are cached
    /// for `uri` and handed back; a failed read is handed back and leaves
    /// the cache as it was.
    pub fn record_load(&mut self, uri: &str, loaded: Result<Vec<Label>, AppViewError>) -> (r: Result<
        Vec<Label>,
        AppViewError,
    >)
        ensures
            loaded matches Ok(v) ==> (r matches Ok(w) && w@ == v@ && final(self).cached(uri@) == Some(
                label_views(v@),
            )),
            loaded matches Ok(_) ==> forall|k: Seq<char>| k != uri@ ==> final(self).cached(k) == old(
                self,
            ).cached(k),
            loaded matches Err(e) ==> (r matches Err(f) && f == e),
            loaded is Err ==> forall|k: Seq<char>| final(self).cached(k) == old(self).cached(k),
    {
        match loaded {
            Ok(v) => {
                self.fill(uri, v.as_slice());
                Ok(v)
            },
            Err(e) => Err(e),
        }
    }
}

} // verus!
