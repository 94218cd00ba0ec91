//! The transcripts of the sessions that were shown last, kept so that coming
//! back to one of them shows it at once.

use vstd::prelude::*;

use crate::text;

verus! {

/// How many transcripts are kept.
pub const SESSION_CACHE_CAPACITY: usize = 8;

/// Transcripts by session, the one that was kept longest first. Its model is the
/// sequence of sessions and transcripts.
pub struct SessionTranscriptCache<T> {
    entries: Vec<(String, T)>,
}

/// The model of the entries.
spec fn labelled<T>(entries: Seq<(String, T)>) -> Seq<(Seq<char>, T)> {
    Seq::new(entries.len(), |i: int| (entries[i].0@, entries[i].1))
}

/// Whether no session occurs twice.
pub open spec fn one_each<T>(entries: Seq<(Seq<char>, T)>) -> bool {
    forall|i: int, j: int|
        0 <= i < j < entries.len() ==> (#[trigger] entries[i]).0 != (#[trigger] entries[j]).0
}

/// The entries of other sessions than `seed`.
pub open spec fn without<T>(entries: Seq<(Seq<char>, T)>, seed: Seq<char>) -> Seq<
    (Seq<char>, T),
> {
    entries.filter(|entry: (Seq<char>, T)| entry.0 != seed)
}

/// The entry of `seed`.
pub open spec fn kept<T>(entries: Seq<(Seq<char>, T)>, seed: Seq<char>) -> Option<T>
    decreases entries.len(),
{
    if entries.len() == 0 {
        None
    } else if entries.last().0 == seed {
        Some(entries.last().1)
    } else {
        kept(entries.drop_last(), seed)
    }
}

/// The last entries, as many as are kept.
pub open spec fn newest<T>(entries: Seq<(Seq<char>, T)>) -> Seq<(Seq<char>, T)> {
    if entries.len() > SESSION_CACHE_CAPACITY {
        entries.skip(entries.len() - SESSION_CACHE_CAPACITY)
    } else {
        entries
    }
}

/// The entries after the transcript of `seed` was stored. Without a session there
/// is nothing to store.
pub open spec fn stored<T>(entries: Seq<(Seq<char>, T)>, seed: Seq<char>, transcript: T) -> Seq<
    (Seq<char>, T),
> {
    if seed.len() == 0 {
        entries
    } else {
        newest(without(entries, seed).push((seed, transcript)))
    }
}

impl<T> View for SessionTranscriptCache<T> {
    type V = Seq<(Seq<char>, T)>;

    closed spec fn view(&self) -> Seq<(Seq<char>, T)> {
        labelled(self.entries@)
    }
}

/// A part of the entries has each session once, too.
proof fn filter_keeps_one_each<T>(entries: Seq<(Seq<char>, T)>, seed: Seq<char>)
    requires
        one_each(entries),
    ensures
        one_each(without(entries, seed)),
        without(entries, seed).len() <= entries.len(),
        forall|i: int|
            0 <= i < without(entries, seed).len() ==> (#[trigger] without(entries, seed)[i]).0
                != seed && entries.contains(without(entries, seed)[i]),
    decreases entries.len(),
{
    let keep = |entry: (Seq<char>, T)| entry.0 != seed;
    reveal(Seq::filter);
    if entries.len() > 0 {
        let front = entries.drop_last();
        assert forall|i: int, j: int| 0 <= i < j < front.len() implies (#[trigger] front[i]).0 != (
        #[trigger] front[j]).0 by {
            assert(front[i] == entries[i]);
            assert(front[j] == entries[j]);
        }
        filter_keeps_one_each(front, seed);
        let rest = without(front, seed);
        let all = without(entries, seed);
        assert forall|i: int| 0 <= i < all.len() implies (#[trigger] all[i]).0 != seed
            && entries.contains(all[i]) by {
            if i < rest.len() {
                assert(all[i] == rest[i]);
                assert(front.contains(rest[i]));
                let k = choose|k: int| 0 <= k < front.len() && front[k] == rest[i];
                assert(entries[k] == rest[i]);
            } else {
                assert(all[i] == entries.last());
                assert(entries[entries.len() - 1] == entries.last());
            }
        }
        assert forall|i: int, j: int| 0 <= i < j < all.len() implies (#[trigger] all[i]).0 != (
        #[trigger] all[j]).0 by {
            assert(all[i] == rest[i]);
            if j < rest.len() {
                assert(all[j] == rest[j]);
            } else {
                assert(front.contains(rest[i]));
                let k = choose|k: int| 0 <= k < front.len() && front[k] == rest[i];
                assert(entries[k] == rest[i]);
                assert(all[j] == entries[entries.len() - 1]);
            }
        }
    }
}

/// Every entry is what is kept of its session.
proof fn kept_is_the_entry<T>(entries: Seq<(Seq<char>, T)>, i: int)
    requires
        one_each(entries),
        0 <= i < entries.len(),
    ensures
        kept(entries, entries[i].0) == Some(entries[i].1),
    decreases entries.len(),
{
    if i < entries.len() - 1 {
        let front = entries.drop_last();
        assert(entries[i].0 != entries[entries.len() - 1].0);
        assert forall|a: int, b: int| 0 <= a < b < front.len() implies (#[trigger] front[a]).0 != (
        #[trigger] front[b]).0 by {
            assert(front[a] == entries[a]);
            assert(front[b] == entries[b]);
        }
        assert(front[i] == entries[i]);
        kept_is_the_entry(front, i);
    }
}

/// What is kept of a session is one of the entries.
proof fn kept_is_there<T>(entries: Seq<(Seq<char>, T)>, seed: Seq<char>)
    ensures
        kept(entries, seed) matches Some(transcript) ==> exists|i: int|
            0 <= i < entries.len() && #[trigger] entries[i] == (seed, transcript),
        kept(entries, seed) is None ==> forall|i: int|
            0 <= i < entries.len() ==> (#[trigger] entries[i]).0 != seed,
    decreases entries.len(),
{
    if entries.len() > 0 {
        let front = entries.drop_last();
        assert(entries[entries.len() - 1] == entries.last());
        if entries.last().0 != seed {
            kept_is_there(front, seed);
            if let Some(transcript) = kept(front, seed) {
                let i = choose|i: int|
                    0 <= i < front.len() && #[trigger] front[i] == (seed, transcript);
                assert(entries[i] == (seed, transcript));
            } else {
                assert forall|i: int| 0 <= i < entries.len() implies (#[trigger] entries[i]).0
                    != seed by {
                    if i < front.len() {
                        assert(front[i].0 != seed);
                    }
                }
            }
        }
    }
}

/// Dropping the oldest entries leaves each session once.
proof fn newest_keeps_one_each<T>(entries: Seq<(Seq<char>, T)>)
    requires
        one_each(entries),
    ensures
        one_each(newest(entries)),
        newest(entries).len() <= SESSION_CACHE_CAPACITY,
{
    let rest = newest(entries);
    if entries.len() > SESSION_CACHE_CAPACITY {
        let n = entries.len() - SESSION_CACHE_CAPACITY;
        assert forall|i: int, j: int| 0 <= i < j < rest.len() implies (#[trigger] rest[i]).0 != (
        #[trigger] rest[j]).0 by {
            assert(rest[i] == entries[n + i]);
            assert(rest[j] == entries[n + j]);
        }
    }
}

/// Storing keeps each session once, and no more than are kept.
proof fn stored_keeps_one_each<T>(
    entries: Seq<(Seq<char>, T)>,
    seed: Seq<char>,
    transcript: T,
)
    requires
        one_each(entries),
        entries.len() <= SESSION_CACHE_CAPACITY,
    ensures
        one_each(stored(entries, seed, transcript)),
        stored(entries, seed, transcript).len() <= SESSION_CACHE_CAPACITY,
        one_each(without(entries, seed).push((seed, transcript))),
{
    filter_keeps_one_each(entries, seed);
    let rest = without(entries, seed);
    let all = rest.push((seed, transcript));
    assert forall|i: int, j: int| 0 <= i < j < all.len() implies (#[trigger] all[i]).0 != (
    #[trigger] all[j]).0 by {
        assert(all[i] == rest[i]);
        if j < rest.len() {
            assert(all[j] == rest[j]);
        }
    }
    newest_keeps_one_each(all);
}

/// A transcript that was stored is what is kept of its session.
pub proof fn stored_transcript_is_kept<T>(
    entries: Seq<(Seq<char>, T)>,
    seed: Seq<char>,
    transcript: T,
)
    requires
        seed.len() > 0,
    ensures
        kept(stored(entries, seed, transcript), seed) == Some(transcript),
{
    let after = stored(entries, seed, transcript);
    assert(after.last() == (seed, transcript));
}

/// Storing one session's transcript forgets another's only if more are kept than
/// there is room for.
pub proof fn others_stay_while_there_is_room<T>(
    entries: Seq<(Seq<char>, T)>,
    seed: Seq<char>,
    transcript: T,
    other: Seq<char>,
)
    requires
        one_each(entries),
        entries.len() < SESSION_CACHE_CAPACITY,
        other != seed,
    ensures
        kept(stored(entries, seed, transcript), other) == kept(entries, other),
{
    if seed.len() > 0 {
        filter_keeps_one_each(entries, seed);
        let rest = without(entries, seed);
        let all = rest.push((seed, transcript));
        assert(all.drop_last() =~= rest);
        kept_without(entries, seed, other);
    }
}

/// A transcript that was stored is still kept after another session's was taken
/// out and stored in its turn, as long as there is room for both.
pub proof fn others_survive<T>(
    entries: Seq<(Seq<char>, T)>,
    first: Seq<char>,
    shown_first: T,
    second: Seq<char>,
    shown_second: T,
)
    requires
        one_each(entries),
        entries.len() < SESSION_CACHE_CAPACITY - 1,
        first.len() > 0,
        first != second,
    ensures
        kept(
            stored(without(stored(entries, first, shown_first), second), second, shown_second),
            first,
        ) == Some(shown_first),
{
    let kept_first = stored(entries, first, shown_first);
    stored_keeps_one_each(entries, first, shown_first);
    filter_keeps_one_each(entries, first);
    stored_transcript_is_kept(entries, first, shown_first);
    filter_keeps_one_each(kept_first, second);
    kept_without(kept_first, second, first);
    others_stay_while_there_is_room(without(kept_first, second), second, shown_second, first);
}

/// What is kept of a session does not depend on the entries of another one.
proof fn kept_without<T>(entries: Seq<(Seq<char>, T)>, seed: Seq<char>, other: Seq<char>)
    requires
        other != seed,
    ensures
        kept(without(entries, seed), other) == kept(entries, other),
    decreases entries.len(),
{
    reveal(Seq::filter);
    if entries.len() > 0 {
        let front = entries.drop_last();
        kept_without(front, seed, other);
        if entries.last().0 != seed {
            assert(without(entries, seed) =~= without(front, seed).push(entries.last()));
            assert(without(entries, seed).drop_last() =~= without(front, seed));
        } else {
            assert(without(entries, seed) =~= without(front, seed));
        }
    }
}

impl<T> SessionTranscriptCache<T> {
    #[verifier::type_invariant]
    spec fn inv(&self) -> bool {
        one_each(labelled(self.entries@)) && self.entries@.len() <= SESSION_CACHE_CAPACITY
    }

    /// Nothing kept.
    pub fn new() -> (r: Self)
        ensures
            r@ == Seq::<(Seq<char>, T)>::empty(),
    {
        let r = SessionTranscriptCache { entries: Vec::new() };
        assert(r@ =~= Seq::empty());
        r
    }

    /// How many transcripts are kept.
    pub fn len(&self) -> (r: usize)
        ensures
            r == self@.len(),
            r <= SESSION_CACHE_CAPACITY,
    {
        proof {
            use_type_invariant(self);
        }
        self.entries.len()
    }

    /// Keeps the transcript of `seed`, as the newest one. The oldest one goes if
    /// there are too many.
    pub fn store(&mut self, seed: String, transcript: T)
        ensures
            final(self)@ == stored(old(self)@, seed@, transcript),
    {
        if seed.as_str().is_empty() {
            return;
        }
        let ghost before = self@;
        proof {
            use_type_invariant(&*self);
            stored_keeps_one_each(before, seed@, transcript);
        }
        let _ = self.restore(seed.as_str());
        let mut entries: Vec<(String, T)> = Vec::new();
        std::mem::swap(&mut entries, &mut self.entries);
        let ghost rest = labelled(entries@);
        assert(rest == without(before, seed@));
        let ghost key = seed@;
        entries.push((seed, transcript));
        assert(labelled(entries@) =~= rest.push((key, transcript)));
        proof {
            filter_keeps_one_each(before, key);
        }
        if entries.len() > SESSION_CACHE_CAPACITY {
            let ghost all = labelled(entries@);
            let _ = entries.remove(0);
            assert(labelled(entries@) =~= all.skip(1));
        }
        assert(labelled(entries@) == stored(before, key, transcript));
        self.entries = entries;
    }

    /// Takes the transcript of `seed` out.
    pub fn restore(&mut self, seed: &str) -> (r: Option<T>)
        ensures
            r == kept(old(self)@, seed@),
            final(self)@ == without(old(self)@, seed@),
    {
        let ghost before = self@;
        proof {
            use_type_invariant(&*self);
            filter_keeps_one_each(before, seed@);
            kept_is_there(before, seed@);
        }
        let mut entries: Vec<(String, T)> = Vec::new();
        std::mem::swap(&mut entries, &mut self.entries);
        let total: usize = entries.len();
        let mut i: usize = 0;
        while i < total
            invariant
                i <= total,
                total == entries@.len(),
                before == old(self)@,
                before == labelled(entries@),
                one_each(before),
                before.len() <= SESSION_CACHE_CAPACITY,
                one_each(without(before, seed@)),
                without(before, seed@).len() <= before.len(),
                self@ == labelled(Seq::<(String, T)>::empty()),
                forall|k: int| 0 <= k < i ==> (#[trigger] before[k]).0 != seed@,
            decreases total - i,
        {
            assert(before[i as int] == (entries@[i as int].0@, entries@[i as int].1));
            if text::same(entries[i].0.as_str(), seed) {
                proof {
                    kept_is_the_entry(before, i as int);
                    without_one(before, i as int);
                }
                let (_, transcript) = entries.remove(i);
                assert(labelled(entries@) =~= before.remove(i as int));
                self.entries = entries;
                return Some(transcript);
            }
            i = i + 1;
        }
        proof {
            without_none(before, seed@);
        }
        self.entries = entries;
        None
    }
}

/// Without the entry of its session, the others are left.
proof fn without_one<T>(entries: Seq<(Seq<char>, T)>, i: int)
    requires
        one_each(entries),
        0 <= i < entries.len(),
    ensures
        without(entries, entries[i].0) == entries.remove(i),
    decreases entries.len(),
{
    reveal(Seq::filter);
    let seed = entries[i].0;
    let front = entries.drop_last();
    if i == entries.len() - 1 {
        assert forall|k: int| 0 <= k < front.len() implies (#[trigger] front[k]).0 != seed by {
            assert(front[k] == entries[k]);
        }
        without_none(front, seed);
        assert(entries.remove(i) =~= front);
    } else {
        assert forall|a: int, b: int| 0 <= a < b < front.len() implies (#[trigger] front[a]).0 != (
        #[trigger] front[b]).0 by {
            assert(front[a] == entries[a]);
            assert(front[b] == entries[b]);
        }
        assert(front[i] == entries[i]);
        without_one(front, i);
        assert(entries[i].0 != entries[entries.len() - 1].0);
        assert(entries.remove(i) =~= front.remove(i).push(entries.last()));
    }
}

/// Without entries of a session, all are left.
proof fn without_none<T>(entries: Seq<(Seq<char>, T)>, seed: Seq<char>)
    requires
        forall|k: int| 0 <= k < entries.len() ==> (#[trigger] entries[k]).0 != seed,
    ensures
        without(entries, seed) == entries,
        kept(entries, seed) is None,
    decreases entries.len(),
{
    reveal(Seq::filter);
    if entries.len() > 0 {
        let front = entries.drop_last();
        assert forall|k: int| 0 <= k < front.len() implies (#[trigger] front[k]).0 != seed by {
            assert(front[k] == entries[k]);
        }
        assert(entries[entries.len() - 1] == entries.last());
        without_none(front, seed);
        assert(entries =~= front.push(entries.last()));
    }
}

} // verus!
