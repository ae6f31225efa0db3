//! The index: the file paths found by one walk, and the time it was made.

use crate::clock::{wall_clock, Timestamp, NANOS_PER_SEC};
use vstd::prelude::*;

verus! {

/// Days after which an index counts as outdated.
pub const EXPIRATION_DAYS: i128 = 7;

/// Nanoseconds in one day.
pub const NANOS_PER_DAY: i128 = 86_400_000_000_000;

/// A cached list of the files on the system.
///
/// `files` holds the paths in the order in which the walk found them. A path
/// that the walk met twice stands twice; nothing sorts the list.
/// `last_update` is the time at which the index was made, before its walk.
pub struct Index {
    pub files: Vec<String>,
    pub last_update: Timestamp,
}

/// What an index holds: the text of each path, in order, and the time.
pub struct IndexView {
    pub files: Seq<Seq<char>>,
    pub last_update: Timestamp,
}

impl View for Index {
    type V = IndexView;

    open spec fn view(&self) -> IndexView {
        IndexView { files: self.files.deep_view(), last_update: self.last_update }
    }
}

impl IndexView {
    /// Nanoseconds from the making of the index to `now`.
    pub open spec fn age_at(self, now: Timestamp) -> int {
        now.instant() - self.last_update.instant()
    }

    /// Whether the index is outdated at `now`: whether it is older than
    /// `EXPIRATION_DAYS` days. At that age to the nanosecond it is not yet.
    pub open spec fn outdated_at(self, now: Timestamp) -> bool {
        self.age_at(now) > EXPIRATION_DAYS * NANOS_PER_DAY
    }
}

/// The paths among `outcomes` that resolved, in their order. An outcome is
/// the resolved path of one entry, or `None` where the entry could not be
/// resolved.
pub open spec fn resolved(outcomes: Seq<Option<Seq<char>>>) -> Seq<Seq<char>>
    decreases outcomes.len(),
{
    if outcomes.len() == 0 {
        Seq::empty()
    } else {
        match outcomes.last() {
            Some(path) => resolved(outcomes.drop_last()).push(path),
            None => resolved(outcomes.drop_last()),
        }
    }
}

/// Where an index turns outdated: eight days after it was made it is, six
/// days after it is not; at seven days to the second it is not yet, and one
/// second later it is.
pub proof fn lemma_outdated_after_seven_days(index: IndexView, now: Timestamp)
    ensures
        index.age_at(now) == 8 * NANOS_PER_DAY ==> index.outdated_at(now),
        index.age_at(now) == 6 * NANOS_PER_DAY ==> !index.outdated_at(now),
        index.age_at(now) == 7 * NANOS_PER_DAY ==> !index.outdated_at(now),
        index.age_at(now) == 7 * NANOS_PER_DAY + NANOS_PER_SEC ==> index.outdated_at(now),
{
}

/// Appends to `paths` the outcomes that resolved, in their order, and drops
/// the others.
pub fn keep_resolved(paths: &mut Vec<String>, outcomes: Vec<Option<String>>)
    ensures
        final(paths).deep_view() == old(paths).deep_view() + resolved(outcomes.deep_view()),
{
    let ghost before = paths.deep_view();
    let ghost all = outcomes.deep_view();
    assert(all.take(0) =~= Seq::empty());
    assert(before + resolved(all.take(0)) =~= before);
    for outcome in it: outcomes
        invariant
            it.seq() == outcomes@,
            all == outcomes.deep_view(),
            paths.deep_view() == before + resolved(all.take(it.index() as int)),
    {
        let ghost k = it.index() as int;
        assert(all.take(k + 1).drop_last() =~= all.take(k));
        assert(all.take(k + 1).last() == outcome.deep_view());
        if let Some(path) = outcome {
            let ghost prior = paths.deep_view();
            paths.push(path);
            assert(paths.deep_view() =~= prior.push(path@));
            assert(paths.deep_view() =~= before + resolved(all.take(k + 1)));
        }
    }
    assert(all.take(all.len() as int) =~= all);
}

impl Index {
    /// An empty index made now, by the system clock.
    pub fn new() -> (index: Index)
        ensures
            index@.files == Seq::<Seq<char>>::empty(),
    {
        Index::created_at(wall_clock())
    }

    /// An empty index made at `time`.
    pub fn created_at(time: Timestamp) -> (index: Index)
        ensures
            index@ == (IndexView { files: Seq::empty(), last_update: time }),
    {
        let index = Index { files: Vec::new(), last_update: time };
        assert(index@.files =~= Seq::empty());
        index
    }

    /// Adds a file to the index, behind the files it holds.
    pub fn add(&mut self, file: String)
        ensures
            final(self)@ == (IndexView { files: old(self)@.files.push(file@), ..old(self)@ }),
    {
        self.files.push(file);
        assert(self@.files =~= old(self)@.files.push(file@));
    }

    /// Takes in the outcomes of one walk of the file system: every entry that
    /// resolved is added, in the walk's order; an entry that did not is
    /// passed over.
    pub fn build(&mut self, walked: Vec<Option<String>>)
        ensures
            final(self)@ == (IndexView {
                files: old(self)@.files + resolved(walked.deep_view()),
                ..old(self)@
            }),
    {
        keep_resolved(&mut self.files, walked);
    }

    /// Tells whether the index is outdated at `now`.
    pub fn is_outdated_at(&self, now: &Timestamp) -> (outdated: bool)
        ensures
            outdated == self@.outdated_at(*now),
    {
        now.nanos_since(&self.last_update) > EXPIRATION_DAYS * NANOS_PER_DAY
    }

    /// Tells whether the index is outdated now, by the system clock: the
    /// answer holds of the time that the clock gave.
    pub fn is_outdated(&self) -> (outdated: bool)
        ensures
            exists|now: Timestamp| outdated == self@.outdated_at(now),
    {
        let now = wall_clock();
        self.is_outdated_at(&now)
    }
}

} // verus!
