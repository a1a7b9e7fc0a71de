//! The article store: create, fetch, list, partially update and delete
//! articles.
//!
//! `ArticleStore` holds its records in memory, in the order of their
//! insertion. It states, and proves, what each operation does to a table of
//! articles. A server that keeps its table in a database runs the same
//! operations as statements against that database and does not call this
//! type: what is proved here is proved of these records, and is what such
//! statements have to do. The answers in `reply` are decided from the
//! outcome of either.

use crate::article::{Article, CreateArticle, ListArticle, Timestamp, UpdateArticle};
use crate::listing::{
    ids_ascend, in_listing_order, lemma_listing_in_order, lemma_listing_len,
    lemma_listing_newest_first, lemma_listing_rearranges, lemma_summaries_newest_first, list,
    listing, newest_first,
};
use vstd::prelude::*;

verus! {

/// Why an operation of the store failed.
#[derive(Debug, Clone, Copy, PartialEq, Eq)]
pub enum StoreError {
    /// No article has the id that was asked for.
    NotFound,
    /// The store could not take or give the data.
    StorageFailure,
}

/// Some record has this id.
pub open spec fn holds(records: Seq<Article>, id: i64) -> bool {
    exists|k: int| 0 <= k < records.len() && (#[trigger] records[k]).id == id
}

/// Where the record with this id stands, if some record has it.
pub open spec fn position(records: Seq<Article>, id: i64) -> int {
    choose|k: int| 0 <= k < records.len() && (#[trigger] records[k]).id == id
}

/// The record with this id.
pub open spec fn lookup(records: Seq<Article>, id: i64) -> Option<Article> {
    if holds(records, id) {
        Some(records[position(records, id)])
    } else {
        None
    }
}

/// Some record has this id and was not created after `now`, so that an
/// update at `now` leaves it valid.
pub open spec fn storable(records: Seq<Article>, id: i64, now: Timestamp) -> bool {
    holds(records, id) && records[position(records, id)].created_seconds <= now.seconds
}

/// The records after the one with this id took `patch` at time `now`; the
/// same records if none has the id, or if the one that has it was created
/// after `now`.
pub open spec fn updated(
    records: Seq<Article>,
    id: i64,
    patch: UpdateArticle,
    now: Timestamp,
) -> Seq<Article> {
    if storable(records, id, now) {
        let k = position(records, id);
        records.update(k, patch.merged(records[k], now))
    } else {
        records
    }
}

/// The records without the one with this id; the same records if none has
/// the id.
pub open spec fn removed(records: Seq<Article>, id: i64) -> Seq<Article> {
    if holds(records, id) {
        records.remove(position(records, id))
    } else {
        records
    }
}

/// What holds of the records of every store, `last_id` being the last id it
/// gave out: ids grow with insertion, so each is unique; each lies between 1
/// and `last_id`; no record was updated before it was created.
pub open spec fn well_formed(records: Seq<Article>, last_id: int) -> bool {
    &&& 0 <= last_id <= i64::MAX
    &&& ids_ascend(records)
    &&& forall|k: int|
        0 <= k < records.len() ==> 1 <= (#[trigger] records[k]).id <= last_id && records[k].valid()
}

/// A record of ascending records is found at one place only.
pub proof fn lemma_position(records: Seq<Article>, id: i64, k: int)
    requires
        ids_ascend(records),
        0 <= k < records.len(),
        records[k].id == id,
    ensures
        holds(records, id),
        position(records, id) == k,
        lookup(records, id) == Some(records[k]),
{
    let p = position(records, id);
    if p < k {
        assert(records[p].id < records[k].id);
    } else if k < p {
        assert(records[k].id < records[p].id);
    }
}

/// An article store. Each operation takes effect as a whole: while one
/// changes a record, nothing else reads or changes the store.
pub struct ArticleStore {
    records: Vec<Article>,
    last_id: i64,
}

impl View for ArticleStore {
    type V = Seq<Article>;

    /// The records, in the order of their insertion.
    closed spec fn view(&self) -> Seq<Article> {
        self.records@
    }
}

impl ArticleStore {
    /// The last id that the store gave out; 0 before the first.
    pub closed spec fn last_id(&self) -> int {
        self.last_id as int
    }

    #[verifier::type_invariant]
    spec fn inv(&self) -> bool {
        well_formed(self.records@, self.last_id as int)
    }

    /// An empty store.
    pub fn new() -> (store: ArticleStore)
        ensures
            store@ == Seq::<Article>::empty(),
            store.last_id() == 0,
            well_formed(store@, store.last_id()),
    {
        ArticleStore { records: Vec::new(), last_id: 0 }
    }

    /// An empty store that goes on after `last_id`, the last id that was
    /// given out before: the next article gets the id after it. There is no
    /// such store for a negative `last_id`.
    pub fn resume(last_id: i64) -> (store: Option<ArticleStore>)
        ensures
            match store {
                Some(store) => {
                    &&& last_id >= 0
                    &&& store@ == Seq::<Article>::empty()
                    &&& store.last_id() == last_id
                    &&& well_formed(store@, store.last_id())
                },
                None => last_id < 0,
            },
    {
        if last_id < 0 {
            None
        } else {
            Some(ArticleStore { records: Vec::new(), last_id })
        }
    }

    /// The number of articles.
    pub fn len(&self) -> (n: usize)
        ensures
            n == self@.len(),
    {
        self.records.len()
    }

    /// Where the record with this id stands.
    fn find(&self, id: i64) -> (found: Option<usize>)
        ensures
            well_formed(self@, self.last_id()),
            match found {
                Some(k) => k < self@.len() && self@[k as int].id == id && holds(self@, id)
                    && position(self@, id) == k,
                None => !holds(self@, id),
            },
    {
        proof {
            use_type_invariant(self);
        }
        let mut k: usize = 0;
        while k < self.records.len()
            invariant
                0 <= k <= self.records.len(),
                well_formed(self.records@, self.last_id as int),
                forall|m: int| 0 <= m < k ==> (#[trigger] self.records@[m]).id != id,
            decreases self.records.len() - k,
        {
            if self.records[k].id == id {
                proof {
                    lemma_position(self.records@, id, k as int);
                }
                return Some(k);
            }
            k += 1;
        }
        None
    }

    /// Stores a new article under a fresh id, created and updated at `now`,
    /// and returns the id. The first id is 1, each later one is the last plus
    /// one, and none is given twice. Fails with `StorageFailure`, and changes
    /// nothing, when the ids are used up.
    pub fn create(&mut self, item: CreateArticle, now: Timestamp) -> (result: Result<
        i64,
        StoreError,
    >)
        ensures
            well_formed(final(self)@, final(self).last_id()),
            match result {
                Ok(id) => {
                    &&& old(self).last_id() < i64::MAX
                    &&& id == old(self).last_id() + 1
                    &&& final(self).last_id() == id
                    &&& final(self)@ == old(self)@.push(item.record(id, now))
                },
                Err(error) => {
                    &&& old(self).last_id() == i64::MAX
                    &&& error == StoreError::StorageFailure
                    &&& final(self).last_id() == old(self).last_id()
                    &&& final(self)@ == old(self)@
                },
            },
    {
        proof {
            use_type_invariant(&*self);
        }
        if self.last_id == i64::MAX {
            return Err(StoreError::StorageFailure);
        }
        let id: i64 = self.last_id + 1;
        let mut records: Vec<Article> = Vec::new();
        std::mem::swap(&mut records, &mut self.records);
        records.push(Article::new(id, item, now));
        self.last_id = id;
        self.records = records;
        Ok(id)
    }

    /// Fetches the article with this id. Fails with `NotFound` exactly when
    /// no article has it, and in no other way.
    pub fn get(&self, id: i64) -> (result: Result<Article, StoreError>)
        ensures
            well_formed(self@, self.last_id()),
            result == match lookup(self@, id) {
                Some(article) => Ok::<Article, StoreError>(article),
                None => Err(StoreError::NotFound),
            },
    {
        match self.find(id) {
            Some(k) => Ok(self.records[k].clone()),
            None => Err(StoreError::NotFound),
        }
    }

    /// Merges `patch` into the article with this id, as one step, and sets
    /// its update time to `now`. Fails with `NotFound` exactly when no
    /// article has the id, and with `StorageFailure` exactly when the one
    /// that has it was created after `now`: a record that was updated before
    /// it was created cannot be stored. A failed update changes nothing.
    pub fn update(&mut self, id: i64, patch: UpdateArticle, now: Timestamp) -> (result: Result<
        (),
        StoreError,
    >)
        ensures
            well_formed(final(self)@, final(self).last_id()),
            final(self).last_id() == old(self).last_id(),
            final(self)@ == updated(old(self)@, id, patch, now),
            result == if !holds(old(self)@, id) {
                Err::<(), StoreError>(StoreError::NotFound)
            } else if !storable(old(self)@, id, now) {
                Err(StoreError::StorageFailure)
            } else {
                Ok(())
            },
    {
        match self.find(id) {
            Some(k) => {
                if self.records[k].created_seconds > now.seconds {
                    return Err(StoreError::StorageFailure);
                }
                let mut records: Vec<Article> = Vec::new();
                std::mem::swap(&mut records, &mut self.records);
                let mut article = records.remove(k);
                article.apply(patch, now);
                records.insert(k, article);
                proof {
                    assert(records@ =~= old(self)@.update(
                        k as int,
                        patch.merged(old(self)@[k as int], now),
                    ));
                    lemma_updated_well_formed(old(self)@, old(self).last_id(), id, patch, now);
                }
                self.records = records;
                Ok(())
            },
            None => Err(StoreError::NotFound),
        }
    }

    /// Removes the article with this id for good. Fails with `NotFound`, and
    /// changes nothing, exactly when no article has the id.
    pub fn delete(&mut self, id: i64) -> (result: Result<(), StoreError>)
        ensures
            well_formed(final(self)@, final(self).last_id()),
            final(self).last_id() == old(self).last_id(),
            final(self)@ == removed(old(self)@, id),
            result == if holds(old(self)@, id) {
                Ok::<(), StoreError>(())
            } else {
                Err(StoreError::NotFound)
            },
    {
        match self.find(id) {
            Some(k) => {
                let mut records: Vec<Article> = Vec::new();
                std::mem::swap(&mut records, &mut self.records);
                records.remove(k);
                proof {
                    lemma_removed_well_formed(old(self)@, old(self).last_id(), id);
                }
                self.records = records;
                Ok(())
            },
            None => Err(StoreError::NotFound),
        }
    }

    /// All articles, newest first; articles of one creation time in the
    /// order of their insertion. An empty store gives an empty list.
    pub fn list_full(&self) -> (listed: Vec<Article>)
        ensures
            well_formed(self@, self.last_id()),
            listed@ == listing(self@),
            listed@.len() == self@.len(),
            listed@.to_multiset() =~= self@.to_multiset(),
            newest_first(listed@),
            in_listing_order(listed@),
    {
        proof {
            use_type_invariant(self);
            lemma_listing_len(self.records@);
            lemma_listing_rearranges(self.records@);
            lemma_listing_newest_first(self.records@);
            lemma_listing_in_order(self.records@);
        }
        list(&self.records)
    }

    /// The list projections of all articles, in the order of `list_full`.
    pub fn list_summaries(&self) -> (listed: Vec<ListArticle>)
        ensures
            well_formed(self@, self.last_id()),
            listed@ == listing(self@).map_values(|article: Article| article.summary()),
            listed@.len() == self@.len(),
            forall|i: int, j: int|
                0 <= i < j < listed@.len() ==> (#[trigger] listed@[i]).created_seconds >= (
                #[trigger] listed@[j]).created_seconds,
    {
        proof {
            use_type_invariant(self);
            lemma_summaries_newest_first(self.records@);
        }
        let full = list(&self.records);
        let mut listed: Vec<ListArticle> = Vec::new();
        let mut i: usize = 0;
        while i < full.len()
            invariant
                0 <= i <= full.len(),
                listed@ == full@.take(i as int).map_values(|article: Article| article.summary()),
            decreases full.len() - i,
        {
            listed.push(full[i].summarize());
            proof {
                assert(full@.take(i as int + 1) =~= full@.take(i as int).push(full@[i as int]));
                assert(listed@ =~= full@.take(i as int + 1).map_values(
                    |article: Article| article.summary(),
                ));
            }
            i += 1;
        }
        assert(full@.take(full.len() as int) =~= full@);
        listed
    }
}

/// An update keeps the records well formed.
pub proof fn lemma_updated_well_formed(
    records: Seq<Article>,
    last_id: int,
    id: i64,
    patch: UpdateArticle,
    now: Timestamp,
)
    requires
        well_formed(records, last_id),
    ensures
        well_formed(updated(records, id, patch, now), last_id),
{
    let after = updated(records, id, patch, now);
    if storable(records, id, now) {
        let p = position(records, id);
        assert forall|i: int, j: int| 0 <= i < j < after.len() implies (#[trigger] after[i]).id < (
        #[trigger] after[j]).id by {
            assert(after[i].id == records[i].id);
            assert(after[j].id == records[j].id);
        }
        assert forall|k: int| 0 <= k < after.len() implies 1 <= (#[trigger] after[k]).id <= last_id
            && after[k].valid() by {
            assert(after[k].id == records[k].id);
            assert(records[k].valid());
        }
    }
}

/// A delete keeps the records well formed.
pub proof fn lemma_removed_well_formed(records: Seq<Article>, last_id: int, id: i64)
    requires
        well_formed(records, last_id),
    ensures
        well_formed(removed(records, id), last_id),
{
    let after = removed(records, id);
    if holds(records, id) {
        let p = position(records, id);
        assert forall|i: int, j: int| 0 <= i < j < after.len() implies (#[trigger] after[i]).id < (
        #[trigger] after[j]).id by {
            let oi = if i < p { i } else { i + 1 };
            let oj = if j < p { j } else { j + 1 };
            assert(after[i] == records[oi]);
            assert(after[j] == records[oj]);
        }
        assert forall|k: int| 0 <= k < after.len() implies 1 <= (#[trigger] after[k]).id <= last_id
            && after[k].valid() by {
            let ok = if k < p { k } else { k + 1 };
            assert(after[k] == records[ok]);
        }
    }
}

/// Creating and then fetching: the new article is found under the id that
/// was returned, exactly as it was asked for and with equal creation and
/// update times; every other id gives what it gave before.
pub proof fn lemma_create_then_get(
    records: Seq<Article>,
    last_id: int,
    item: CreateArticle,
    now: Timestamp,
)
    requires
        well_formed(records, last_id),
        last_id < i64::MAX,
    ensures
        ({
            let id = (last_id + 1) as i64;
            let created = item.record(id, now);
            let after = records.push(created);
            &&& well_formed(after, id as int)
            &&& !holds(records, id)
            &&& lookup(after, id) == Some(created)
            &&& created.title == Some(item.title)
            &&& created.content == Some(item.content)
            &&& created.is_draft == item.is_draft
            &&& created.thumbnail == item.thumbnail
            &&& created.created_at == Some(now.text)
            &&& created.updated_at == created.created_at
            &&& created.created_seconds == now.seconds
            &&& created.updated_seconds == created.created_seconds
            &&& forall|other: i64| other != id ==> lookup(after, other) == lookup(records, other)
        }),
{
    let id = (last_id + 1) as i64;
    let created = item.record(id, now);
    let after = records.push(created);
    assert(after[records.len() as int] == created);
    assert forall|i: int, j: int| 0 <= i < j < after.len() implies (#[trigger] after[i]).id < (
    #[trigger] after[j]).id by {
        assert(after[i] == records[i]);
        if j < records.len() {
            assert(after[j] == records[j]);
        }
    }
    assert forall|k: int| 0 <= k < after.len() implies 1 <= (#[trigger] after[k]).id <= id
        && after[k].valid() by {
        if k < records.len() {
            assert(after[k] == records[k]);
        }
    }
    lemma_position(after, id, records.len() as int);
    assert forall|other: i64| other != id implies lookup(after, other) == lookup(
        records,
        other,
    ) by {
        if holds(records, other) {
            let k = position(records, other);
            assert(after[k] == records[k]);
            lemma_position(after, other, k);
        } else if holds(after, other) {
            let k = position(after, other);
            assert(after[k] == records[k]);
        }
    }
}

/// Updating and then fetching: the article is still there under its id;
/// each field that the request did not supply is as it was, each supplied
/// one is as supplied; id and creation time stay; the update time is `now`,
/// also where the request supplies nothing; every other id gives what it
/// gave before.
pub proof fn lemma_update_then_get(
    records: Seq<Article>,
    last_id: int,
    id: i64,
    patch: UpdateArticle,
    now: Timestamp,
)
    requires
        well_formed(records, last_id),
        storable(records, id, now),
    ensures
        ({
            let before = lookup(records, id)->0;
            let after = updated(records, id, patch, now);
            let found = lookup(after, id)->0;
            &&& well_formed(after, last_id)
            &&& lookup(after, id) is Some
            &&& found == patch.merged(before, now)
            &&& patch.title is None ==> found.title == before.title
            &&& patch.content is None ==> found.content == before.content
            &&& patch.is_draft is None ==> found.is_draft == before.is_draft
            &&& patch.thumbnail is None ==> found.thumbnail == before.thumbnail
            &&& patch.title is Some ==> found.title == patch.title
            &&& patch.content is Some ==> found.content == patch.content
            &&& patch.is_draft is Some ==> found.is_draft == patch.is_draft->0
            &&& patch.thumbnail is Some ==> found.thumbnail == patch.thumbnail
            &&& found.id == id
            &&& found.created_at == before.created_at
            &&& found.created_seconds == before.created_seconds
            &&& found.updated_at == Some(now.text)
            &&& found.updated_seconds == now.seconds
            &&& forall|other: i64| other != id ==> lookup(after, other) == lookup(records, other)
        }),
{
    let p = position(records, id);
    let after = updated(records, id, patch, now);
    lemma_updated_well_formed(records, last_id, id, patch, now);
    lemma_position(after, id, p);
    assert forall|other: i64| other != id implies lookup(after, other) == lookup(
        records,
        other,
    ) by {
        if holds(records, other) {
            let k = position(records, other);
            assert(after[k] == records[k]);
            lemma_position(after, other, k);
        } else if holds(after, other) {
            let k = position(after, other);
            assert(after[k].id == records[k].id);
        }
    }
}

/// Where the clock has not gone back since the article was last stored, an
/// update is taken and the update time does not get earlier.
pub proof fn lemma_update_time_not_earlier(
    records: Seq<Article>,
    last_id: int,
    id: i64,
    patch: UpdateArticle,
    now: Timestamp,
)
    requires
        well_formed(records, last_id),
        holds(records, id),
        now.seconds >= (lookup(records, id)->0).updated_seconds,
    ensures
        storable(records, id, now),
        (lookup(updated(records, id, patch, now), id)->0).updated_seconds >= (lookup(
            records,
            id,
        )->0).updated_seconds,
{
    let p = position(records, id);
    assert(records[p].valid());
    lemma_update_then_get(records, last_id, id, patch, now);
}

/// An update at a time before the article's creation is not taken: the
/// records stay as they are.
pub proof fn lemma_update_before_creation(
    records: Seq<Article>,
    id: i64,
    patch: UpdateArticle,
    now: Timestamp,
)
    requires
        holds(records, id),
        now.seconds < (lookup(records, id)->0).created_seconds,
    ensures
        !storable(records, id, now),
        updated(records, id, patch, now) == records,
{
}

/// An id that the store never gave out is not found.
pub proof fn lemma_never_created(records: Seq<Article>, last_id: int, id: i64)
    requires
        well_formed(records, last_id),
        id < 1 || id > last_id,
    ensures
        lookup(records, id) is None,
{
}

/// After a delete the id is not found, so a second delete changes nothing
/// and meets no article; every other id gives what it gave before.
pub proof fn lemma_delete_then_get(records: Seq<Article>, last_id: int, id: i64)
    requires
        well_formed(records, last_id),
    ensures
        ({
            let after = removed(records, id);
            &&& well_formed(after, last_id)
            &&& !holds(after, id)
            &&& lookup(after, id) is None
            &&& removed(after, id) == after
            &&& forall|other: i64| other != id ==> lookup(after, other) == lookup(records, other)
        }),
{
    let after = removed(records, id);
    lemma_removed_well_formed(records, last_id, id);
    if holds(records, id) {
        let p = position(records, id);
        lemma_position(records, id, p);
        assert forall|k: int| 0 <= k < after.len() implies (#[trigger] after[k]).id != id by {
            let ok = if k < p { k } else { k + 1 };
            assert(after[k] == records[ok]);
            if ok < p {
                assert(records[ok].id < records[p].id);
            } else {
                assert(records[p].id < records[ok].id);
            }
        }
        assert forall|other: i64| other != id implies lookup(after, other) == lookup(
            records,
            other,
        ) by {
            if holds(records, other) {
                let k = position(records, other);
                let nk = if k < p { k } else { k - 1 };
                assert(after[nk] == records[k]);
                lemma_position(after, other, nk);
            } else if holds(after, other) {
                let k = position(after, other);
                let ok = if k < p { k } else { k + 1 };
                assert(after[k] == records[ok]);
            }
        }
    }
}

/// An id that was given out and is not found, because its article was
/// deleted, is not found after any further create, update or delete either.
pub proof fn lemma_absent_stays_absent(
    records: Seq<Article>,
    last_id: int,
    id: i64,
    item: CreateArticle,
    other: i64,
    patch: UpdateArticle,
    now: Timestamp,
)
    requires
        well_formed(records, last_id),
        last_id < i64::MAX,
        id <= last_id,
        !holds(records, id),
    ensures
        !holds(records.push(item.record((last_id + 1) as i64, now)), id),
        !holds(updated(records, other, patch, now), id),
        !holds(removed(records, other), id),
{
    let created = records.push(item.record((last_id + 1) as i64, now));
    assert forall|k: int| 0 <= k < created.len() implies (#[trigger] created[k]).id != id by {
        if k < records.len() {
            assert(created[k] == records[k]);
        }
    }
    let changed = updated(records, other, patch, now);
    assert forall|k: int| 0 <= k < changed.len() implies (#[trigger] changed[k]).id != id by {
        assert(changed[k].id == records[k].id);
    }
    let fewer = removed(records, other);
    if holds(records, other) {
        let p = position(records, other);
        assert forall|k: int| 0 <= k < fewer.len() implies (#[trigger] fewer[k]).id != id by {
            let ok = if k < p { k } else { k + 1 };
            assert(fewer[k] == records[ok]);
        }
    }
}

/// An id is never given twice: the id of the next article differs from the
/// id of every article that was ever stored, deleted or not.
pub proof fn lemma_ids_not_reused(records: Seq<Article>, last_id: int, id: i64)
    requires
        well_formed(records, last_id),
        last_id < i64::MAX,
        1 <= id <= last_id,
    ensures
        (last_id + 1) as i64 != id,
        !holds(records, (last_id + 1) as i64),
        !holds(removed(records, id), (last_id + 1) as i64),
{
    lemma_removed_well_formed(records, last_id, id);
}

} // verus!
