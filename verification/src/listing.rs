//! The order in which articles are listed: newest first, and among articles
//! of one creation time the one that was inserted first.

use crate::article::Article;
use vstd::prelude::*;

verus! {

/// `a` stands before `b` in a listing: it is newer, or as new with the smaller
/// id.
pub open spec fn precedes(a: Article, b: Article) -> bool {
    a.created_seconds > b.created_seconds || (a.created_seconds == b.created_seconds && a.id < b.id)
}

/// Creation times never increase along the sequence.
pub open spec fn newest_first(listed: Seq<Article>) -> bool {
    forall|i: int, j: int|
        0 <= i < j < listed.len() ==> (#[trigger] listed[i]).created_seconds >= (
        #[trigger] listed[j]).created_seconds
}

/// Every article stands before all that follow it.
pub open spec fn in_listing_order(listed: Seq<Article>) -> bool {
    forall|i: int, j: int|
        0 <= i < j < listed.len() ==> precedes(#[trigger] listed[i], #[trigger] listed[j])
}

/// Ids grow along the sequence, so none occurs twice.
pub open spec fn ids_ascend(records: Seq<Article>) -> bool {
    forall|i: int, j: int|
        0 <= i < j < records.len() ==> (#[trigger] records[i]).id < (#[trigger] records[j]).id
}

/// How many articles at the head of `listed` were created at `time` or later.
pub open spec fn rank(listed: Seq<Article>, time: u64) -> int
    decreases listed.len(),
{
    if listed.len() == 0 || listed[0].created_seconds < time {
        0
    } else {
        1 + rank(listed.drop_first(), time)
    }
}

/// `listed` with `article` put behind the leading articles that are at least
/// as new.
pub open spec fn placed(listed: Seq<Article>, article: Article) -> Seq<Article> {
    listed.insert(rank(listed, article.created_seconds), article)
}

/// The listing of `records`, which are in insertion order: each record in
/// turn is put behind the listed ones that are at least as new.
pub open spec fn listing(records: Seq<Article>) -> Seq<Article>
    decreases records.len(),
{
    if records.len() == 0 {
        Seq::empty()
    } else {
        placed(listing(records.drop_last()), records.last())
    }
}

/// The rank is a position of the sequence; everything before it is at least
/// as new as `time`, and what stands at it is older.
pub proof fn lemma_rank(listed: Seq<Article>, time: u64)
    ensures
        0 <= rank(listed, time) <= listed.len(),
        forall|k: int| 0 <= k < rank(listed, time) ==> (#[trigger] listed[k]).created_seconds >= time,
        rank(listed, time) < listed.len() ==> listed[rank(listed, time)].created_seconds < time,
    decreases listed.len(),
{
    if listed.len() == 0 || listed[0].created_seconds < time {
    } else {
        let rest = listed.drop_first();
        lemma_rank(rest, time);
        assert forall|k: int| 0 <= k < rank(listed, time) implies (
        #[trigger] listed[k]).created_seconds >= time by {
            if k > 0 {
                assert(listed[k] == rest[k - 1]);
            }
        }
        if rank(listed, time) < listed.len() {
            assert(listed[rank(listed, time)] == rest[rank(rest, time)]);
        }
    }
}

/// A position with nothing older before it and something older at it, or the
/// end, is the rank.
pub proof fn lemma_rank_found(listed: Seq<Article>, time: u64, position: int)
    requires
        0 <= position <= listed.len(),
        forall|k: int| 0 <= k < position ==> (#[trigger] listed[k]).created_seconds >= time,
        position < listed.len() ==> listed[position].created_seconds < time,
    ensures
        rank(listed, time) == position,
    decreases position,
{
    if position > 0 {
        let rest = listed.drop_first();
        assert(listed[0].created_seconds >= time);
        assert forall|k: int| 0 <= k < position - 1 implies (#[trigger] rest[k]).created_seconds
            >= time by {
            assert(rest[k] == listed[k + 1]);
        }
        lemma_rank_found(rest, time, position - 1);
    }
}

/// Placing an article keeps a listing newest first.
pub proof fn lemma_placed_newest_first(listed: Seq<Article>, article: Article)
    requires
        newest_first(listed),
    ensures
        newest_first(placed(listed, article)),
{
    let p = rank(listed, article.created_seconds);
    let out = placed(listed, article);
    lemma_rank(listed, article.created_seconds);
    assert forall|i: int, j: int| 0 <= i < j < out.len() implies (#[trigger] out[i]).created_seconds >= (
    #[trigger] out[j]).created_seconds by {
        if j == p {
            assert(out[i] == listed[i]);
        } else if i == p {
            assert(out[j] == listed[j - 1]);
            assert(listed[p].created_seconds < article.created_seconds);
            if j - 1 > p {
                assert(listed[p].created_seconds >= listed[j - 1].created_seconds);
            }
        } else {
            let oi = if i < p { i } else { i - 1 };
            let oj = if j < p { j } else { j - 1 };
            assert(out[i] == listed[oi]);
            assert(out[j] == listed[oj]);
            assert(listed[oi].created_seconds >= listed[oj].created_seconds);
        }
    }
}

/// Placing an article whose id is larger than every listed one keeps the
/// listing order.
pub proof fn lemma_placed_in_order(listed: Seq<Article>, article: Article)
    requires
        in_listing_order(listed),
        forall|k: int| 0 <= k < listed.len() ==> (#[trigger] listed[k]).id < article.id,
    ensures
        in_listing_order(placed(listed, article)),
{
    let p = rank(listed, article.created_seconds);
    let out = placed(listed, article);
    lemma_rank(listed, article.created_seconds);
    assert forall|i: int, j: int| 0 <= i < j < out.len() implies precedes(
        #[trigger] out[i],
        #[trigger] out[j],
    ) by {
        if j == p {
            assert(out[i] == listed[i]);
        } else if i == p {
            assert(out[j] == listed[j - 1]);
            assert(listed[p].created_seconds < article.created_seconds);
            if j - 1 > p {
                assert(precedes(listed[p], listed[j - 1]));
            }
        } else {
            let oi = if i < p { i } else { i - 1 };
            let oj = if j < p { j } else { j - 1 };
            assert(out[i] == listed[oi]);
            assert(out[j] == listed[oj]);
            assert(precedes(listed[oi], listed[oj]));
        }
    }
}

/// Placing an article adds that article and nothing else.
pub proof fn lemma_placed_adds(listed: Seq<Article>, article: Article)
    ensures
        placed(listed, article).len() == listed.len() + 1,
        placed(listed, article).to_multiset() =~= listed.to_multiset().insert(article),
{
    broadcast use vstd::seq_lib::group_to_multiset_ensures;

    let p = rank(listed, article.created_seconds);
    let out = placed(listed, article);
    lemma_rank(listed, article.created_seconds);
    assert(out[p] == article);
    assert(out.remove(p) =~= listed);
    assert(out.remove(p).to_multiset() =~= out.to_multiset().remove(article));
    assert(out.contains(article));
    assert(out.to_multiset().count(article) > 0);
    assert(out.to_multiset() =~= out.to_multiset().remove(article).insert(article));
}

/// A listing has as many articles as there are records.
pub proof fn lemma_listing_len(records: Seq<Article>)
    ensures
        listing(records).len() == records.len(),
    decreases records.len(),
{
    if records.len() > 0 {
        lemma_listing_len(records.drop_last());
        lemma_placed_adds(listing(records.drop_last()), records.last());
    }
}

/// A listing rearranges the records: each occurs in it as often as among
/// them.
pub proof fn lemma_listing_rearranges(records: Seq<Article>)
    ensures
        listing(records).to_multiset() =~= records.to_multiset(),
    decreases records.len(),
{
    broadcast use vstd::seq_lib::group_to_multiset_ensures;

    if records.len() == 0 {
        assert(records =~= Seq::<Article>::empty());
    } else {
        lemma_listing_rearranges(records.drop_last());
        lemma_placed_adds(listing(records.drop_last()), records.last());
        assert(records =~= records.drop_last().push(records.last()));
        assert(records.to_multiset() =~= records.drop_last().to_multiset().insert(
            records.last(),
        ));
    }
}

/// Whatever the times and the order of insertion, a listing never goes from
/// an older article to a newer one.
pub proof fn lemma_listing_newest_first(records: Seq<Article>)
    ensures
        newest_first(listing(records)),
    decreases records.len(),
{
    if records.len() > 0 {
        lemma_listing_newest_first(records.drop_last());
        lemma_placed_newest_first(listing(records.drop_last()), records.last());
    }
}

/// Where ids grow with insertion, articles of one creation time are listed in
/// the order of their insertion: the whole listing is in listing order.
pub proof fn lemma_listing_in_order(records: Seq<Article>)
    requires
        ids_ascend(records),
    ensures
        in_listing_order(listing(records)),
    decreases records.len(),
{
    broadcast use vstd::seq_lib::group_to_multiset_ensures;

    if records.len() > 0 {
        let front = records.drop_last();
        let listed = listing(front);
        lemma_listing_in_order(front);
        lemma_listing_rearranges(front);
        assert forall|k: int| 0 <= k < listed.len() implies (#[trigger] listed[k]).id
            < records.last().id by {
            assert(listed.contains(listed[k]));
            assert(listed.to_multiset().count(listed[k]) > 0);
            assert(front.contains(listed[k]));
            let m = choose|m: int| 0 <= m < front.len() && front[m] == listed[k];
            assert(records[m] == front[m]);
        }
        lemma_placed_in_order(listed, records.last());
    }
}

/// Two rearrangements of the same articles that are both in listing order
/// are the same sequence.
pub proof fn lemma_order_decides(first: Seq<Article>, second: Seq<Article>)
    requires
        in_listing_order(first),
        in_listing_order(second),
        first.to_multiset() =~= second.to_multiset(),
    ensures
        first == second,
    decreases first.len(),
{
    broadcast use vstd::seq_lib::group_to_multiset_ensures;

    assert(first.len() == first.to_multiset().len());
    assert(second.len() == second.to_multiset().len());
    if first.len() > 0 {
        assert(first.contains(first[0]));
        assert(second.to_multiset().count(first[0]) > 0);
        assert(second.contains(first[0]));
        let j = choose|j: int| 0 <= j < second.len() && second[j] == first[0];
        assert(second.contains(second[0]));
        assert(first.to_multiset().count(second[0]) > 0);
        assert(first.contains(second[0]));
        let i = choose|i: int| 0 <= i < first.len() && first[i] == second[0];
        if j > 0 {
            assert(precedes(second[0], second[j]));
            if i > 0 {
                assert(precedes(first[0], first[i]));
            }
        }
        assert(first[0] == second[0]);
        let first_rest = first.remove(0);
        let second_rest = second.remove(0);
        assert(first_rest.to_multiset() =~= first.to_multiset().remove(first[0]));
        assert(second_rest.to_multiset() =~= second.to_multiset().remove(second[0]));
        assert forall|m: int, n: int| 0 <= m < n < first_rest.len() implies precedes(
            #[trigger] first_rest[m],
            #[trigger] first_rest[n],
        ) by {
            assert(first_rest[m] == first[m + 1]);
            assert(first_rest[n] == first[n + 1]);
        }
        assert forall|m: int, n: int| 0 <= m < n < second_rest.len() implies precedes(
            #[trigger] second_rest[m],
            #[trigger] second_rest[n],
        ) by {
            assert(second_rest[m] == second[m + 1]);
            assert(second_rest[n] == second[n + 1]);
        }
        lemma_order_decides(first_rest, second_rest);
        assert forall|k: int| 0 <= k < first.len() implies first[k] == second[k] by {
            if k > 0 {
                assert(first[k] == first_rest[k - 1]);
                assert(second[k] == second_rest[k - 1]);
            }
        }
    }
    assert(first =~= second);
}

/// Where ids grow with insertion, the listing is the one rearrangement of
/// the records that is in listing order.
pub proof fn lemma_listing_unique(records: Seq<Article>, other: Seq<Article>)
    requires
        ids_ascend(records),
        other.to_multiset() =~= records.to_multiset(),
        in_listing_order(other),
    ensures
        other == listing(records),
{
    lemma_listing_rearranges(records);
    lemma_listing_in_order(records);
    lemma_order_decides(other, listing(records));
}

/// The list projections of a listing are newest first as well, and as many
/// as the records.
pub proof fn lemma_summaries_newest_first(records: Seq<Article>)
    ensures
        ({
            let summaries = listing(records).map_values(|article: Article| article.summary());
            &&& summaries.len() == records.len()
            &&& forall|i: int, j: int|
                0 <= i < j < summaries.len() ==> (#[trigger] summaries[i]).created_seconds >= (
                #[trigger] summaries[j]).created_seconds
        }),
{
    let listed = listing(records);
    let summaries = listed.map_values(|article: Article| article.summary());
    lemma_listing_len(records);
    lemma_listing_newest_first(records);
    assert forall|i: int, j: int| 0 <= i < j < summaries.len() implies (
    #[trigger] summaries[i]).created_seconds >= (#[trigger] summaries[j]).created_seconds by {
        assert(summaries[i] == listed[i].summary());
        assert(summaries[j] == listed[j].summary());
        assert(listed[i].created_seconds >= listed[j].created_seconds);
    }
}

/// Lists `records`, which are in insertion order.
pub fn list(records: &Vec<Article>) -> (listed: Vec<Article>)
    ensures
        listed@ == listing(records@),
{
    let mut listed: Vec<Article> = Vec::new();
    let mut i: usize = 0;
    assert(records@.take(0) =~= Seq::<Article>::empty());
    while i < records.len()
        invariant
            0 <= i <= records.len(),
            listed@ == listing(records@.take(i as int)),
        decreases records.len() - i,
    {
        let article = records[i].clone();
        let mut position: usize = 0;
        proof {
            lemma_listing_len(records@.take(i as int));
        }
        while position < listed.len() && listed[position].created_seconds >= article.created_seconds
            invariant
                0 <= position <= listed.len(),
                forall|k: int|
                    0 <= k < position ==> (#[trigger] listed@[k]).created_seconds >= article.created_seconds,
            decreases listed.len() - position,
        {
            position += 1;
        }
        proof {
            lemma_rank_found(listed@, article.created_seconds, position as int);
            let upto = records@.take(i as int + 1);
            assert(upto.drop_last() =~= records@.take(i as int));
            assert(upto.last() == records@[i as int]);
        }
        listed.insert(position, article);
        i += 1;
    }
    assert(records@.take(records.len() as int) =~= records@);
    listed
}

} // verus!
