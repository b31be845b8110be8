//! What holds of the record store across calls, stated over its model.

use vstd::prelude::*;
use vstd::seq_lib::*;
use crate::database::PullMode;
use crate::store_model::{
    cleared, lemma_filter_keeps_all, is_snapshot, replaced_all, rows_of, selected, stamped, stamped_all, sync_accepted,
    synced, unselected, upserted, upserted_all, watermark_or_zero, StoreView,
};
use crate::models::{AccountRecordView, CacheDataView};

verus! {

proof fn lemma_filter_none(rows: Seq<AccountRecordView>, keep: spec_fn(AccountRecordView) -> bool)
    requires
        forall|k: int| 0 <= k < rows.len() ==> !keep(#[trigger] rows[k]),
    ensures
        rows.filter(keep) == Seq::<AccountRecordView>::empty(),
    decreases rows.len(),
{
    reveal(Seq::filter);
    if rows.len() > 0 {
        let front = rows.drop_last();
        assert forall|k: int| 0 <= k < front.len() implies !keep(#[trigger] front[k]) by {
            assert(front[k] == rows[k]);
        }
        lemma_filter_none(front, keep);
        assert(!keep(rows[rows.len() - 1]));
    } else {
        assert(rows =~= Seq::<AccountRecordView>::empty());
    }
}

/// The rows of other users hold none of `owner`.
proof fn lemma_others(rows: Seq<AccountRecordView>, owner: Seq<char>)
    ensures
        rows_of(rows.filter(unselected(owner, None)), owner) == Seq::<AccountRecordView>::empty(),
{
    let others = rows.filter(unselected(owner, None));
    assert forall|k: int| 0 <= k < others.len() implies !(selected(owner, None))(
        #[trigger] others[k],
    ) by {
        rows.lemma_filter_pred(unselected(owner, None), k);
    }
    lemma_filter_none(others, selected(owner, None));
}

/// Deleting a key of `owner` from the rows of other users deletes nothing.
proof fn lemma_others_lack_key(rows: Seq<AccountRecordView>, owner: Seq<char>, rid: int)
    ensures
        rows.filter(unselected(owner, None)).filter(unselected(owner, Some(rid))) == rows.filter(
            unselected(owner, None),
        ),
{
    let others = rows.filter(unselected(owner, None));
    assert forall|k: int| 0 <= k < others.len() implies (unselected(owner, Some(rid)))(
        #[trigger] others[k],
    ) by {
        rows.lemma_filter_pred(unselected(owner, None), k);
    }
    lemma_filter_keeps_all(others, unselected(owner, Some(rid)));
}

/// Replacing the rows of `owner` by the single record `a`.
proof fn lemma_single_replace(rows: Seq<AccountRecordView>, owner: Seq<char>, a: AccountRecordView)
    ensures
        replaced_all(rows, owner, seq![a]) == rows.filter(unselected(owner, None)).push(
            stamped(a, owner),
        ),
{
    let others = rows.filter(unselected(owner, None));
    let fresh = stamped_all(seq![a], owner);
    assert(fresh.len() == 1);
    assert(fresh[0] == stamped(a, owner));
    assert(others + fresh =~= others.push(stamped(a, owner)));
}

/// Upserting `b` into the rows of the other users followed by `a`.
proof fn lemma_upsert_after(
    others: Seq<AccountRecordView>,
    owner: Seq<char>,
    a: AccountRecordView,
    b: AccountRecordView,
)
    requires
        others.filter(unselected(owner, Some(b.rid))) == others,
    ensures
        a.rid == b.rid ==> upserted(others.push(stamped(a, owner)), stamped(b, owner))
            == others.push(stamped(b, owner)),
        a.rid != b.rid ==> upserted(others.push(stamped(a, owner)), stamped(b, owner))
            == others.push(stamped(a, owner)).push(stamped(b, owner)),
{
    let beside = unselected(owner, Some(b.rid));
    others.lemma_filter_push(stamped(a, owner), beside);
    assert(beside(stamped(a, owner)) == (a.rid != b.rid));
}

/// What a full synchronisation with `a` and then an incremental one with `b` leave in the
/// table: the rows of the other users, then `a` unless `b` has its id, then `b`.
proof fn lemma_full_then_increment(
    rows: Seq<AccountRecordView>,
    owner: Seq<char>,
    a: AccountRecordView,
    b: AccountRecordView,
)
    ensures
        a.rid == b.rid ==> upserted_all(replaced_all(rows, owner, seq![a]), owner, seq![b])
            == rows.filter(unselected(owner, None)).push(stamped(b, owner)),
        a.rid != b.rid ==> upserted_all(replaced_all(rows, owner, seq![a]), owner, seq![b])
            == rows.filter(unselected(owner, None)).push(stamped(a, owner)).push(
            stamped(b, owner),
        ),
{
    let others = rows.filter(unselected(owner, None));
    lemma_single_replace(rows, owner, a);
    lemma_single_upsert(others.push(stamped(a, owner)), owner, b);
    lemma_others_lack_key(rows, owner, b.rid);
    lemma_upsert_after(others, owner, a, b);
}

/// The rows of `owner` among those of the other users followed by rows of theirs.
proof fn lemma_rows_of_push(
    rows: Seq<AccountRecordView>,
    owner: Seq<char>,
    r: AccountRecordView,
)
    requires
        r.username == owner,
    ensures
        rows_of(rows.push(r), owner) == rows_of(rows, owner).push(r),
{
    rows.lemma_filter_push(r, selected(owner, None));
}

/// A full synchronisation that brings no record leaves the user with an empty snapshot that
/// carries the new watermark: the watermark is stored, none of their rows is left, and
/// every snapshot of theirs holds no record. (With a watermark of zero the store reports
/// no snapshot at all.)
pub proof fn law_full_sync_of_nothing(
    s: StoreView,
    owner: Seq<char>,
    watermark: int,
    d: CacheDataView,
)
    requires
        s.ready,
        watermark != 0,
        is_snapshot(
            d,
            synced(s, owner, watermark, Seq::<AccountRecordView>::empty(), PullMode::PullAll),
            owner,
        ),
    ensures
        sync_accepted(s, Seq::<AccountRecordView>::empty(), PullMode::PullAll),
        watermark_or_zero(
            synced(s, owner, watermark, Seq::<AccountRecordView>::empty(), PullMode::PullAll),
            owner,
        ) == watermark,
        rows_of(
            synced(
                s,
                owner,
                watermark,
                Seq::<AccountRecordView>::empty(),
                PullMode::PullAll,
            ).accounts,
            owner,
        ).len() == 0,
        d.accounts.len() == 0,
        d.update_time == watermark,
{
    let nothing = Seq::<AccountRecordView>::empty();
    let after = synced(s, owner, watermark, nothing, PullMode::PullAll);
    lemma_others(s.accounts, owner);
    assert(stamped_all(nothing, owner) =~= nothing);
    assert(after.accounts =~= s.accounts.filter(unselected(owner, None)));
    assert(rows_of(after.accounts, owner) =~= nothing);
}

/// The table after the single record `b` was upserted for `owner`.
proof fn lemma_single_upsert(rows: Seq<AccountRecordView>, owner: Seq<char>, b: AccountRecordView)
    ensures
        upserted_all(rows, owner, seq![b]) == upserted(rows, stamped(b, owner)),
{
    let one = seq![b];
    assert(one.len() == 1);
    assert(one.last() == b);
    assert(one.drop_last().len() == 0);
    assert(upserted_all(rows, owner, one.drop_last()) == rows);
}

/// A record synchronised incrementally beside one with another id is added: after a full
/// synchronisation with `a` and an incremental one with `b`, the user has exactly the two.
pub proof fn law_incremental_sync_adds(
    s: StoreView,
    owner: Seq<char>,
    w1: int,
    a: AccountRecordView,
    w2: int,
    b: AccountRecordView,
)
    requires
        s.ready,
        a.rid != b.rid,
    ensures
        sync_accepted(s, seq![a], PullMode::PullAll),
        sync_accepted(
            synced(s, owner, w1, seq![a], PullMode::PullAll),
            seq![b],
            PullMode::PullUpdated,
        ),
        rows_of(
            synced(
                synced(s, owner, w1, seq![a], PullMode::PullAll),
                owner,
                w2,
                seq![b],
                PullMode::PullUpdated,
            ).accounts,
            owner,
        ) == seq![stamped(a, owner), stamped(b, owner)],
        rows_of(
            synced(
                synced(s, owner, w1, seq![a], PullMode::PullAll),
                owner,
                w2,
                seq![b],
                PullMode::PullUpdated,
            ).accounts,
            owner,
        ).len() == 2,
{
    let others = s.accounts.filter(unselected(owner, None));
    lemma_full_then_increment(s.accounts, owner, a, b);
    lemma_others(s.accounts, owner);
    lemma_rows_of_push(others, owner, stamped(a, owner));
    lemma_rows_of_push(others.push(stamped(a, owner)), owner, stamped(b, owner));
    assert(Seq::<AccountRecordView>::empty().push(stamped(a, owner)).push(stamped(b, owner))
        =~= seq![stamped(a, owner), stamped(b, owner)]);
}

/// A record synchronised incrementally over one with its own id replaces it: after a full
/// synchronisation with `a` and an incremental one with `b` of the same id, the user has
/// exactly `b`.
pub proof fn law_incremental_sync_overwrites(
    s: StoreView,
    owner: Seq<char>,
    w1: int,
    a: AccountRecordView,
    w2: int,
    b: AccountRecordView,
)
    requires
        s.ready,
        a.rid == b.rid,
    ensures
        sync_accepted(s, seq![a], PullMode::PullAll),
        sync_accepted(
            synced(s, owner, w1, seq![a], PullMode::PullAll),
            seq![b],
            PullMode::PullUpdated,
        ),
        rows_of(
            synced(
                synced(s, owner, w1, seq![a], PullMode::PullAll),
                owner,
                w2,
                seq![b],
                PullMode::PullUpdated,
            ).accounts,
            owner,
        ) == seq![stamped(b, owner)],
        rows_of(
            synced(
                synced(s, owner, w1, seq![a], PullMode::PullAll),
                owner,
                w2,
                seq![b],
                PullMode::PullUpdated,
            ).accounts,
            owner,
        ).len() == 1,
{
    let others = s.accounts.filter(unselected(owner, None));
    lemma_full_then_increment(s.accounts, owner, a, b);
    lemma_others(s.accounts, owner);
    lemma_rows_of_push(others, owner, stamped(b, owner));
    assert(Seq::<AccountRecordView>::empty().push(stamped(b, owner)) =~= seq![
        stamped(b, owner),
    ]);
}

/// A user for whom nothing was synchronised has the watermark zero, and after a
/// synchronisation the watermark is the one that it wrote.
pub proof fn law_watermark_follows_sync(
    s: StoreView,
    owner: Seq<char>,
    watermark: int,
    batch: Seq<AccountRecordView>,
    mode: PullMode,
)
    ensures
        !s.watermarks.contains_key(owner) ==> watermark_or_zero(s, owner) == 0,
        watermark_or_zero(synced(s, owner, watermark, batch, mode), owner) == watermark,
{
}

/// After a clear the user has no watermark, so no snapshot, and none of their rows is left;
/// a second clear changes nothing and is taken like the first.
pub proof fn law_clear_forgets(s: StoreView, owner: Seq<char>)
    ensures
        watermark_or_zero(cleared(s, owner), owner) == 0,
        rows_of(cleared(s, owner).accounts, owner).len() == 0,
        cleared(cleared(s, owner), owner) == cleared(s, owner),
        cleared(s, owner).ready == s.ready,
{
    lemma_others(s.accounts, owner);
    let once = cleared(s, owner);
    let others = s.accounts.filter(unselected(owner, None));
    assert forall|k: int| 0 <= k < others.len() implies (unselected(owner, None))(
        #[trigger] others[k],
    ) by {
        s.accounts.lemma_filter_pred(unselected(owner, None), k);
    }
    lemma_filter_keeps_all(others, unselected(owner, None));
    assert(once.watermarks.remove(owner) =~= once.watermarks);
}

/// An incremental synchronisation that brings no record only advances the watermark.
pub proof fn law_empty_increment_keeps_rows(s: StoreView, owner: Seq<char>, watermark: int)
    ensures
        synced(
            s,
            owner,
            watermark,
            Seq::<AccountRecordView>::empty(),
            PullMode::PullUpdated,
        ).accounts == s.accounts,
        synced(s, owner, watermark, Seq::<AccountRecordView>::empty(), PullMode::PullNothing).accounts
            == s.accounts,
{
}

/// Taking the rows of `other` after deleting rows of `owner` is taking them at once.
proof fn lemma_rows_of_other(
    rows: Seq<AccountRecordView>,
    owner: Seq<char>,
    rid: Option<int>,
    other: Seq<char>,
)
    requires
        other != owner,
    ensures
        rows_of(rows.filter(unselected(owner, rid)), other) == rows_of(rows, other),
    decreases rows.len(),
{
    reveal(Seq::filter);
    if rows.len() > 0 {
        let front = rows.drop_last();
        let last = rows.last();
        lemma_rows_of_other(front, owner, rid, other);
        if (unselected(owner, rid))(last) {
            front.filter(unselected(owner, rid)).lemma_filter_push(last, selected(other, None));
        }
    }
}

proof fn lemma_upserts_leave_other(
    rows: Seq<AccountRecordView>,
    owner: Seq<char>,
    batch: Seq<AccountRecordView>,
    other: Seq<char>,
)
    requires
        other != owner,
    ensures
        rows_of(upserted_all(rows, owner, batch), other) == rows_of(rows, other),
    decreases batch.len(),
{
    if batch.len() > 0 {
        let before = upserted_all(rows, owner, batch.drop_last());
        let r = stamped(batch.last(), owner);
        lemma_upserts_leave_other(rows, owner, batch.drop_last(), other);
        lemma_rows_of_other(before, owner, Some(r.rid), other);
        before.filter(unselected(owner, Some(r.rid))).lemma_filter_push(r, selected(other, None));
    }
}

/// A synchronisation for one user leaves every other user alone: their watermark and their
/// rows are what they were.
pub proof fn law_sync_leaves_other_users(
    s: StoreView,
    owner: Seq<char>,
    watermark: int,
    batch: Seq<AccountRecordView>,
    mode: PullMode,
    other: Seq<char>,
)
    requires
        other != owner,
    ensures
        s.watermarks.contains_key(other) == synced(
            s,
            owner,
            watermark,
            batch,
            mode,
        ).watermarks.contains_key(other),
        watermark_or_zero(synced(s, owner, watermark, batch, mode), other) == watermark_or_zero(
            s,
            other,
        ),
        rows_of(synced(s, owner, watermark, batch, mode).accounts, other) == rows_of(
            s.accounts,
            other,
        ),
{
    match mode {
        PullMode::PullAll => {
            let kept = s.accounts.filter(unselected(owner, None));
            let fresh = stamped_all(batch, owner);
            lemma_rows_of_other(s.accounts, owner, None, other);
            Seq::filter_distributes_over_add(kept, fresh, selected(other, None));
            assert forall|k: int| 0 <= k < fresh.len() implies !(selected(other, None))(
                #[trigger] fresh[k],
            ) by {
                assert(fresh[k] == stamped(batch[k], owner));
            }
            lemma_filter_none(fresh, selected(other, None));
            assert(rows_of(kept, other) + Seq::<AccountRecordView>::empty() =~= rows_of(
                kept,
                other,
            ));
        },
        PullMode::PullUpdated => {
            lemma_upserts_leave_other(s.accounts, owner, batch, other);
        },
        PullMode::PullNothing => {},
    }
}

/// A clear for one user leaves every other user alone.
pub proof fn law_clear_leaves_other_users(s: StoreView, owner: Seq<char>, other: Seq<char>)
    requires
        other != owner,
    ensures
        watermark_or_zero(cleared(s, owner), other) == watermark_or_zero(s, other),
        rows_of(cleared(s, owner).accounts, other) == rows_of(s.accounts, other),
{
    lemma_rows_of_other(s.accounts, owner, None, other);
}

} // verus!
