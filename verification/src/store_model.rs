//! The mathematical model of the record store: what its two tables hold, what each
//! operation makes of them, and the facts about them that the proofs rest on.

use vstd::prelude::*;
use vstd::utf8::encode_utf8;
use crate::database::PullMode;
use crate::models::{AccountRecordView, CacheDataView};

verus! {

/// Model of the store: whether the tables exist, the watermark of each user that has one,
/// and the record table in insertion order.
pub ghost struct StoreView {
    pub ready: bool,
    pub watermarks: Map<Seq<char>, int>,
    pub accounts: Seq<AccountRecordView>,
}

/// No two rows share the primary key (user, record id).
pub open spec fn unique_keys(rows: Seq<AccountRecordView>) -> bool {
    forall|i: int, j: int|
        #![trigger rows[i], rows[j]]
        0 <= i < j < rows.len() ==> !(rows[i].username == rows[j].username && rows[i].rid
            == rows[j].rid)
}

/// Whether `r` belongs to `owner` and, where `rid` is given, carries that record id.
pub open spec fn selects(owner: Seq<char>, rid: Option<int>, r: AccountRecordView) -> bool {
    r.username == owner && (rid matches Some(id) ==> r.rid == id)
}

/// The rows that [`selects`] picks.
pub open spec fn selected(owner: Seq<char>, rid: Option<int>) -> spec_fn(AccountRecordView) -> bool {
    |r: AccountRecordView| selects(owner, rid, r)
}

/// The rows that [`selects`] leaves.
pub open spec fn unselected(owner: Seq<char>, rid: Option<int>) -> spec_fn(
    AccountRecordView,
) -> bool {
    |r: AccountRecordView| !selects(owner, rid, r)
}

/// The rows of `owner`, in table order.
pub open spec fn rows_of(rows: Seq<AccountRecordView>, owner: Seq<char>) -> Seq<
    AccountRecordView,
> {
    rows.filter(selected(owner, None))
}

/// Whether some row carries the key (`owner`, `rid`).
pub open spec fn has_key(rows: Seq<AccountRecordView>, owner: Seq<char>, rid: int) -> bool {
    exists|i: int| 0 <= i < rows.len() && #[trigger] selects(owner, Some(rid), rows[i])
}

/// `r` as it is stored for `owner`: the owner column is the user the call names.
pub open spec fn stamped(r: AccountRecordView, owner: Seq<char>) -> AccountRecordView {
    AccountRecordView { username: owner, ..r }
}

/// A batch as it is stored for `owner`.
pub open spec fn stamped_all(batch: Seq<AccountRecordView>, owner: Seq<char>) -> Seq<
    AccountRecordView,
> {
    batch.map_values(|r: AccountRecordView| stamped(r, owner))
}

/// The record ids of a batch are pairwise different.
pub open spec fn distinct_rids(batch: Seq<AccountRecordView>) -> bool {
    forall|i: int, j: int|
        #![trigger batch[i], batch[j]]
        0 <= i < j < batch.len() ==> batch[i].rid != batch[j].rid
}

/// The table after `r` was inserted or has replaced the row with its key.
pub open spec fn upserted(rows: Seq<AccountRecordView>, r: AccountRecordView) -> Seq<
    AccountRecordView,
> {
    rows.filter(unselected(r.username, Some(r.rid))).push(r)
}

/// The table after each record of `batch`, in order, was upserted for `owner`.
pub open spec fn upserted_all(
    rows: Seq<AccountRecordView>,
    owner: Seq<char>,
    batch: Seq<AccountRecordView>,
) -> Seq<AccountRecordView>
    decreases batch.len(),
{
    if batch.len() == 0 {
        rows
    } else {
        upserted(upserted_all(rows, owner, batch.drop_last()), stamped(batch.last(), owner))
    }
}

/// The table after the rows of `owner` were replaced by `batch`.
pub open spec fn replaced_all(
    rows: Seq<AccountRecordView>,
    owner: Seq<char>,
    batch: Seq<AccountRecordView>,
) -> Seq<AccountRecordView> {
    rows.filter(unselected(owner, None)) + stamped_all(batch, owner)
}

/// Whether `batch` can be inserted for `owner` without meeting an existing key or itself.
pub open spec fn insertable(
    rows: Seq<AccountRecordView>,
    owner: Seq<char>,
    batch: Seq<AccountRecordView>,
) -> bool {
    &&& distinct_rids(batch)
    &&& forall|i: int| 0 <= i < batch.len() ==> !has_key(rows, owner, #[trigger] batch[i].rid)
}

/// Whether inserting `batch` for `owner` stops at its record `n`: those before it can be
/// inserted, it cannot.
pub open spec fn stops_at(
    rows: Seq<AccountRecordView>,
    owner: Seq<char>,
    batch: Seq<AccountRecordView>,
    n: int,
) -> bool {
    &&& 0 <= n < batch.len()
    &&& insertable(rows, owner, batch.take(n))
    &&& !insertable(rows, owner, batch.take(n + 1))
}

/// A selection of rows keeps the primary key unique, and holds only rows of the table that
/// the selection keeps.
pub(crate) proof fn lemma_filter_unique(rows: Seq<AccountRecordView>, keep: spec_fn(AccountRecordView) -> bool)
    requires
        unique_keys(rows),
    ensures
        unique_keys(rows.filter(keep)),
        forall|k: int|
            0 <= k < rows.filter(keep).len() ==> rows.contains(#[trigger] rows.filter(keep)[k])
                && keep(rows.filter(keep)[k]),
    decreases rows.len(),
{
    reveal(Seq::filter);
    if rows.len() > 0 {
        let front = rows.drop_last();
        let kept = front.filter(keep);
        assert forall|i: int, j: int|
            #![trigger front[i], front[j]]
            0 <= i < j < front.len() implies !(front[i].username == front[j].username
            && front[i].rid == front[j].rid) by {
            assert(front[i] == rows[i] && front[j] == rows[j]);
        }
        lemma_filter_unique(front, keep);
        assert forall|k: int| 0 <= k < kept.len() implies rows.contains(#[trigger] kept[k]) by {
            let at = choose|at: int| 0 <= at < front.len() && front[at] == kept[k];
            assert(rows[at] == kept[k]);
        }
        if keep(rows.last()) {
            let out = kept.push(rows.last());
            assert forall|i: int, j: int|
                #![trigger out[i], out[j]]
                0 <= i < j < out.len() implies !(out[i].username == out[j].username && out[i].rid
                == out[j].rid) by {
                if j < kept.len() {
                    assert(out[i] == kept[i] && out[j] == kept[j]);
                } else {
                    let at = choose|at: int| 0 <= at < front.len() && front[at] == kept[i];
                    assert(rows[at] == out[i] && rows[rows.len() - 1] == out[j]);
                }
            }
            assert forall|k: int| 0 <= k < out.len() implies rows.contains(#[trigger] out[k])
                && keep(out[k]) by {
                if k < kept.len() {
                    assert(out[k] == kept[k]);
                } else {
                    assert(rows[rows.len() - 1] == out[k]);
                }
            }
        }
    }
}

/// An upsert keeps the primary key unique.
pub proof fn lemma_upserted_unique(rows: Seq<AccountRecordView>, r: AccountRecordView)
    requires
        unique_keys(rows),
    ensures
        unique_keys(upserted(rows, r)),
{
    let keep = unselected(r.username, Some(r.rid));
    let kept = rows.filter(keep);
    lemma_filter_unique(rows, keep);
    let out = kept.push(r);
    assert forall|i: int, j: int|
        #![trigger out[i], out[j]]
        0 <= i < j < out.len() implies !(out[i].username == out[j].username && out[i].rid
        == out[j].rid) by {
        if j < kept.len() {
            assert(out[i] == kept[i] && out[j] == kept[j]);
        } else {
            assert(keep(kept[i]));
        }
    }
}

/// A batch of upserts keeps the primary key unique.
pub proof fn lemma_upserted_all_unique(
    rows: Seq<AccountRecordView>,
    owner: Seq<char>,
    batch: Seq<AccountRecordView>,
)
    requires
        unique_keys(rows),
    ensures
        unique_keys(upserted_all(rows, owner, batch)),
    decreases batch.len(),
{
    if batch.len() > 0 {
        lemma_upserted_all_unique(rows, owner, batch.drop_last());
        lemma_upserted_unique(
            upserted_all(rows, owner, batch.drop_last()),
            stamped(batch.last(), owner),
        );
    }
}

/// Replacing a user's rows by a batch with distinct record ids keeps the primary key unique.
pub proof fn lemma_replaced_unique(
    rows: Seq<AccountRecordView>,
    owner: Seq<char>,
    batch: Seq<AccountRecordView>,
)
    requires
        unique_keys(rows),
        distinct_rids(batch),
    ensures
        unique_keys(replaced_all(rows, owner, batch)),
{
    let keep = unselected(owner, None);
    let kept = rows.filter(keep);
    lemma_filter_unique(rows, keep);
    let fresh = stamped_all(batch, owner);
    let out = kept + fresh;
    assert forall|i: int, j: int|
        #![trigger out[i], out[j]]
        0 <= i < j < out.len() implies !(out[i].username == out[j].username && out[i].rid
        == out[j].rid) by {
        if j < kept.len() {
            assert(out[i] == kept[i] && out[j] == kept[j]);
        } else if i < kept.len() {
            assert(keep(kept[i]));
            assert(out[j] == stamped(batch[j - kept.len()], owner));
        } else {
            assert(out[i] == stamped(batch[i - kept.len()], owner));
            assert(out[j] == stamped(batch[j - kept.len()], owner));
            assert(batch[i - kept.len()].rid != batch[j - kept.len()].rid);
        }
    }
}

/// Whether the store takes a synchronisation: its tables exist and, where the batch replaces
/// the user's rows, no record id occurs twice in it.
pub open spec fn sync_accepted(s: StoreView, batch: Seq<AccountRecordView>, mode: PullMode) -> bool {
    s.ready && (mode == PullMode::PullAll ==> distinct_rids(batch))
}

/// The store after a synchronisation that it took: the watermark of `owner` is `watermark`,
/// and the record table is merged with `batch` as `mode` says.
pub open spec fn synced(
    s: StoreView,
    owner: Seq<char>,
    watermark: int,
    batch: Seq<AccountRecordView>,
    mode: PullMode,
) -> StoreView {
    StoreView {
        ready: s.ready,
        watermarks: s.watermarks.insert(owner, watermark),
        accounts: match mode {
            PullMode::PullAll => replaced_all(s.accounts, owner, batch),
            PullMode::PullUpdated => upserted_all(s.accounts, owner, batch),
            PullMode::PullNothing => s.accounts,
        },
    }
}

/// What the store answers to a synchronisation that it does not take.
pub open spec fn sync_refusal(s: StoreView) -> Seq<char> {
    if !s.ready {
        "缓存尚未初始化"@
    } else {
        "同一用户的记录 ID 重复"@
    }
}

/// Byte-wise lexicographic order; a proper prefix comes first.
pub open spec fn bytes_le(a: Seq<u8>, b: Seq<u8>) -> bool
    decreases a.len(),
{
    if a.len() == 0 {
        true
    } else if b.len() == 0 {
        false
    } else if a[0] != b[0] {
        a[0] < b[0]
    } else {
        bytes_le(a.drop_first(), b.drop_first())
    }
}

/// The order in which sites are listed: by their UTF-8 bytes.
pub open spec fn site_le(a: Seq<char>, b: Seq<char>) -> bool {
    bytes_le(encode_utf8(a), encode_utf8(b))
}

/// The rows are in ascending order of site.
pub open spec fn sorted_by_site(rows: Seq<AccountRecordView>) -> bool {
    forall|i: int, j: int|
        #![trigger rows[i], rows[j]]
        0 <= i < j < rows.len() ==> site_le(rows[i].website, rows[j].website)
}

/// Of two byte strings one comes first.
pub proof fn lemma_bytes_le_total(a: Seq<u8>, b: Seq<u8>)
    ensures
        bytes_le(a, b) || bytes_le(b, a),
    decreases a.len(),
{
    if a.len() > 0 && b.len() > 0 && a[0] == b[0] {
        lemma_bytes_le_total(a.drop_first(), b.drop_first());
    }
}

/// The byte order is transitive.
pub proof fn lemma_bytes_le_transitive(a: Seq<u8>, b: Seq<u8>, c: Seq<u8>)
    requires
        bytes_le(a, b),
        bytes_le(b, c),
    ensures
        bytes_le(a, c),
    decreases a.len(),
{
    if a.len() > 0 && b.len() > 0 && c.len() > 0 && a[0] == b[0] && b[0] == c[0] {
        lemma_bytes_le_transitive(a.drop_first(), b.drop_first(), c.drop_first());
    }
}

/// The watermark of `owner`, or zero where the store has none for them.
pub open spec fn watermark_or_zero(s: StoreView, owner: Seq<char>) -> int {
    if s.watermarks.contains_key(owner) {
        s.watermarks[owner]
    } else {
        0
    }
}

/// `sorted` with `r` put behind the rows whose site does not come after its own.
pub open spec fn placed(sorted: Seq<AccountRecordView>, r: AccountRecordView) -> Seq<
    AccountRecordView,
>
    decreases sorted.len(),
{
    if sorted.len() == 0 || site_le(sorted.last().website, r.website) {
        sorted.push(r)
    } else {
        placed(sorted.drop_last(), r).push(sorted.last())
    }
}

/// The rows in ascending order of site; rows of the same site keep the order they have.
pub open spec fn in_site_order(rows: Seq<AccountRecordView>) -> Seq<AccountRecordView>
    decreases rows.len(),
{
    if rows.len() == 0 {
        rows
    } else {
        placed(in_site_order(rows.drop_last()), rows.last())
    }
}

/// Where the rows before `at` do not come after `r` and those from `at` on do, `r` is put
/// at `at`.
pub proof fn lemma_placed_at(sorted: Seq<AccountRecordView>, r: AccountRecordView, at: int)
    requires
        0 <= at <= sorted.len(),
        at > 0 ==> site_le(sorted[at - 1].website, r.website),
        forall|k: int| at <= k < sorted.len() ==> !site_le(#[trigger] sorted[k].website, r.website),
    ensures
        placed(sorted, r) == sorted.insert(at, r),
    decreases sorted.len() - at,
{
    if at == sorted.len() {
        assert(sorted.push(r) =~= sorted.insert(at, r));
    } else {
        let front = sorted.drop_last();
        assert(!site_le(sorted[sorted.len() - 1].website, r.website));
        assert forall|k: int| at <= k < front.len() implies !site_le(
            #[trigger] front[k].website,
            r.website,
        ) by {
            assert(front[k] == sorted[k]);
        }
        if at > 0 {
            assert(front[at - 1] == sorted[at - 1]);
        }
        lemma_placed_at(front, r, at);
        assert(front.insert(at, r).push(sorted.last()) =~= sorted.insert(at, r));
    }
}

/// Where [`placed`] puts `r`: behind the last row whose site does not come after its own.
pub open spec fn place_of(sorted: Seq<AccountRecordView>, r: AccountRecordView) -> int
    decreases sorted.len(),
{
    if sorted.len() == 0 || site_le(sorted.last().website, r.website) {
        sorted.len() as int
    } else {
        place_of(sorted.drop_last(), r)
    }
}

proof fn lemma_place_of(sorted: Seq<AccountRecordView>, r: AccountRecordView)
    ensures
        0 <= place_of(sorted, r) <= sorted.len(),
        place_of(sorted, r) > 0 ==> site_le(sorted[place_of(sorted, r) - 1].website, r.website),
        forall|k: int|
            place_of(sorted, r) <= k < sorted.len() ==> !site_le(
                #[trigger] sorted[k].website,
                r.website,
            ),
    decreases sorted.len(),
{
    if !(sorted.len() == 0 || site_le(sorted.last().website, r.website)) {
        let front = sorted.drop_last();
        lemma_place_of(front, r);
        let at = place_of(front, r);
        if at > 0 {
            assert(front[at - 1] == sorted[at - 1]);
        }
        assert forall|k: int| at <= k < sorted.len() implies !site_le(
            #[trigger] sorted[k].website,
            r.website,
        ) by {
            if k < front.len() {
                assert(front[k] == sorted[k]);
            }
        }
    }
}

/// Putting a row into rows that are in order leaves them in order, with the row added once.
pub proof fn lemma_placed(sorted: Seq<AccountRecordView>, r: AccountRecordView)
    requires
        sorted_by_site(sorted),
    ensures
        sorted_by_site(placed(sorted, r)),
        placed(sorted, r).to_multiset() == sorted.to_multiset().insert(r),
        placed(sorted, r).len() == sorted.len() + 1,
{
    let at = place_of(sorted, r);
    lemma_place_of(sorted, r);
    lemma_placed_at(sorted, r, at);
    vstd::seq_lib::to_multiset_insert(sorted, at, r);
    let after = sorted.insert(at, r);
    assert forall|i: int, j: int|
        #![trigger after[i], after[j]]
        0 <= i < j < after.len() implies site_le(after[i].website, after[j].website) by {
        if j < at {
            assert(after[i] == sorted[i] && after[j] == sorted[j]);
        } else if j == at {
            assert(after[i] == sorted[i]);
            if i < at - 1 {
                assert(site_le(sorted[i].website, sorted[at - 1].website));
                lemma_bytes_le_transitive(
                    encode_utf8(sorted[i].website),
                    encode_utf8(sorted[at - 1].website),
                    encode_utf8(r.website),
                );
            }
        } else if i < at {
            assert(after[i] == sorted[i] && after[j] == sorted[j - 1]);
        } else if i == at {
            assert(after[j] == sorted[j - 1]);
            assert(!site_le(sorted[j - 1].website, r.website));
            lemma_bytes_le_total(encode_utf8(sorted[j - 1].website), encode_utf8(r.website));
        } else {
            assert(after[i] == sorted[i - 1] && after[j] == sorted[j - 1]);
        }
    }
}

/// The rows in site order are in order, and are the same rows, each as often as before.
pub proof fn lemma_in_site_order(rows: Seq<AccountRecordView>)
    ensures
        sorted_by_site(in_site_order(rows)),
        in_site_order(rows).to_multiset() == rows.to_multiset(),
        in_site_order(rows).len() == rows.len(),
    decreases rows.len(),
{
    if rows.len() > 0 {
        lemma_in_site_order(rows.drop_last());
        lemma_placed(in_site_order(rows.drop_last()), rows.last());
        vstd::seq_lib::to_multiset_build(rows.drop_last(), rows.last());
        assert(rows.drop_last().push(rows.last()) =~= rows);
    }
}

/// Whether `d` is the snapshot of `owner` in `s`: their name and watermark, and exactly
/// their rows, in ascending order of site, those of the same site in table order.
pub open spec fn is_snapshot(d: CacheDataView, s: StoreView, owner: Seq<char>) -> bool {
    &&& d.username == owner
    &&& d.update_time == watermark_or_zero(s, owner)
    &&& d.accounts == in_site_order(rows_of(s.accounts, owner))
}

/// The number of rows of `owner`, as far as a signed 64-bit count can tell it.
pub open spec fn count_of(rows: Seq<AccountRecordView>, owner: Seq<char>) -> int {
    if rows_of(rows, owner).len() <= i64::MAX {
        rows_of(rows, owner).len() as int
    } else {
        i64::MAX as int
    }
}

/// The store after everything it holds for `owner` was deleted.
pub open spec fn cleared(s: StoreView, owner: Seq<char>) -> StoreView {
    StoreView {
        ready: s.ready,
        watermarks: s.watermarks.remove(owner),
        accounts: s.accounts.filter(unselected(owner, None)),
    }
}

/// The table that a list of rows stands for: each row, in order, inserted or put in place
/// of the row that carries its key.
pub open spec fn rebuilt(rows: Seq<AccountRecordView>) -> Seq<AccountRecordView>
    decreases rows.len(),
{
    if rows.len() == 0 {
        rows
    } else {
        upserted(rebuilt(rows.drop_last()), rows.last())
    }
}

/// A list of rows without a repeated key stands for itself.
pub proof fn lemma_rebuilt_unique(rows: Seq<AccountRecordView>)
    requires
        unique_keys(rows),
    ensures
        rebuilt(rows) == rows,
    decreases rows.len(),
{
    if rows.len() > 0 {
        let front = rows.drop_last();
        let last = rows.last();
        assert forall|i: int, j: int|
            #![trigger front[i], front[j]]
            0 <= i < j < front.len() implies !(front[i].username == front[j].username
            && front[i].rid == front[j].rid) by {
            assert(front[i] == rows[i] && front[j] == rows[j]);
        }
        lemma_rebuilt_unique(front);
        assert forall|k: int| 0 <= k < front.len() implies (unselected(
            last.username,
            Some(last.rid),
        ))(#[trigger] front[k]) by {
            assert(front[k] == rows[k] && last == rows[rows.len() - 1]);
        }
        lemma_filter_keeps_all(front, unselected(last.username, Some(last.rid)));
        assert(front.push(last) =~= rows);
    }
}

/// A selection that keeps every row keeps the table.
pub(crate) proof fn lemma_filter_keeps_all(rows: Seq<AccountRecordView>, keep: spec_fn(AccountRecordView) -> bool)
    requires
        forall|k: int| 0 <= k < rows.len() ==> keep(#[trigger] rows[k]),
    ensures
        rows.filter(keep) == rows,
    decreases rows.len(),
{
    reveal(Seq::filter);
    if rows.len() > 0 {
        let front = rows.drop_last();
        assert forall|k: int| 0 <= k < front.len() implies keep(#[trigger] front[k]) by {
            assert(front[k] == rows[k]);
        }
        lemma_filter_keeps_all(front, keep);
        assert(keep(rows[rows.len() - 1]));
        assert(front.push(rows.last()) =~= rows);
    }
}

/// What a list of rows stands for has a unique primary key.
pub(crate) proof fn lemma_rebuilt_keys(rows: Seq<AccountRecordView>)
    ensures
        unique_keys(rebuilt(rows)),
    decreases rows.len(),
{
    if rows.len() > 0 {
        lemma_rebuilt_keys(rows.drop_last());
        lemma_upserted_unique(rebuilt(rows.drop_last()), rows.last());
    }
}

} // verus!
