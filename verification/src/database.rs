//! The record store: one table of synchronisation watermarks keyed by user, one table of
//! credential records keyed by user and record id, and the three ways a server answer is
//! merged into them.

use vstd::prelude::*;
use vstd::string::*;
use vstd::utf8::encode_utf8;
use crate::error::{DurianError, DurianResult, ErrorView};
use crate::models::{records_view, AccountRecord, AccountRecordView, CacheData};
use crate::store_model::{
    bytes_le, cleared, count_of, distinct_rids, has_key, in_site_order, insertable, is_snapshot,
    lemma_bytes_le_transitive, lemma_filter_unique, lemma_placed, lemma_placed_at,
    lemma_rebuilt_keys, lemma_replaced_unique, lemma_upserted_all_unique, placed, rebuilt,
    selected, selects, site_le, sorted_by_site, stamped, stamped_all, stops_at, sync_accepted,
    sync_refusal, synced, unique_keys, unselected, upserted_all, watermark_or_zero, StoreView,
};
use crate::text::str_eq;

verus! {


/// How a server answer is merged into the store.
#[derive(Debug, Clone, Copy, PartialEq, Eq, Structural)]
pub enum PullMode {
    /// The answer is the complete set: the user's records are replaced by it.
    PullAll,
    /// The answer holds new and changed records: each is inserted or overwrites its namesake.
    PullUpdated,
    /// Nothing changed: only the watermark advances.
    PullNothing,
}

/// The mode a wire name stands for, if any.
pub open spec fn parse_pull_mode(s: Seq<char>) -> Option<PullMode> {
    if s == "PULL_ALL"@ {
        Some(PullMode::PullAll)
    } else if s == "PULL_UPDATED"@ {
        Some(PullMode::PullUpdated)
    } else if s == "PULL_NOTHING"@ {
        Some(PullMode::PullNothing)
    } else {
        None
    }
}

impl PullMode {
    /// Reads a mode from its wire name; any other text is refused as an unknown mode.
    pub fn from_str(s: &str) -> (r: DurianResult<PullMode>)
        ensures
            match parse_pull_mode(s@) {
                Some(mode) => r == Ok::<PullMode, DurianError>(mode),
                None => r is Err && r->Err_0@ == ErrorView::UnknownPullMode(s@),
            },
    {
        if str_eq(s, "PULL_ALL") {
            Ok(PullMode::PullAll)
        } else if str_eq(s, "PULL_UPDATED") {
            Ok(PullMode::PullUpdated)
        } else if str_eq(s, "PULL_NOTHING") {
            Ok(PullMode::PullNothing)
        } else {
            Err(DurianError::UnknownPullMode(String::from_str(s)))
        }
    }
}

/// One row of the watermark table.
struct WatermarkRow {
    username: String,
    last_update_time: i64,
}

/// The record store. It starts without its tables; [`init_database`] creates them.
pub struct RecordStore {
    ready: bool,
    metadata: Vec<WatermarkRow>,
    accounts: Vec<AccountRecord>,
}

spec fn watermark_map(rows: Seq<WatermarkRow>) -> Map<Seq<char>, int>
    decreases rows.len(),
{
    if rows.len() == 0 {
        Map::empty()
    } else {
        watermark_map(rows.drop_last()).insert(
            rows.last().username@,
            rows.last().last_update_time as int,
        )
    }
}

impl View for RecordStore {
    type V = StoreView;

    closed spec fn view(&self) -> StoreView {
        StoreView {
            ready: self.ready,
            watermarks: watermark_map(self.metadata@),
            accounts: records_view(self.accounts@),
        }
    }
}

impl RecordStore {
    #[verifier::type_invariant]
    spec fn keys_are_unique(&self) -> bool {
        unique_keys(records_view(self.accounts@))
    }

    /// A store whose tables do not exist yet.
    pub fn new() -> (store: RecordStore)
        ensures
            store@ == (StoreView {
                ready: false,
                watermarks: Map::<Seq<char>, int>::empty(),
                accounts: Seq::<AccountRecordView>::empty(),
            }),
    {
        let store = RecordStore { ready: false, metadata: Vec::new(), accounts: Vec::new() };
        assert(store@.accounts =~= Seq::<AccountRecordView>::empty());
        store
    }
}

/// Creates the tables if they do not exist. What the store holds stays as it is.
pub fn init_database(store: &mut RecordStore) -> (r: DurianResult<()>)
    ensures
        r is Ok,
        final(store)@ == (StoreView { ready: true, ..old(store)@ }),
        unique_keys(final(store)@.accounts),
{
    proof {
        use_type_invariant(&*store);
    }
    store.ready = true;
    Ok(())
}

/// The model of an optional record id.
pub open spec fn rid_view(rid: Option<i64>) -> Option<int> {
    match rid {
        Some(id) => Some(id as int),
        None => None,
    }
}

proof fn lemma_view_push(rows: Seq<AccountRecord>, x: AccountRecord)
    ensures
        records_view(rows.push(x)) == records_view(rows).push(x@),
{
    assert(records_view(rows.push(x)) =~= records_view(rows).push(x@));
}

proof fn lemma_view_take(rows: Seq<AccountRecord>, i: int)
    requires
        0 <= i < rows.len(),
    ensures
        records_view(rows.take(i + 1)) == records_view(rows.take(i)).push(rows[i]@),
{
    assert(rows.take(i + 1) =~= rows.take(i).push(rows[i]));
    lemma_view_push(rows.take(i), rows[i]);
}

fn clone_rows(rows: &Vec<AccountRecord>) -> (out: Vec<AccountRecord>)
    ensures
        records_view(out@) == records_view(rows@),
{
    let mut out: Vec<AccountRecord> = Vec::new();
    let mut i: usize = 0;
    assert(records_view(out@) =~= records_view(rows@.take(0)));
    while i < rows.len()
        invariant
            i <= rows.len(),
            records_view(out@) == records_view(rows@.take(i as int)),
        decreases rows.len() - i,
    {
        let copy = rows[i].clone();
        proof {
            lemma_view_take(rows@, i as int);
            lemma_view_push(out@, copy);
        }
        out.push(copy);
        i += 1;
    }
    assert(rows@.take(rows.len() as int) =~= rows@);
    out
}

fn row_selected(row: &AccountRecord, username: &str, rid: Option<i64>) -> (hit: bool)
    ensures
        hit == selects(username@, rid_view(rid), row@),
{
    if !str_eq(row.username.as_str(), username) {
        return false;
    }
    match rid {
        Some(id) => row.rid == id,
        None => true,
    }
}

/// The rows that are left when those of `username` (with record id `rid`, where one is
/// given) are deleted.
fn delete_rows(rows: &Vec<AccountRecord>, username: &str, rid: Option<i64>) -> (out: Vec<
    AccountRecord,
>)
    ensures
        records_view(out@) == records_view(rows@).filter(unselected(username@, rid_view(rid))),
{
    let ghost keep = unselected(username@, rid_view(rid));
    let mut out: Vec<AccountRecord> = Vec::new();
    let mut i: usize = 0;
    proof {
        reveal(Seq::filter);
        assert(records_view(rows@.take(0)) =~= Seq::<AccountRecordView>::empty());
        assert(records_view(out@) =~= records_view(rows@.take(0)).filter(keep));
    }
    while i < rows.len()
        invariant
            i <= rows.len(),
            keep == unselected(username@, rid_view(rid)),
            records_view(out@) == records_view(rows@.take(i as int)).filter(keep),
        decreases rows.len() - i,
    {
        proof {
            lemma_view_take(rows@, i as int);
            records_view(rows@.take(i as int)).lemma_filter_push(rows@[i as int]@, keep);
        }
        if !row_selected(&rows[i], username, rid) {
            let copy = rows[i].clone();
            proof {
                lemma_view_push(out@, copy);
            }
            out.push(copy);
        }
        i += 1;
    }
    assert(rows@.take(rows.len() as int) =~= rows@);
    out
}

fn contains_key(rows: &Vec<AccountRecord>, username: &str, rid: i64) -> (found: bool)
    ensures
        found == has_key(records_view(rows@), username@, rid as int),
{
    let mut i: usize = 0;
    while i < rows.len()
        invariant
            i <= rows.len(),
            forall|k: int|
                0 <= k < i ==> !#[trigger] selects(
                    username@,
                    Some(rid as int),
                    records_view(rows@)[k],
                ),
        decreases rows.len() - i,
    {
        if row_selected(&rows[i], username, Some(rid)) {
            assert(selects(username@, Some(rid as int), records_view(rows@)[i as int]));
            return true;
        }
        i += 1;
    }
    false
}

fn stamped_copy(record: &AccountRecord, username: &str) -> (row: AccountRecord)
    ensures
        row@ == stamped(record@, username@),
{
    AccountRecord {
        rid: record.rid,
        username: String::from_str(username),
        website: record.website.clone(),
        account: record.account.clone(),
        password: record.password.clone(),
    }
}

proof fn lemma_stamped_take(batch: Seq<AccountRecordView>, owner: Seq<char>, i: int)
    requires
        0 <= i < batch.len(),
    ensures
        stamped_all(batch.take(i + 1), owner) == stamped_all(batch.take(i), owner).push(
            stamped(batch[i], owner),
        ),
{
    assert(stamped_all(batch.take(i + 1), owner) =~= stamped_all(batch.take(i), owner).push(
        stamped(batch[i], owner),
    ));
}

/// Inserts each record of `accounts` for `username`, in order. A record whose key is already
/// in the table stops the batch with an error: the records before it are in the table, it
/// and those behind it are not. The caller then discards the table.
pub fn batch_insert_accounts(
    rows: &mut Vec<AccountRecord>,
    username: &str,
    accounts: &Vec<AccountRecord>,
) -> (r: DurianResult<()>)
    ensures
        r is Ok <==> insertable(records_view(old(rows)@), username@, records_view(accounts@)),
        r is Ok ==> records_view(final(rows)@) == records_view(old(rows)@) + stamped_all(
            records_view(accounts@),
            username@,
        ),
        r is Err ==> r->Err_0@ == ErrorView::DatabaseError(
            "同一用户的记录 ID 重复"@,
        ),
        r is Err ==> exists|n: int| #[trigger]
            stops_at(records_view(old(rows)@), username@, records_view(accounts@), n)
                && records_view(final(rows)@) == records_view(old(rows)@) + stamped_all(
                records_view(accounts@).take(n),
                username@,
            ),
{
    let ghost before = records_view(rows@);
    let ghost batch = records_view(accounts@);
    let ghost owner = username@;
    let mut i: usize = 0;
    assert(records_view(rows@) =~= before + stamped_all(batch.take(0), owner));
    while i < accounts.len()
        invariant
            i <= accounts.len(),
            batch == records_view(accounts@),
            owner == username@,
            before == records_view(old(rows)@),
            records_view(rows@) == before + stamped_all(batch.take(i as int), owner),
            insertable(before, owner, batch.take(i as int)),
        decreases accounts.len() - i,
    {
        let rid = accounts[i].rid;
        let ghost done = stamped_all(batch.take(i as int), owner);
        if contains_key(rows, username, rid) {
            proof {
                let k = choose|k: int|
                    0 <= k < (before + done).len() && #[trigger] selects(
                        owner,
                        Some(rid as int),
                        (before + done)[k],
                    );
                if k < before.len() {
                    assert(selects(owner, Some(rid as int), before[k]));
                    assert(has_key(before, owner, batch[i as int].rid));
                    assert(!insertable(before, owner, batch));
                } else {
                    let j = k - before.len();
                    assert(done[j] == stamped(batch[j], owner));
                    assert(batch[j].rid == batch[i as int].rid);
                    assert(batch.take(i + 1)[j] == batch[j] && batch.take(i + 1)[i as int]
                        == batch[i as int]);
                    assert(!distinct_rids(batch.take(i + 1)));
                    assert(!distinct_rids(batch));
                }
                assert(!insertable(before, owner, batch.take(i + 1))) by {
                    if k < before.len() {
                        assert(batch.take(i + 1)[i as int].rid == batch[i as int].rid);
                    }
                }
                assert(stops_at(before, owner, batch, i as int));
            }
            return Err(
                DurianError::database("同一用户的记录 ID 重复"),
            );
        }
        let row = stamped_copy(&accounts[i], username);
        proof {
            lemma_view_push(rows@, row);
            lemma_stamped_take(batch, owner, i as int);
            assert((before + done).push(row@) =~= before + done.push(row@));
            assert forall|a: int, b: int|
                #![trigger batch.take(i + 1)[a], batch.take(i + 1)[b]]
                0 <= a < b < i + 1 implies batch.take(i + 1)[a].rid != batch.take(i + 1)[b].rid by {
                if b < i {
                    assert(batch.take(i as int)[a].rid != batch.take(i as int)[b].rid);
                } else {
                    if batch[a].rid == batch[i as int].rid {
                        assert(done[a] == stamped(batch[a], owner));
                        assert(selects(owner, Some(rid as int), (before + done)[before.len() + a]));
                    }
                }
            }
            assert forall|a: int| 0 <= a < i + 1 implies !has_key(
                before,
                owner,
                #[trigger] batch.take(i + 1)[a].rid,
            ) by {
                if a < i {
                    assert(!has_key(before, owner, batch.take(i as int)[a].rid));
                } else {
                    if has_key(before, owner, rid as int) {
                        let k = choose|k: int|
                            0 <= k < before.len() && #[trigger] selects(
                                owner,
                                Some(rid as int),
                                before[k],
                            );
                        assert(selects(owner, Some(rid as int), (before + done)[k]));
                    }
                }
            }
        }
        rows.push(row);
        i += 1;
    }
    assert(batch.take(accounts.len() as int) =~= batch);
    Ok(())
}

/// Inserts each record of `accounts` for `username`, in order, in place of the row that
/// carries its key, if one does.
pub fn batch_upsert_accounts(
    rows: &mut Vec<AccountRecord>,
    username: &str,
    accounts: &Vec<AccountRecord>,
) -> (r: DurianResult<()>)
    ensures
        r is Ok,
        records_view(final(rows)@) == upserted_all(
            records_view(old(rows)@),
            username@,
            records_view(accounts@),
        ),
{
    let ghost before = records_view(rows@);
    let ghost batch = records_view(accounts@);
    let ghost owner = username@;
    let mut i: usize = 0;
    assert(batch.take(0) =~= Seq::<AccountRecordView>::empty());
    while i < accounts.len()
        invariant
            i <= accounts.len(),
            batch == records_view(accounts@),
            owner == username@,
            records_view(rows@) == upserted_all(before, owner, batch.take(i as int)),
        decreases accounts.len() - i,
    {
        let row = stamped_copy(&accounts[i], username);
        let mut kept = delete_rows(rows, username, Some(accounts[i].rid));
        proof {
            lemma_view_push(kept@, row);
            assert(batch.take(i + 1).drop_last() =~= batch.take(i as int));
            assert(batch.take(i + 1).last() == batch[i as int]);
        }
        kept.push(row);
        *rows = kept;
        i += 1;
    }
    assert(batch.take(accounts.len() as int) =~= batch);
    Ok(())
}

fn find_watermark(rows: &Vec<WatermarkRow>, username: &str) -> (found: Option<i64>)
    ensures
        match found {
            Some(w) => watermark_map(rows@).contains_key(username@) && watermark_map(
                rows@,
            )[username@] == w,
            None => !watermark_map(rows@).contains_key(username@),
        },
{
    let ghost all = watermark_map(rows@);
    let mut i: usize = rows.len();
    assert(rows@.take(i as int) =~= rows@);
    while i > 0
        invariant
            i <= rows.len(),
            all == watermark_map(rows@),
            all.contains_key(username@) == watermark_map(rows@.take(i as int)).contains_key(
                username@,
            ),
            all.contains_key(username@) ==> all[username@] == watermark_map(
                rows@.take(i as int),
            )[username@],
        decreases i,
    {
        i -= 1;
        proof {
            assert(rows@.take(i + 1).drop_last() =~= rows@.take(i as int));
            assert(rows@.take(i + 1).last() == rows@[i as int]);
        }
        if str_eq(rows[i].username.as_str(), username) {
            return Some(rows[i].last_update_time);
        }
    }
    assert(rows@.take(0) =~= Seq::<WatermarkRow>::empty());
    None
}

/// The watermark rows that are left when that of `username` is deleted.
fn delete_watermark(rows: &Vec<WatermarkRow>, username: &str) -> (out: Vec<WatermarkRow>)
    ensures
        watermark_map(out@) == watermark_map(rows@).remove(username@),
{
    let mut out: Vec<WatermarkRow> = Vec::new();
    let mut i: usize = 0;
    assert(rows@.take(0) =~= Seq::<WatermarkRow>::empty());
    assert(watermark_map(out@) =~= watermark_map(rows@.take(0)).remove(username@));
    while i < rows.len()
        invariant
            i <= rows.len(),
            watermark_map(out@) == watermark_map(rows@.take(i as int)).remove(username@),
        decreases rows.len() - i,
    {
        proof {
            assert(rows@.take(i + 1).drop_last() =~= rows@.take(i as int));
            assert(rows@.take(i + 1).last() == rows@[i as int]);
        }
        if !str_eq(rows[i].username.as_str(), username) {
            let copy = WatermarkRow {
                username: rows[i].username.clone(),
                last_update_time: rows[i].last_update_time,
            };
            proof {
                assert(out@.push(copy).drop_last() =~= out@);
                assert(watermark_map(out@.push(copy)) =~= watermark_map(
                    rows@.take(i + 1),
                ).remove(username@));
            }
            out.push(copy);
        } else {
            assert(watermark_map(out@) =~= watermark_map(rows@.take(i + 1)).remove(username@));
        }
        i += 1;
    }
    assert(rows@.take(rows.len() as int) =~= rows@);
    out
}

/// The watermark rows after that of `username` was set to `time`.
fn upsert_watermark(rows: &Vec<WatermarkRow>, username: &str, time: i64) -> (out: Vec<
    WatermarkRow,
>)
    ensures
        watermark_map(out@) == watermark_map(rows@).insert(username@, time as int),
{
    let mut out = delete_watermark(rows, username);
    let row = WatermarkRow { username: String::from_str(username), last_update_time: time };
    proof {
        assert(out@.push(row).drop_last() =~= out@);
        assert(watermark_map(out@.push(row)) =~= watermark_map(rows@).insert(
            username@,
            time as int,
        ));
    }
    out.push(row);
    out
}

/// Merges a server answer into the store as `pull_mode` says and sets the watermark of
/// `username` to `data.update_time`, all or nothing: where the store refuses, it is left as
/// it was.
pub fn save_cache_data_with_mode(
    store: &mut RecordStore,
    username: &str,
    data: &CacheData,
    pull_mode: PullMode,
) -> (r: DurianResult<()>)
    ensures
        r is Ok <==> sync_accepted(old(store)@, data@.accounts, pull_mode),
        r is Ok ==> final(store)@ == synced(
            old(store)@,
            username@,
            data@.update_time,
            data@.accounts,
            pull_mode,
        ),
        r is Err ==> final(store)@ == old(store)@ && r->Err_0@ == ErrorView::DatabaseError(
            sync_refusal(old(store)@),
        ),
        unique_keys(final(store)@.accounts),
{
    proof {
        use_type_invariant(&*store);
    }
    if !store.ready {
        return Err(DurianError::database("缓存尚未初始化"));
    }
    let ghost before = records_view(store.accounts@);
    let ghost batch = records_view(data.accounts@);
    let metadata = upsert_watermark(&store.metadata, username, data.update_time);
    let accounts = match pull_mode {
        PullMode::PullAll => {
            let mut rows = delete_rows(&store.accounts, username, None);
            proof {
                lemma_filter_unique(before, unselected(username@, None));
                assert forall|rid: int| !has_key(records_view(rows@), username@, rid) by {
                    if has_key(records_view(rows@), username@, rid) {
                        let k = choose|k: int|
                            0 <= k < records_view(rows@).len() && #[trigger] selects(
                                username@,
                                Some(rid),
                                records_view(rows@)[k],
                            );
                        assert(unselected(username@, None)(records_view(rows@)[k]));
                    }
                }
            }
            match batch_insert_accounts(&mut rows, username, &data.accounts) {
                Ok(()) => {},
                Err(e) => {
                    return Err(e);
                },
            }
            proof {
                lemma_replaced_unique(before, username@, batch);
            }
            rows
        },
        PullMode::PullUpdated => {
            let mut rows = clone_rows(&store.accounts);
            let _ = batch_upsert_accounts(&mut rows, username, &data.accounts);
            proof {
                lemma_upserted_all_unique(before, username@, batch);
            }
            rows
        },
        PullMode::PullNothing => clone_rows(&store.accounts),
    };
    store.metadata = metadata;
    store.accounts = accounts;
    Ok(())
}

/// As [`save_cache_data_with_mode`], with the mode given by its wire name. A name that is
/// none of the three is refused as an unknown mode, and the store is left as it was.
pub fn save_cache_data(store: &mut RecordStore, username: &str, data: &CacheData, pull_mode: &str) -> (r:
    DurianResult<()>)
    ensures
        match parse_pull_mode(pull_mode@) {
            Some(mode) => {
                &&& r is Ok <==> sync_accepted(old(store)@, data@.accounts, mode)
                &&& r is Ok ==> final(store)@ == synced(
                    old(store)@,
                    username@,
                    data@.update_time,
                    data@.accounts,
                    mode,
                )
                &&& r is Err ==> final(store)@ == old(store)@ && r->Err_0@
                    == ErrorView::DatabaseError(sync_refusal(old(store)@))
            },
            None => r is Err && final(store)@ == old(store)@ && r->Err_0@
                == ErrorView::UnknownPullMode(pull_mode@),
        },
        unique_keys(final(store)@.accounts),
{
    proof {
        use_type_invariant(&*store);
    }
    match PullMode::from_str(pull_mode) {
        Ok(mode) => save_cache_data_with_mode(store, username, data, mode),
        Err(e) => Err(e),
    }
}

fn site_comes_first(a: &str, b: &str) -> (first: bool)
    ensures
        first == site_le(a@, b@),
{
    let left = a.as_bytes();
    let right = b.as_bytes();
    let mut i: usize = 0;
    assert(left@.skip(0) =~= left@ && right@.skip(0) =~= right@);
    while i < left.len() && i < right.len() && left[i] == right[i]
        invariant
            i <= left.len(),
            i <= right.len(),
            bytes_le(left@, right@) == bytes_le(left@.skip(i as int), right@.skip(i as int)),
        decreases left.len() - i,
    {
        proof {
            assert(left@.skip(i as int).drop_first() =~= left@.skip(i + 1));
            assert(right@.skip(i as int).drop_first() =~= right@.skip(i + 1));
        }
        i += 1;
    }
    if i == left.len() {
        true
    } else if i == right.len() {
        false
    } else {
        left[i] < right[i]
    }
}

/// Puts `row` into `sorted` behind the rows whose site does not come after its own.
fn insert_by_site(sorted: &mut Vec<AccountRecord>, row: AccountRecord)
    requires
        sorted_by_site(records_view(old(sorted)@)),
    ensures
        records_view(final(sorted)@) == placed(records_view(old(sorted)@), row@),
        sorted_by_site(records_view(final(sorted)@)),
{
    let ghost before = records_view(sorted@);
    let mut at: usize = 0;
    while at < sorted.len() && site_comes_first(
        sorted[at].website.as_str(),
        row.website.as_str(),
    )
        invariant
            at <= sorted.len(),
            before == records_view(sorted@),
            forall|k: int| 0 <= k < at ==> site_le(#[trigger] before[k].website, row@.website),
        decreases sorted.len() - at,
    {
        at += 1;
    }
    proof {
        assert(records_view(sorted@.insert(at as int, row)) =~= before.insert(at as int, row@));
        assert forall|k: int| at <= k < before.len() implies !site_le(
            #[trigger] before[k].website,
            row@.website,
        ) by {
            if at < k && site_le(before[k].website, row@.website) {
                assert(site_le(before[at as int].website, before[k].website));
                lemma_bytes_le_transitive(
                    encode_utf8(before[at as int].website),
                    encode_utf8(before[k].website),
                    encode_utf8(row@.website),
                );
            }
        }
        lemma_placed_at(before, row@, at as int);
        lemma_placed(before, row@);
    }
    sorted.insert(at, row);
}

/// The snapshot of `username`, or nothing where their watermark is missing or zero.
pub fn load_cache_data(store: &RecordStore, username: &str) -> (r: DurianResult<Option<CacheData>>)
    ensures
        match r {
            Ok(Some(d)) => store@.ready && watermark_or_zero(store@, username@) != 0
                && is_snapshot(d@, store@, username@),
            Ok(None) => store@.ready && watermark_or_zero(store@, username@) == 0,
            Err(e) => !store@.ready && e@ == ErrorView::DatabaseError(
                "缓存尚未初始化"@,
            ),
        },
{
    if !store.ready {
        return Err(DurianError::database("缓存尚未初始化"));
    }
    let update_time = match find_watermark(&store.metadata, username) {
        Some(time) => time,
        None => {
            return Ok(None);
        },
    };
    if update_time == 0 {
        return Ok(None);
    }
    let ghost all = records_view(store.accounts@);
    let ghost mine = selected(username@, None);
    let mut accounts: Vec<AccountRecord> = Vec::new();
    let mut i: usize = 0;
    proof {
        reveal(Seq::filter);
        assert(records_view(store.accounts@.take(0)) =~= Seq::<AccountRecordView>::empty());
        assert(records_view(accounts@) =~= Seq::<AccountRecordView>::empty());
    }
    while i < store.accounts.len()
        invariant
            i <= store.accounts.len(),
            mine == selected(username@, None),
            sorted_by_site(records_view(accounts@)),
            records_view(accounts@) == in_site_order(
                records_view(store.accounts@.take(i as int)).filter(mine),
            ),
        decreases store.accounts.len() - i,
    {
        let ghost seen = records_view(store.accounts@.take(i as int));
        proof {
            lemma_view_take(store.accounts@, i as int);
            seen.lemma_filter_push(store.accounts@[i as int]@, mine);
        }
        if row_selected(&store.accounts[i], username, None) {
            let copy = store.accounts[i].clone();
            proof {
                assert(seen.filter(mine).push(copy@).drop_last() =~= seen.filter(mine));
            }
            insert_by_site(&mut accounts, copy);
        }
        i += 1;
    }
    assert(store.accounts@.take(store.accounts.len() as int) =~= store.accounts@);
    Ok(Some(CacheData { username: String::from_str(username), update_time, accounts }))
}

/// The watermark of `username`; zero where nothing was synchronised for them yet.
pub fn get_last_update_time(store: &RecordStore, username: &str) -> (r: DurianResult<i64>)
    ensures
        match r {
            Ok(time) => store@.ready && time == watermark_or_zero(store@, username@),
            Err(e) => !store@.ready && e@ == ErrorView::DatabaseError(
                "缓存尚未初始化"@,
            ),
        },
{
    if !store.ready {
        return Err(DurianError::database("缓存尚未初始化"));
    }
    match find_watermark(&store.metadata, username) {
        Some(time) => Ok(time),
        None => Ok(0),
    }
}

/// Deletes the records and the watermark of `username`. A user the store holds nothing for
/// is no error.
pub fn clear_user_cache(store: &mut RecordStore, username: &str) -> (r: DurianResult<()>)
    ensures
        match r {
            Ok(()) => old(store)@.ready && final(store)@ == cleared(old(store)@, username@),
            Err(e) => !old(store)@.ready && final(store)@ == old(store)@ && e@
                == ErrorView::DatabaseError("缓存尚未初始化"@),
        },
        unique_keys(final(store)@.accounts),
{
    proof {
        use_type_invariant(&*store);
    }
    if !store.ready {
        return Err(DurianError::database("缓存尚未初始化"));
    }
    let accounts = delete_rows(&store.accounts, username, None);
    let metadata = delete_watermark(&store.metadata, username);
    proof {
        lemma_filter_unique(records_view(store.accounts@), unselected(username@, None));
    }
    store.accounts = accounts;
    store.metadata = metadata;
    Ok(())
}

/// The number of records the store holds for `username`.
pub fn get_account_count(store: &RecordStore, username: &str) -> (r: DurianResult<i64>)
    ensures
        match r {
            Ok(n) => store@.ready && n == count_of(store@.accounts, username@),
            Err(e) => !store@.ready && e@ == ErrorView::DatabaseError(
                "缓存尚未初始化"@,
            ),
        },
{
    if !store.ready {
        return Err(DurianError::database("缓存尚未初始化"));
    }
    let ghost mine = selected(username@, None);
    let mut count: usize = 0;
    let mut i: usize = 0;
    proof {
        reveal(Seq::filter);
        assert(records_view(store.accounts@.take(0)) =~= Seq::<AccountRecordView>::empty());
    }
    while i < store.accounts.len()
        invariant
            i <= store.accounts.len(),
            mine == selected(username@, None),
            count <= i,
            count == records_view(store.accounts@.take(i as int)).filter(mine).len(),
        decreases store.accounts.len() - i,
    {
        proof {
            lemma_view_take(store.accounts@, i as int);
            records_view(store.accounts@.take(i as int)).lemma_filter_push(
                store.accounts@[i as int]@,
                mine,
            );
        }
        if row_selected(&store.accounts[i], username, None) {
            count += 1;
        }
        i += 1;
    }
    assert(store.accounts@.take(store.accounts.len() as int) =~= store.accounts@);
    if count as u64 > i64::MAX as u64 {
        Ok(i64::MAX)
    } else {
        Ok(count as i64)
    }
}

/// The watermarks that a list of (user, watermark) pairs stands for; a later pair of a user
/// counts.
pub open spec fn pairs_map(pairs: Seq<(String, i64)>) -> Map<Seq<char>, int>
    decreases pairs.len(),
{
    if pairs.len() == 0 {
        Map::empty()
    } else {
        pairs_map(pairs.drop_last()).insert(pairs.last().0@, pairs.last().1 as int)
    }
}

impl RecordStore {
    /// Whether the tables exist.
    pub fn is_ready(&self) -> (ready: bool)
        ensures
            ready == self@.ready,
    {
        self.ready
    }

    /// Every row of the record table, in table order, for keeping the store on a durable
    /// medium.
    pub fn export_accounts(&self) -> (rows: Vec<AccountRecord>)
        ensures
            records_view(rows@) == self@.accounts,
            unique_keys(records_view(rows@)),
    {
        proof {
            use_type_invariant(self);
        }
        clone_rows(&self.accounts)
    }

    /// Every watermark, as (user, watermark) pairs, for keeping the store on a durable
    /// medium.
    pub fn export_watermarks(&self) -> (pairs: Vec<(String, i64)>)
        ensures
            pairs_map(pairs@) == self@.watermarks,
    {
        let mut pairs: Vec<(String, i64)> = Vec::new();
        let mut i: usize = 0;
        assert(self.metadata@.take(0) =~= Seq::<WatermarkRow>::empty());
        while i < self.metadata.len()
            invariant
                i <= self.metadata.len(),
                pairs_map(pairs@) == watermark_map(self.metadata@.take(i as int)),
            decreases self.metadata.len() - i,
        {
            let pair = (self.metadata[i].username.clone(), self.metadata[i].last_update_time);
            proof {
                assert(self.metadata@.take(i + 1).drop_last() =~= self.metadata@.take(i as int));
                assert(self.metadata@.take(i + 1).last() == self.metadata@[i as int]);
                assert(pairs@.push(pair).drop_last() =~= pairs@);
            }
            pairs.push(pair);
            i += 1;
        }
        assert(self.metadata@.take(self.metadata.len() as int) =~= self.metadata@);
        pairs
    }

    /// The store that a durable medium held: whether its tables exist, its watermarks and
    /// its rows. Rows that repeat a key are merged as [`rebuilt`] says, so what was
    /// exported comes back as it was.
    pub fn import(ready: bool, watermarks: &Vec<(String, i64)>, accounts: &Vec<AccountRecord>) -> (store:
        RecordStore)
        ensures
            store@ == (StoreView {
                ready,
                watermarks: pairs_map(watermarks@),
                accounts: rebuilt(records_view(accounts@)),
            }),
            unique_keys(store@.accounts),
    {
        let mut metadata: Vec<WatermarkRow> = Vec::new();
        let mut i: usize = 0;
        assert(watermarks@.take(0) =~= Seq::<(String, i64)>::empty());
        while i < watermarks.len()
            invariant
                i <= watermarks.len(),
                watermark_map(metadata@) == pairs_map(watermarks@.take(i as int)),
            decreases watermarks.len() - i,
        {
            let row = WatermarkRow {
                username: watermarks[i].0.clone(),
                last_update_time: watermarks[i].1,
            };
            proof {
                assert(watermarks@.take(i + 1).drop_last() =~= watermarks@.take(i as int));
                assert(watermarks@.take(i + 1).last() == watermarks@[i as int]);
                assert(metadata@.push(row).drop_last() =~= metadata@);
            }
            metadata.push(row);
            i += 1;
        }
        assert(watermarks@.take(watermarks.len() as int) =~= watermarks@);
        let ghost all = records_view(accounts@);
        let mut rows: Vec<AccountRecord> = Vec::new();
        let mut k: usize = 0;
        proof {
            assert(all.take(0) =~= Seq::<AccountRecordView>::empty());
            assert(records_view(rows@) =~= rebuilt(all.take(0)));
        }
        while k < accounts.len()
            invariant
                k <= accounts.len(),
                all == records_view(accounts@),
                records_view(rows@) == rebuilt(all.take(k as int)),
            decreases accounts.len() - k,
        {
            let row = accounts[k].clone();
            let mut kept = delete_rows(&rows, accounts[k].username.as_str(), Some(accounts[k].rid));
            proof {
                lemma_view_push(kept@, row);
                assert(all.take(k + 1).drop_last() =~= all.take(k as int));
                assert(all.take(k + 1).last() == all[k as int]);
            }
            kept.push(row);
            rows = kept;
            k += 1;
        }
        proof {
            assert(all.take(accounts.len() as int) =~= all);
            lemma_rebuilt_keys(all);
        }
        RecordStore { ready, metadata, accounts: rows }
    }
}

} // verus!
