//! Data carried between the server, the record store and the caller.

use vstd::prelude::*;
use vstd::string::*;
use crate::text::{decimal_digits, decimal_text, i64_to_text, usize_to_text};

verus! {

/// Envelope of every server answer: a status code, a message and an optional payload.
#[derive(Debug, Clone)]
pub struct ApiResponse<T> {
    pub code: i32,
    pub msg: String,
    pub data: Option<T>,
}

impl<T> ApiResponse<T> {
    /// Whether the server reported success (code zero).
    pub fn is_success(&self) -> (ok: bool)
        ensures
            ok == (self.code == 0),
    {
        self.code == 0
    }

    /// The payload of a successful answer; otherwise the server's message as the error.
    pub fn into_result(self) -> (r: Result<T, String>)
        ensures
            self.code == 0 && self.data is Some ==> r == Ok::<T, String>(self.data->0),
            !(self.code == 0 && self.data is Some) ==> r is Err && r->Err_0@ == self.msg@,
    {
        if self.is_success() {
            match self.data {
                Some(payload) => Ok(payload),
                None => Err(self.msg),
            }
        } else {
            Err(self.msg)
        }
    }
}

impl<T> ApiResponse<T> {
    /// The envelope in one line, without its payload.
    pub fn to_string(&self) -> (line: String)
        ensures
            line@ == "ApiResponse { code: "@ + decimal_text(self.code as int) + ", msg: "@
                + self.msg@ + " }"@,
    {
        let code = i64_to_text(self.code as i64);
        String::from_str("ApiResponse { code: ").concat(code.as_str()).concat(", msg: ").concat(
            self.msg.as_str(),
        ).concat(" }")
    }
}

/// Payload of a successful login.
#[derive(Debug, Clone)]
pub struct LoginResponseData {
    pub token: String,
}

impl Default for LoginResponseData {
    fn default() -> (data: Self)
        ensures
            data.token@.len() == 0,
    {
        LoginResponseData { token: String::new() }
    }
}

/// Payload of an account query: the synchronisation mode, the new watermark and the records.
#[derive(Debug, Clone)]
pub struct QueryResponseData {
    pub pull_mode: String,
    pub update_time: i64,
    pub accounts: Vec<AccountItem>,
}

impl Default for QueryResponseData {
    fn default() -> (data: Self)
        ensures
            data.pull_mode@.len() == 0,
            data.update_time == 0,
            data.accounts@.len() == 0,
    {
        QueryResponseData { pull_mode: String::new(), update_time: 0, accounts: Vec::new() }
    }
}

/// One credential as the server sends it.
#[derive(Debug, Clone)]
pub struct AccountItem {
    pub rid: i64,
    pub website: String,
    pub account: String,
    pub password: String,
}

/// Model of an [`AccountItem`].
pub ghost struct AccountItemView {
    pub rid: int,
    pub website: Seq<char>,
    pub account: Seq<char>,
    pub password: Seq<char>,
}

impl View for AccountItem {
    type V = AccountItemView;

    open spec fn view(&self) -> AccountItemView {
        AccountItemView {
            rid: self.rid as int,
            website: self.website@,
            account: self.account@,
            password: self.password@,
        }
    }
}

impl Default for AccountItem {
    fn default() -> (item: Self)
        ensures
            item@ == (AccountItemView {
                rid: 0,
                website: Seq::<char>::empty(),
                account: Seq::<char>::empty(),
                password: Seq::<char>::empty(),
            }),
    {
        AccountItem { rid: 0, website: String::new(), account: String::new(), password: String::new() }
    }
}

impl AccountItem {
    pub fn new(rid: i64, website: String, account: String, password: String) -> (item: Self)
        ensures
            item.rid == rid,
            item.website == website,
            item.account == account,
            item.password == password,
    {
        Self { rid, website, account, password }
    }

    /// The record in one line. The secret is left out.
    pub fn to_string(&self) -> (line: String)
        ensures
            line@ == "Account { rid: "@ + decimal_text(self.rid as int) + ", website: "@
                + self.website@ + ", account: "@ + self.account@ + " }"@,
    {
        let rid = i64_to_text(self.rid);
        String::from_str("Account { rid: ").concat(rid.as_str()).concat(", website: ").concat(
            self.website.as_str(),
        ).concat(", account: ").concat(self.account.as_str()).concat(" }")
    }
}

/// One credential as the local store keeps it: the server's record plus its owner.
#[derive(Debug)]
pub struct AccountRecord {
    pub rid: i64,
    pub username: String,
    pub website: String,
    pub account: String,
    pub password: String,
}

/// Model of an [`AccountRecord`].
pub ghost struct AccountRecordView {
    pub rid: int,
    pub username: Seq<char>,
    pub website: Seq<char>,
    pub account: Seq<char>,
    pub password: Seq<char>,
}

impl View for AccountRecord {
    type V = AccountRecordView;

    open spec fn view(&self) -> AccountRecordView {
        AccountRecordView {
            rid: self.rid as int,
            username: self.username@,
            website: self.website@,
            account: self.account@,
            password: self.password@,
        }
    }
}

/// The stored form of a server record once it is attributed to `username`.
pub open spec fn record_of(item: AccountItemView, username: Seq<char>) -> AccountRecordView {
    AccountRecordView {
        rid: item.rid,
        username,
        website: item.website,
        account: item.account,
        password: item.password,
    }
}

impl Clone for AccountRecord {
    fn clone(&self) -> (copy: Self)
        ensures
            copy@ == self@,
    {
        AccountRecord {
            rid: self.rid,
            username: self.username.clone(),
            website: self.website.clone(),
            account: self.account.clone(),
            password: self.password.clone(),
        }
    }
}

impl AccountRecord {
    pub fn new(
        rid: i64,
        username: String,
        website: String,
        account: String,
        password: String,
    ) -> (record: Self)
        ensures
            record.rid == rid,
            record.username == username,
            record.website == website,
            record.account == account,
            record.password == password,
    {
        Self { rid, username, website, account, password }
    }

    /// The record in one line. The secret is left out.
    pub fn to_string(&self) -> (line: String)
        ensures
            line@ == "AccountRecord { rid: "@ + decimal_text(self.rid as int) + ", user: "@
                + self.username@ + ", website: "@ + self.website@ + " }"@,
    {
        let rid = i64_to_text(self.rid);
        String::from_str("AccountRecord { rid: ").concat(rid.as_str()).concat(", user: ").concat(
            self.username.as_str(),
        ).concat(", website: ").concat(self.website.as_str()).concat(" }")
    }

    /// Attributes a server record to `username`.
    pub fn from_item(item: &AccountItem, username: &str) -> (record: Self)
        ensures
            record@ == record_of(item@, username@),
    {
        Self {
            rid: item.rid,
            username: String::from_str(username),
            website: item.website.clone(),
            account: item.account.clone(),
            password: item.password.clone(),
        }
    }
}

/// The models of a sequence of records, in order.
pub open spec fn records_view(records: Seq<AccountRecord>) -> Seq<AccountRecordView> {
    records.map_values(|r: AccountRecord| r@)
}

/// A consistent picture of one user's records at one synchronisation time.
#[derive(Debug, Clone)]
pub struct CacheData {
    pub username: String,
    pub update_time: i64,
    pub accounts: Vec<AccountRecord>,
}

/// Model of a [`CacheData`].
pub ghost struct CacheDataView {
    pub username: Seq<char>,
    pub update_time: int,
    pub accounts: Seq<AccountRecordView>,
}

impl View for CacheData {
    type V = CacheDataView;

    open spec fn view(&self) -> CacheDataView {
        CacheDataView {
            username: self.username@,
            update_time: self.update_time as int,
            accounts: records_view(self.accounts@),
        }
    }
}

impl CacheData {
    pub fn new(username: String, update_time: i64, accounts: Vec<AccountRecord>) -> (data: Self)
        ensures
            data.username == username,
            data.update_time == update_time,
            data.accounts == accounts,
    {
        Self { username, update_time, accounts }
    }

    /// The snapshot of a user for whom nothing was synchronised yet.
    pub fn empty(username: &str) -> (data: Self)
        ensures
            data@ == (CacheDataView {
                username: username@,
                update_time: 0,
                accounts: Seq::<AccountRecordView>::empty(),
            }),
    {
        let data = Self {
            username: String::from_str(username),
            update_time: 0,
            accounts: Vec::new(),
        };
        assert(data@.accounts =~= Seq::<AccountRecordView>::empty());
        data
    }

    /// The snapshot in one line: its user, the number of its records and its watermark.
    pub fn to_string(&self) -> (line: String)
        ensures
            line@ == "CacheData { user: "@ + self.username@ + ", accounts: "@ + decimal_digits(
                self@.accounts.len(),
            ) + ", updated: "@ + decimal_text(self.update_time as int) + " }"@,
    {
        let count = usize_to_text(self.accounts.len());
        let updated = i64_to_text(self.update_time);
        String::from_str("CacheData { user: ").concat(self.username.as_str()).concat(
            ", accounts: ",
        ).concat(count.as_str()).concat(", updated: ").concat(updated.as_str()).concat(" }")
    }

    /// Whether the snapshot holds no record.
    pub fn is_empty(&self) -> (none: bool)
        ensures
            none == (self@.accounts.len() == 0),
    {
        self.accounts.len() == 0
    }

    /// The number of records in the snapshot.
    pub fn len(&self) -> (n: usize)
        ensures
            n == self@.accounts.len(),
    {
        self.accounts.len()
    }
}

/// One credential as a caller hands it in for caching, not yet attributed to a user.
#[derive(Debug, Clone)]
pub struct TempAccountRecord {
    pub rid: i64,
    pub website: String,
    pub account: String,
    pub password: String,
}

impl View for TempAccountRecord {
    type V = AccountItemView;

    open spec fn view(&self) -> AccountItemView {
        AccountItemView {
            rid: self.rid as int,
            website: self.website@,
            account: self.account@,
            password: self.password@,
        }
    }
}

/// The models of a sequence of server records, in order.
pub open spec fn items_view(items: Seq<AccountItem>) -> Seq<AccountItemView> {
    items.map_values(|i: AccountItem| i@)
}

/// The models of a sequence of handed-in records, in order.
pub open spec fn temps_view(items: Seq<TempAccountRecord>) -> Seq<AccountItemView> {
    items.map_values(|i: TempAccountRecord| i@)
}

/// The stored forms of a sequence of records once they are attributed to `username`.
pub open spec fn records_of(items: Seq<AccountItemView>, username: Seq<char>) -> Seq<
    AccountRecordView,
> {
    items.map_values(|i: AccountItemView| record_of(i, username))
}

/// Attributes each server record to `username`.
pub fn records_from_items(items: &Vec<AccountItem>, username: &str) -> (records: Vec<AccountRecord>)
    ensures
        records_view(records@) == records_of(items_view(items@), username@),
{
    let mut records: Vec<AccountRecord> = Vec::new();
    let mut i: usize = 0;
    while i < items.len()
        invariant
            i <= items.len(),
            records@.len() == i,
            forall|k: int| 0 <= k < i ==> (#[trigger] records@[k])@ == record_of(items@[k]@, username@),
        decreases items.len() - i,
    {
        records.push(AccountRecord::from_item(&items[i], username));
        i += 1;
    }
    assert(records_view(records@) =~= records_of(items_view(items@), username@));
    records
}

/// Attributes each handed-in record to `username`.
pub fn records_from_temps(items: Vec<TempAccountRecord>, username: &str) -> (records: Vec<
    AccountRecord,
>)
    ensures
        records_view(records@) == records_of(temps_view(items@), username@),
{
    let mut records: Vec<AccountRecord> = Vec::new();
    let mut i: usize = 0;
    while i < items.len()
        invariant
            i <= items.len(),
            records@.len() == i,
            forall|k: int| 0 <= k < i ==> (#[trigger] records@[k])@ == record_of(items@[k]@, username@),
        decreases items.len() - i,
    {
        let item = &items[i];
        records.push(
            AccountRecord {
                rid: item.rid,
                username: String::from_str(username),
                website: item.website.clone(),
                account: item.account.clone(),
                password: item.password.clone(),
            },
        );
        i += 1;
    }
    assert(records_view(records@) =~= records_of(temps_view(items@), username@));
    records
}

} // verus!
