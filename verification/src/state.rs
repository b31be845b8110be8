//! The session: who is logged in, the key that protects their secrets, and where their
//! records are kept. At most one session is live; it sits in a slot that the caller owns
//! and lends to every operation.

use vstd::prelude::*;
use vstd::string::*;
use crate::database::{init_database, parse_pull_mode, RecordStore};
use crate::store_model::{
    cleared, is_snapshot, sync_accepted, sync_refusal, synced, watermark_or_zero, StoreView,
};
use crate::error::{DurianError, DurianResult, ErrorView};
use crate::models::CacheData;

verus! {

/// The state of one login. It has no printed form, so that the key cannot end up in a log.
pub struct DurianState {
    /// The user the session belongs to.
    pub username: String,
    /// The key under which their secrets are encrypted. It is never stored.
    pub core_password: String,
    /// The token that authorises requests to the server.
    pub token: String,
    /// Where the record store is kept.
    pub db_path: String,
    /// The address of the server.
    pub api_base_url: String,
}

/// The first of the four session fields that is empty, as the message that rejects it.
pub open spec fn empty_field_message(
    username: Seq<char>,
    core_password: Seq<char>,
    token: Seq<char>,
    api_base_url: Seq<char>,
) -> Option<Seq<char>> {
    if username.len() == 0 {
        Some("用户名不能为空"@)
    } else if core_password.len() == 0 {
        Some("核心密码不能为空"@)
    } else if token.len() == 0 {
        Some("认证令牌不能为空"@)
    } else if api_base_url.len() == 0 {
        Some("API URL 不能为空"@)
    } else {
        None
    }
}

impl DurianState {
    /// Opens a session and creates the tables of its store. An empty field is a validation
    /// error, and a store location that could not be determined a configuration error; in
    /// both cases the store is left as it was.
    pub fn new(
        username: String,
        core_password: String,
        token: String,
        api_base_url: String,
        db_path: Option<String>,
        store: &mut RecordStore,
    ) -> (r: DurianResult<DurianState>)
        ensures
            match empty_field_message(username@, core_password@, token@, api_base_url@) {
                Some(message) => r is Err && r->Err_0@ == ErrorView::ValidationError(message)
                    && final(store)@ == old(store)@,
                None => match db_path {
                    None => r is Err && r->Err_0@ == ErrorView::ConfigError(
                        "无法获取 AppData 目录"@,
                    ) && final(store)@ == old(store)@,
                    Some(path) => r is Ok && r->Ok_0 == (DurianState {
                        username,
                        core_password,
                        token,
                        db_path: path,
                        api_base_url,
                    }) && final(store)@ == (StoreView { ready: true, ..old(store)@ }),
                },
            },
    {
        if username.as_str().is_empty() {
            return Err(DurianError::validation("用户名不能为空"));
        }
        if core_password.as_str().is_empty() {
            return Err(DurianError::validation("核心密码不能为空"));
        }
        if token.as_str().is_empty() {
            return Err(DurianError::validation("认证令牌不能为空"));
        }
        if api_base_url.as_str().is_empty() {
            return Err(DurianError::validation("API URL 不能为空"));
        }
        let db_path = match db_path {
            Some(path) => path,
            None => {
                return Err(DurianError::config("无法获取 AppData 目录"));
            },
        };
        let state = DurianState { username, core_password, token, db_path, api_base_url };
        match init_database(store) {
            Ok(()) => Ok(state),
            Err(e) => Err(e),
        }
    }

    /// Merges a server answer into the store for this session's user.
    pub fn save_cache_data(&self, store: &mut RecordStore, data: &CacheData, pull_mode: &str) -> (r:
        DurianResult<()>)
        ensures
            match parse_pull_mode(pull_mode@) {
                Some(mode) => {
                    &&& r is Ok <==> sync_accepted(old(store)@, data@.accounts, mode)
                    &&& r is Ok ==> final(store)@ == synced(
                        old(store)@,
                        self.username@,
                        data@.update_time,
                        data@.accounts,
                        mode,
                    )
                    &&& r is Err ==> final(store)@ == old(store)@ && r->Err_0@
                        == ErrorView::DatabaseError(sync_refusal(old(store)@))
                },
                None => r is Err && final(store)@ == old(store)@ && r->Err_0@
                    == ErrorView::UnknownPullMode(pull_mode@),
            },
    {
        crate::database::save_cache_data(store, self.username.as_str(), data, pull_mode)
    }

    /// The snapshot of this session's user, if they have one.
    pub fn load_cache_data(&self, store: &RecordStore) -> (r: DurianResult<Option<CacheData>>)
        ensures
            match r {
                Ok(Some(d)) => store@.ready && watermark_or_zero(store@, self.username@) != 0
                    && is_snapshot(d@, store@, self.username@),
                Ok(None) => store@.ready && watermark_or_zero(store@, self.username@) == 0,
                Err(e) => !store@.ready && e@ == ErrorView::DatabaseError(
                    "缓存尚未初始化"@,
                ),
            },
    {
        crate::database::load_cache_data(store, self.username.as_str())
    }

    /// The watermark of this session's user.
    pub fn get_last_update_time(&self, store: &RecordStore) -> (r: DurianResult<i64>)
        ensures
            match r {
                Ok(time) => store@.ready && time == watermark_or_zero(store@, self.username@),
                Err(e) => !store@.ready && e@ == ErrorView::DatabaseError(
                    "缓存尚未初始化"@,
                ),
            },
    {
        crate::database::get_last_update_time(store, self.username.as_str())
    }

    /// Deletes what the store holds for this session's user.
    pub fn clear_cache(&self, store: &mut RecordStore) -> (r: DurianResult<()>)
        ensures
            match r {
                Ok(()) => old(store)@.ready && final(store)@ == cleared(
                    old(store)@,
                    self.username@,
                ),
                Err(e) => !old(store)@.ready && final(store)@ == old(store)@ && e@
                    == ErrorView::DatabaseError("缓存尚未初始化"@),
            },
    {
        crate::database::clear_user_cache(store, self.username.as_str())
    }
}

/// The place of the one session that may be live. It is empty before login and after logout.
pub struct SessionSlot {
    pub state: Option<DurianState>,
}

/// Read access to the live session.
pub struct StateReadGuard<'a> {
    guard: &'a DurianState,
}

impl<'a> StateReadGuard<'a> {
    /// The session behind the guard.
    pub closed spec fn session(&self) -> DurianState {
        *self.guard
    }

    /// The session behind the guard.
    pub fn state(&self) -> (s: &DurianState)
        ensures
            *s == self.session(),
    {
        self.guard
    }
}

impl SessionSlot {
    /// A slot with no session in it.
    pub fn new() -> (slot: SessionSlot)
        ensures
            slot.state is None,
    {
        SessionSlot { state: None }
    }
}

/// Puts `state` into the slot, in place of the session that was there.
pub fn set_global_state(slot: &mut SessionSlot, state: DurianState)
    ensures
        final(slot).state == Some(state),
{
    slot.state = Some(state);
}

/// The live session, or [`DurianError::StateNotInitialized`] where there is none.
pub fn get_state<'a>(slot: &'a SessionSlot) -> (r: DurianResult<StateReadGuard<'a>>)
    ensures
        match slot.state {
            Some(state) => r is Ok && r->Ok_0.session() == state,
            None => r is Err && r->Err_0@ == ErrorView::StateNotInitialized,
        },
{
    match &slot.state {
        Some(state) => Ok(StateReadGuard { guard: state }),
        None => Err(DurianError::StateNotInitialized),
    }
}

/// Write access to the live session.
pub struct StateWriteGuard<'a> {
    pub guard: &'a mut DurianState,
}

/// The live session for writing, or [`DurianError::StateNotInitialized`] where there is
/// none. What is written through the guard is in the slot once the guard is given up.
pub fn get_state_mut<'a>(slot: &'a mut SessionSlot) -> (r: DurianResult<StateWriteGuard<'a>>)
    ensures
        old(slot).state is None ==> r is Err && r->Err_0@ == ErrorView::StateNotInitialized
            && final(slot).state is None,
        old(slot).state matches Some(state) ==> r is Ok && *r->Ok_0.guard == state
            && final(slot).state == Some(*final(r->Ok_0.guard)),
{
    match &mut slot.state {
        Some(state) => Ok(StateWriteGuard { guard: state }),
        None => Err(DurianError::StateNotInitialized),
    }
}

/// Whether a session is live.
pub fn is_state_initialized(slot: &SessionSlot) -> (live: bool)
    ensures
        live == (slot.state is Some),
{
    slot.state.is_some()
}

/// Ends the session: the slot is empty afterwards, and the session's key is dropped.
pub fn clear_state(slot: &mut SessionSlot)
    ensures
        final(slot).state is None,
{
    slot.state = None;
}

/// The user of the live session.
pub fn get_username(slot: &SessionSlot) -> (r: DurianResult<String>)
    ensures
        match slot.state {
            Some(state) => r is Ok && r->Ok_0@ == state.username@,
            None => r is Err && r->Err_0@ == ErrorView::StateNotInitialized,
        },
{
    let state = get_state(slot)?;
    Ok(state.state().username.clone())
}

/// The token of the live session.
pub fn get_token(slot: &SessionSlot) -> (r: DurianResult<String>)
    ensures
        match slot.state {
            Some(state) => r is Ok && r->Ok_0@ == state.token@,
            None => r is Err && r->Err_0@ == ErrorView::StateNotInitialized,
        },
{
    let state = get_state(slot)?;
    Ok(state.state().token.clone())
}

/// The key of the live session.
pub fn get_core_password(slot: &SessionSlot) -> (r: DurianResult<String>)
    ensures
        match slot.state {
            Some(state) => r is Ok && r->Ok_0@ == state.core_password@,
            None => r is Err && r->Err_0@ == ErrorView::StateNotInitialized,
        },
{
    let state = get_state(slot)?;
    Ok(state.state().core_password.clone())
}

/// The server address of the live session.
pub fn get_api_base_url(slot: &SessionSlot) -> (r: DurianResult<String>)
    ensures
        match slot.state {
            Some(state) => r is Ok && r->Ok_0@ == state.api_base_url@,
            None => r is Err && r->Err_0@ == ErrorView::StateNotInitialized,
        },
{
    let state = get_state(slot)?;
    Ok(state.state().api_base_url.clone())
}

} // verus!
