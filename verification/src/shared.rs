//! One [`AuthManager`] for many callers at a time.
//!
//! Every operation takes the lock once and holds it from its first look at
//! the registered keys to its last change of them, so that no caller meets
//! an operation of another half done. Lookups share the lock among
//! themselves; whatever changes the registered keys has it alone.

use crate::authkey::Authkey;
use crate::authkey::AuthkeyView;
use crate::authkey::is_key_text;
use crate::authkey::random_key_string;
use crate::authmanager::AuthManager;
use crate::authmanager::Sessions;
use crate::authmanager::keyed_by_key_string;
use crate::authmanager::owner_at;
use crate::authmanager::refresh_grant;
use crate::time::Timestamp;
use crate::time::Validity;
use vstd::prelude::*;
use vstd::rwlock::RwLock;
use vstd::rwlock::RwLockPredicate;

verus! {

/// What the lock keeps true of the manager behind it: that it is in order.
pub struct InOrder;

impl RwLockPredicate<AuthManager> for InOrder {
    open spec fn inv(self, manager: AuthManager) -> bool {
        manager.wf()
    }
}

/// An [`AuthManager`] behind a reader-writer lock.
pub struct SharedAuthManager {
    lock: RwLock<AuthManager, InOrder>,
}

impl SharedAuthManager {
    /// A manager without any key.
    pub fn new() -> (res: Self) {
        SharedAuthManager { lock: RwLock::new(AuthManager::default(), Ghost(InOrder)) }
    }

    /// Drops a registered key if it exists, valid or not, in one step.
    ///
    /// Returns the key if it was registered, otherwise `None`. The key that
    /// comes back is the one that stood under `key`, on whatever registered
    /// keys the call met.
    pub fn drop_key(&self, key: &str) -> (dropped: Option<Authkey>)
        ensures
            dropped matches Some(k) ==> k@.key == key@,
    {
        let (mut manager, handle) = self.lock.acquire_write();
        let dropped = manager.drop_key(key);
        handle.release_write(manager);
        dropped
    }

    /// Refreshes `key` at `now` in one step: see [`AuthManager::refresh`].
    ///
    /// What comes back is what that refresh hands out on the registered
    /// keys that the call met, which were in order.
    pub fn refresh(&self, key: &str, validity: Validity, now: Timestamp, fresh: String) -> (granted: Option<Authkey>)
        requires
            now@ + validity@ <= u128::MAX,
        ensures
            exists|m: Sessions| #[trigger]
                keyed_by_key_string(m) && match granted {
                    Some(k) => Some(k@) == refresh_grant(m, key@, validity@, now@, fresh@),
                    None => refresh_grant(m, key@, validity@, now@, fresh@) is None,
                },
    {
        let (mut manager, handle) = self.lock.acquire_write();
        let ghost met = manager@;
        let granted = manager.refresh(key, validity, now, fresh);
        handle.release_write(manager);
        assert(keyed_by_key_string(met));
        granted
    }

    /// Refreshes `key` in one step, at the instant that the system clock
    /// shows once the call has the lock, with a key string drawn at random.
    ///
    /// What comes back is what that refresh hands out on the registered
    /// keys that the call met, which were in order.
    pub fn refresh_key(&self, key: &str, validity: Validity) -> (granted: Option<Authkey>)
        ensures
            granted matches Some(k) ==> is_key_text(k@.key),
            exists|m: Sessions, now: Timestamp| #[trigger]
                keyed_by_key_string(m) && #[trigger] now.on_clock() && match granted {
                    Some(k) => Some(k@) == refresh_grant(m, key@, validity@, now@, k@.key),
                    None => owner_at(m, key@, now@) is None,
                },
    {
        let fresh = random_key_string();
        proof {
            validity.lemma_bounded();
        }
        let (mut manager, handle) = self.lock.acquire_write();
        let ghost met = manager@;
        let now = Timestamp::now();
        let granted = manager.refresh(key, validity, now, fresh);
        handle.release_write(manager);
        assert(keyed_by_key_string(met) && now.on_clock());
        granted
    }

    /// Returns the id of the user that `key` authenticates at `now`, on the
    /// registered keys that the call met: see [`AuthManager::lookup_owner`].
    pub fn lookup_owner(&self, key: &str, now: Timestamp) -> (owner: Option<u32>)
        ensures
            exists|m: Sessions| #[trigger] keyed_by_key_string(m) && owner == owner_at(m, key@, now@),
    {
        let handle = self.lock.acquire_read();
        let owner = handle.borrow().lookup_owner(key, now);
        assert(keyed_by_key_string(handle.view()@));
        handle.release_read();
        owner
    }

    /// Returns the id of the user that `key` authenticates at the instant
    /// that the system clock shows once the call has the lock.
    pub fn get_uid(&self, key: &str) -> (owner: Option<u32>)
        ensures
            exists|m: Sessions, now: Timestamp| #[trigger]
                keyed_by_key_string(m) && #[trigger] now.on_clock() && owner == owner_at(
                    m,
                    key@,
                    now@,
                ),
    {
        let handle = self.lock.acquire_read();
        let now = Timestamp::now();
        let owner = handle.borrow().lookup_owner(key, now);
        assert(keyed_by_key_string(handle.view()@) && now.on_clock());
        handle.release_read();
        owner
    }

    /// Registers a key under its key string in one step.
    pub fn register_key(&self, key: Authkey) {
        let (mut manager, handle) = self.lock.acquire_write();
        manager.register_key(key);
        handle.release_write(manager);
    }

    /// Generates the key that authenticates `uid` from `now` on for
    /// `validity` under the key string `fresh`, and registers it in one
    /// step.
    ///
    /// Returns the new key.
    pub fn generate_and_register(&self, uid: u32, validity: Validity, now: Timestamp, fresh: String) -> (key: Authkey)
        requires
            now@ + validity@ <= u128::MAX,
        ensures
            key@ == AuthkeyView::generated(uid, validity@, now@, fresh@),
    {
        let (mut manager, handle) = self.lock.acquire_write();
        let key = manager.generate_and_register(uid, validity, now, fresh);
        handle.release_write(manager);
        key
    }

    /// Generates a new key for `uid` that is valid for `validity` from the
    /// instant that the system clock shows once the call has the lock,
    /// under a key string drawn at random, and registers it in one step.
    ///
    /// Returns the new key.
    pub fn generate_now(&self, uid: u32, validity: Validity) -> (key: Authkey)
        ensures
            is_key_text(key@.key),
            exists|now: Timestamp| #[trigger]
                now.on_clock() && key@ == AuthkeyView::generated(uid, validity@, now@, key@.key),
    {
        let fresh = random_key_string();
        proof {
            validity.lemma_bounded();
        }
        let (mut manager, handle) = self.lock.acquire_write();
        let now = Timestamp::now();
        let key = manager.generate_and_register(uid, validity, now, fresh);
        handle.release_write(manager);
        assert(now.on_clock());
        key
    }
}

} // verus!
