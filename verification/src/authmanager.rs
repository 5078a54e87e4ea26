//! The keys that were handed out, by key string.

use crate::authkey::Authkey;
use crate::authkey::AuthkeyView;
use crate::authkey::is_key_text;
use crate::authkey::random_key_string;
use crate::time::Timestamp;
use crate::time::Validity;
use vstd::hash_map::StringHashMap;
use vstd::prelude::*;

verus! {

/// What an [`AuthManager`] stands for: the registered keys, each under its
/// key string.
pub type Sessions = Map<Seq<char>, AuthkeyView>;

/// Whether every key of `m` is registered under its own key string, so that
/// no two registered keys share one.
pub open spec fn keyed_by_key_string(m: Sessions) -> bool {
    forall|k: Seq<char>| m.contains_key(k) ==> (#[trigger] m[k]).key == k
}

/// The user that `key` authenticates at `now`: the owner of the key that is
/// registered under that string, if there is one and it is still valid.
pub open spec fn owner_at(m: Sessions, key: Seq<char>, now: nat) -> Option<u32> {
    if m.contains_key(key) && m[key].live_at(now) {
        Some(m[key].uid)
    } else {
        None
    }
}

/// The registered keys after `key` was registered: it stands under its key
/// string, in place of what stood there.
pub open spec fn registered(m: Sessions, key: AuthkeyView) -> Sessions {
    m.insert(key.key, key)
}

/// The key that a refresh of `key` at `now` hands out under the key string
/// `fresh`: one for the same user, valid for `validity` from `now` on, if
/// `key` authenticates a user at `now`, and none otherwise.
pub open spec fn refresh_grant(
    m: Sessions,
    key: Seq<char>,
    validity: nat,
    now: nat,
    fresh: Seq<char>,
) -> Option<AuthkeyView> {
    match owner_at(m, key, now) {
        Some(uid) => Some(AuthkeyView::generated(uid, validity, now, fresh)),
        None => None,
    }
}

/// The registered keys after a refresh of `key` at `now`: the key under
/// `key` is gone whatever it was, and the key that the refresh hands out, if
/// any, is registered.
pub open spec fn refreshed(
    m: Sessions,
    key: Seq<char>,
    validity: nat,
    now: nat,
    fresh: Seq<char>,
) -> Sessions {
    match refresh_grant(m, key, validity, now, fresh) {
        Some(granted) => registered(m.remove(key), granted),
        None => m.remove(key),
    }
}

/// Manages active authentication sessions.
pub struct AuthManager {
    authkeys: StringHashMap<Authkey>,
}

impl View for AuthManager {
    type V = Sessions;

    closed spec fn view(&self) -> Sessions {
        self.authkeys@.map_values(|k: Authkey| k@)
    }
}

impl Default for AuthManager {
    /// A manager without any key.
    fn default() -> (res: Self)
        ensures
            res.wf(),
            res@ == Map::<Seq<char>, AuthkeyView>::empty(),
    {
        let res = AuthManager { authkeys: StringHashMap::new() };
        assert(res@ =~= Map::<Seq<char>, AuthkeyView>::empty());
        res
    }
}

impl AuthManager {
    /// The manager is in order: every key stands under its own key string.
    pub open spec fn wf(&self) -> bool {
        keyed_by_key_string(self@)
    }

    /// Drops a registered key if it exists, valid or not.
    ///
    /// Returns the key if it was registered, otherwise `None`.
    pub fn drop_key(&mut self, key: &str) -> (dropped: Option<Authkey>)
        requires
            old(self).wf(),
        ensures
            final(self).wf(),
            final(self)@ == old(self)@.remove(key@),
            match dropped {
                Some(k) => old(self)@.contains_key(key@) && k@ == old(self)@[key@],
                None => !old(self)@.contains_key(key@),
            },
    {
        let dropped = match self.authkeys.get(key) {
            Some(k) => Some(k.clone()),
            None => None,
        };
        self.authkeys.remove(key);
        assert(self@ =~= old(self)@.remove(key@));
        dropped
    }

    /// Drops the key registered under `key` and tells whom it authenticated
    /// at `now`.
    fn take_owner(&mut self, key: &str, now: Timestamp) -> (owner: Option<u32>)
        requires
            old(self).wf(),
        ensures
            final(self).wf(),
            final(self)@ == old(self)@.remove(key@),
            owner == owner_at(old(self)@, key@, now@),
    {
        match self.drop_key(key) {
            Some(old_key) => if old_key.is_live(now) {
                Some(old_key.uid())
            } else {
                None
            },
            None => None,
        }
    }

    /// Searches for a registered key that is valid at `now` and drops it in
    /// favor of a new one for the same user, which is valid for `validity`
    /// from `now` on and has the key string `fresh`. A key that is found
    /// expired is dropped too.
    ///
    /// Returns the new key, or `None` if there was no registered, valid key.
    pub fn refresh(&mut self, key: &str, validity: Validity, now: Timestamp, fresh: String) -> (granted: Option<Authkey>)
        requires
            old(self).wf(),
            now@ + validity@ <= u128::MAX,
        ensures
            final(self).wf(),
            final(self)@ == refreshed(old(self)@, key@, validity@, now@, fresh@),
            match granted {
                Some(k) => Some(k@) == refresh_grant(old(self)@, key@, validity@, now@, fresh@),
                None => refresh_grant(old(self)@, key@, validity@, now@, fresh@) is None,
            },
    {
        match self.take_owner(key, now) {
            Some(uid) => Some(self.generate_and_register(uid, validity, now, fresh)),
            None => None,
        }
    }

    /// Searches for a registered, valid key and drops it in favor of a new
    /// one: [`AuthManager::refresh`] at the instant that the system clock
    /// shows, with a key string drawn at random.
    ///
    /// Returns the new key, or `None` if there was no registered, valid key.
    pub fn refresh_key(&mut self, key: &str, validity: Validity) -> (granted: Option<Authkey>)
        requires
            old(self).wf(),
        ensures
            final(self).wf(),
            exists|now: Timestamp| #[trigger]
                now.on_clock() && match granted {
                    Some(k) => {
                        &&& is_key_text(k@.key)
                        &&& Some(k@) == refresh_grant(old(self)@, key@, validity@, now@, k@.key)
                        &&& final(self)@ == refreshed(old(self)@, key@, validity@, now@, k@.key)
                    },
                    None => {
                        &&& owner_at(old(self)@, key@, now@) is None
                        &&& final(self)@ == old(self)@.remove(key@)
                    },
                },
    {
        let now = Timestamp::now();
        proof {
            validity.lemma_bounded();
        }
        let granted = match self.take_owner(key, now) {
            Some(uid) => Some(self.generate_and_register(uid, validity, now, random_key_string())),
            None => None,
        };
        assert(now.on_clock());
        granted
    }

    /// Returns the id of the user that `key` authenticates at `now`, or
    /// `None` if no key is registered under it or that key has expired.
    /// Nothing is dropped.
    pub fn lookup_owner(&self, key: &str, now: Timestamp) -> (owner: Option<u32>)
        ensures
            owner == owner_at(self@, key@, now@),
    {
        match self.authkeys.get(key) {
            Some(k) => if k.is_live(now) {
                Some(k.uid())
            } else {
                None
            },
            None => None,
        }
    }

    /// Returns the user id associated with a key: the answer of
    /// [`AuthManager::lookup_owner`] for the instant that the system clock
    /// shows.
    pub fn get_uid(&self, key: &str) -> (owner: Option<u32>)
        ensures
            exists|now: Timestamp| #[trigger] now.on_clock() && owner == owner_at(self@, key@, now@),
    {
        let now = Timestamp::now();
        let owner = self.lookup_owner(key, now);
        assert(now.on_clock() && owner == owner_at(self@, key@, now@));
        owner
    }

    /// Registers a key under its key string, in place of a key that was
    /// registered under the same string.
    pub fn register_key(&mut self, key: Authkey)
        requires
            old(self).wf(),
        ensures
            final(self).wf(),
            final(self)@ == registered(old(self)@, key@),
    {
        let name = key.key().to_owned();
        self.authkeys.insert(name, key);
        assert(self@ =~= registered(old(self)@, key@));
    }

    /// Generates the key that authenticates `uid` from `now` on for
    /// `validity` under the key string `fresh`, and registers it.
    ///
    /// Returns the new key.
    pub fn generate_and_register(&mut self, uid: u32, validity: Validity, now: Timestamp, fresh: String) -> (key: Authkey)
        requires
            old(self).wf(),
            now@ + validity@ <= u128::MAX,
        ensures
            final(self).wf(),
            key@ == AuthkeyView::generated(uid, validity@, now@, fresh@),
            final(self)@ == registered(old(self)@, key@),
    {
        let key = Authkey::generate(uid, validity, now, fresh);
        self.register_key(key.clone());
        key
    }

    /// Generates and registers a new key for `uid` that is valid for
    /// `validity` from now on, under a key string drawn at random.
    ///
    /// Returns the new key.
    pub fn generate_now(&mut self, uid: u32, validity: Validity) -> (key: Authkey)
        requires
            old(self).wf(),
        ensures
            final(self).wf(),
            is_key_text(key@.key),
            exists|now: Timestamp| #[trigger]
                now.on_clock() && key@ == AuthkeyView::generated(uid, validity@, now@, key@.key),
            final(self)@ == registered(old(self)@, key@),
    {
        let now = Timestamp::now();
        proof {
            validity.lemma_bounded();
        }
        let key = self.generate_and_register(uid, validity, now, random_key_string());
        assert(now.on_clock());
        key
    }
}

} // verus!
