//! What holds of the registered keys whatever is done with them.

use crate::authkey::AuthkeyView;
use crate::authmanager::Sessions;
use crate::authmanager::keyed_by_key_string;
use crate::authmanager::owner_at;
use crate::authmanager::refresh_grant;
use crate::authmanager::refreshed;
use crate::authmanager::registered;
use vstd::prelude::*;

verus! {

/// One call that hands out a key: to whom, for how long, at what instant and
/// under which key string.
pub struct Issue {
    pub uid: u32,
    pub validity: nat,
    pub now: nat,
    pub key: Seq<char>,
}

/// The registered keys after the keys of `calls` were handed out one after
/// the other, starting from `m`.
pub open spec fn issued(m: Sessions, calls: Seq<Issue>) -> Sessions
    decreases calls.len(),
{
    if calls.len() == 0 {
        m
    } else {
        let call = calls.last();
        registered(
            issued(m, calls.drop_last()),
            AuthkeyView::generated(call.uid, call.validity, call.now, call.key),
        )
    }
}

/// Whatever keys are handed out, in whatever order and under whatever key
/// strings, no two registered keys share a key string.
pub proof fn lemma_key_strings_unique(m: Sessions, calls: Seq<Issue>)
    requires
        keyed_by_key_string(m),
    ensures
        keyed_by_key_string(issued(m, calls)),
        forall|a: Seq<char>, b: Seq<char>|
            #![trigger issued(m, calls)[a], issued(m, calls)[b]]
            issued(m, calls).contains_key(a) && issued(m, calls).contains_key(b) && a != b
                ==> issued(m, calls)[a].key != issued(m, calls)[b].key,
    decreases calls.len(),
{
    if calls.len() > 0 {
        lemma_key_strings_unique(m, calls.drop_last());
    }
}

/// A key that was handed out at `t0` for `validity` authenticates its user
/// at every instant before `t0 + validity`, and nobody from then on.
pub proof fn lemma_valid_until_expiry(
    m: Sessions,
    uid: u32,
    validity: nat,
    t0: nat,
    key: Seq<char>,
    t: nat,
)
    ensures
        t < t0 + validity ==> owner_at(
            registered(m, AuthkeyView::generated(uid, validity, t0, key)),
            key,
            t,
        ) == Some(uid),
        t >= t0 + validity ==> owner_at(
            registered(m, AuthkeyView::generated(uid, validity, t0, key)),
            key,
            t,
        ) is None,
{
}

/// A key string that authenticates nobody at one instant authenticates
/// nobody at any later instant, as long as nothing is registered under it
/// anew: a key that has expired stays expired.
pub proof fn lemma_expired_stays_expired(m: Sessions, key: Seq<char>, now: nat, later: nat)
    requires
        owner_at(m, key, now) is None,
        now <= later,
    ensures
        owner_at(m, key, later) is None,
{
}

/// Refreshing a key that authenticates `uid` hands out a key for `uid`
/// again, under the fresh key string, and from then on the old key string
/// authenticates nobody, provided that the fresh key string is not the old
/// one.
pub proof fn lemma_refresh_keeps_owner(
    m: Sessions,
    key: Seq<char>,
    validity: nat,
    now: nat,
    fresh: Seq<char>,
    uid: u32,
    later: nat,
)
    requires
        owner_at(m, key, now) == Some(uid),
        fresh != key,
    ensures
        refresh_grant(m, key, validity, now, fresh) == Some(
            AuthkeyView::generated(uid, validity, now, fresh),
        ),
        refreshed(m, key, validity, now, fresh)[fresh].uid == uid,
        later < now + validity ==> owner_at(refreshed(m, key, validity, now, fresh), fresh, later)
            == Some(uid),
        owner_at(refreshed(m, key, validity, now, fresh), key, later) is None,
{
}

/// Refreshing a key that is registered but has expired hands out nothing,
/// and from then on its key string authenticates nobody.
pub proof fn lemma_refresh_drops_expired(
    m: Sessions,
    key: Seq<char>,
    validity: nat,
    now: nat,
    fresh: Seq<char>,
    later: nat,
)
    requires
        m.contains_key(key),
        !m[key].live_at(now),
    ensures
        refresh_grant(m, key, validity, now, fresh) is None,
        refreshed(m, key, validity, now, fresh) == m.remove(key),
        owner_at(refreshed(m, key, validity, now, fresh), key, later) is None,
{
}

/// Dropping a key string that is not registered changes nothing, and
/// dropping one a second time changes nothing either.
pub proof fn lemma_drop_twice(m: Sessions, key: Seq<char>)
    ensures
        !m.contains_key(key) ==> m.remove(key) == m,
        m.remove(key).remove(key) == m.remove(key),
        !m.remove(key).contains_key(key),
{
    assert(!m.contains_key(key) ==> m.remove(key) =~= m);
    assert(m.remove(key).remove(key) =~= m.remove(key));
}

/// Of two refreshes of one key string, the first hands out a key if the
/// key string authenticates somebody then, and whichever comes second hands
/// out nothing and leaves the registered keys as the first one left them,
/// provided that the first one's fresh key string is not the old one. So
/// one key string is traded in for at most one new key, and nothing comes
/// to stand under the fresh key string of the second.
pub proof fn lemma_refresh_at_most_once(
    m: Sessions,
    key: Seq<char>,
    validity1: nat,
    now1: nat,
    fresh1: Seq<char>,
    validity2: nat,
    now2: nat,
    fresh2: Seq<char>,
)
    requires
        fresh1 != key,
    ensures
        owner_at(m, key, now1) is Some <==> refresh_grant(m, key, validity1, now1, fresh1) is Some,
        refresh_grant(
            refreshed(m, key, validity1, now1, fresh1),
            key,
            validity2,
            now2,
            fresh2,
        ) is None,
        refreshed(refreshed(m, key, validity1, now1, fresh1), key, validity2, now2, fresh2)
            == refreshed(m, key, validity1, now1, fresh1),
        fresh2 != fresh1 && !m.contains_key(fresh2) ==> !refreshed(
            refreshed(m, key, validity1, now1, fresh1),
            key,
            validity2,
            now2,
            fresh2,
        ).contains_key(fresh2),
{
    let after = refreshed(m, key, validity1, now1, fresh1);
    assert(!after.contains_key(key));
    assert(after.remove(key) =~= after);
}

} // verus!
