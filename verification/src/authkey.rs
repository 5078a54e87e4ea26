//! A key that authenticates one user for a limited time.

use crate::time::Timestamp;
use crate::time::Validity;
use crate::time::clock_max;
use vstd::prelude::*;

verus! {

/// Whether `c` is one of the sixteen digits `0` to `9` and `a` to `f`.
pub open spec fn is_lower_hex(c: char) -> bool {
    ('0' <= c && c <= '9') || ('a' <= c && c <= 'f')
}

/// Whether `i` is one of the four places where a key string holds a hyphen.
pub open spec fn is_hyphen_place(i: int) -> bool {
    i == 8 || i == 13 || i == 18 || i == 23
}

/// Whether `c` is one of the four digits `8`, `9`, `a` and `b`.
pub open spec fn is_variant_digit(c: char) -> bool {
    c == '8' || c == '9' || c == 'a' || c == 'b'
}

/// Whether `s` has the shape of a freshly drawn key string, which is that
/// of a random UUID: 36 characters, hyphens after the 8th, 12th, 16th and
/// 20th digit, lower-case hexadecimal digits everywhere else, of which the
/// 13th is the version `4` and the 17th tells the variant.
pub open spec fn is_key_text(s: Seq<char>) -> bool {
    &&& s.len() == 36
    &&& forall|i: int|
        0 <= i < 36 ==> if is_hyphen_place(i) {
            #[trigger] s[i] == '-'
        } else {
            is_lower_hex(s[i])
        }
    &&& s[14] == '4'
    &&& is_variant_digit(s[19])
}

/// A key string of that shape holds nothing but hyphens and lower-case
/// hexadecimal digits: no blank, no control character, no quote and no
/// backslash, so that it goes into a header or between the quotes of a JSON
/// string as it is.
pub proof fn lemma_key_text_is_plain(s: Seq<char>, i: int)
    requires
        is_key_text(s),
        0 <= i < s.len(),
    ensures
        s[i] == '-' || is_lower_hex(s[i]),
        s[i] != ' ' && s[i] != '"' && s[i] != '\\',
        ' ' < s[i] && s[i] <= '~',
{
}

/// What an [`Authkey`] stands for: a key string, the user it authenticates
/// and the instant, in nanoseconds since the UNIX epoch, from which on it no
/// longer does.
pub struct AuthkeyView {
    pub key: Seq<char>,
    pub expires: nat,
    pub uid: u32,
}

impl AuthkeyView {
    /// Whether the key is still valid at `now`.
    pub open spec fn live_at(self, now: nat) -> bool {
        now < self.expires
    }

    /// The key that is handed to user `uid` at `now` for `validity`
    /// nanoseconds under the key string `key`.
    pub open spec fn generated(uid: u32, validity: nat, now: nat, key: Seq<char>) -> AuthkeyView {
        AuthkeyView { key, expires: now + validity, uid }
    }
}

/// An authentication key to access privileged actions.
#[derive(Debug)]
pub struct Authkey {
    authkey: String,
    expires: Timestamp,
    uid: u32,
}

impl View for Authkey {
    type V = AuthkeyView;

    closed spec fn view(&self) -> AuthkeyView {
        AuthkeyView { key: self.authkey@, expires: self.expires@, uid: self.uid }
    }
}

impl Clone for Authkey {
    fn clone(&self) -> (res: Self)
        ensures
            res == *self,
    {
        Authkey { authkey: self.authkey.clone(), expires: self.expires, uid: self.uid }
    }
}

impl Authkey {
    /// Makes the key that authenticates `uid` from `now` on for `validity`,
    /// under the key string `key`.
    pub fn generate(uid: u32, validity: Validity, now: Timestamp, key: String) -> (res: Self)
        requires
            now@ + validity@ <= u128::MAX,
        ensures
            res@ == AuthkeyView::generated(uid, validity@, now@, key@),
    {
        Authkey { authkey: key, expires: now.plus(validity), uid }
    }

    /// Generates a new key for `uid` that is valid for `validity` from now
    /// on, under a key string drawn at random.
    pub fn generate_now(uid: u32, validity: Validity) -> (res: Self)
        ensures
            res@.uid == uid,
            is_key_text(res@.key),
            validity@ <= res@.expires <= clock_max() + validity@,
    {
        let now = Timestamp::now();
        let key = random_key_string();
        proof {
            validity.lemma_bounded();
        }
        Authkey::generate(uid, validity, now, key)
    }

    /// Returns the key string of this key.
    pub fn key(&self) -> (key: &str)
        ensures
            key@ == self@.key,
    {
        self.authkey.as_str()
    }

    /// Returns the id of the user that this key authenticates.
    pub fn uid(&self) -> (uid: u32)
        ensures
            uid == self@.uid,
    {
        self.uid
    }

    /// Returns the instant at which this key expires.
    pub fn expires(&self) -> (expires: &Timestamp)
        ensures
            expires@ == self@.expires,
    {
        &self.expires
    }

    /// Whether the key is valid at `now`: it is until the instant at which
    /// it expires, and no longer at that instant.
    pub fn is_live(&self, now: Timestamp) -> (live: bool)
        ensures
            live == self@.live_at(now@),
    {
        now.is_before(&self.expires)
    }

    /// Whether the key is valid at the time of calling: the answer of
    /// [`Authkey::is_live`] for the instant that the system clock shows.
    pub fn is_valid_now(&self) -> (valid: bool)
        ensures
            exists|now: Timestamp| #[trigger] now.on_clock() && valid == self@.live_at(now@),
    {
        let now = Timestamp::now();
        let valid = self.is_live(now);
        assert(now.on_clock() && valid == self@.live_at(now@));
        valid
    }
}

/// `Uuid::new_v4` draws a random UUID, in which only the version, 4, and the
/// two bits of the variant are fixed, and its `Display` writes it in the
/// hyphenated lower-case form: 32 hexadecimal digits in groups of 8, 4, 4, 4
/// and 12 with a hyphen between two groups. Which digits come out is left
/// open but for the first of the third group, which is the version, and the
/// first of the fourth, which holds the variant. Where the operating system hands out no random bytes, the
/// call does not come back.
#[verifier::external_body]
pub(crate) fn random_key_string() -> (key: String)
    ensures
        is_key_text(key@),
{
    uuid::Uuid::new_v4().to_string()
}

} // verus!
