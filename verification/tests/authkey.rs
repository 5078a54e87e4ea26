use libvelocity::Authkey;
use libvelocity::Timestamp;
use libvelocity::Validity;

fn is_lower_hex(c: char) -> bool {
    c.is_ascii_digit() || ('a'..='f').contains(&c)
}

fn has_key_shape(key: &str) -> bool {
    key.chars().count() == 36
        && key.chars().enumerate().all(|(i, c)| match i {
            8 | 13 | 18 | 23 => c == '-',
            14 => c == '4',
            19 => "89ab".contains(c),
            _ => is_lower_hex(c),
        })
}

#[test]
fn generate_keeps_what_it_is_given() {
    let now = Timestamp::from_unix(1_700_000_000, 250);
    let key = Authkey::generate(7, Validity::new(10, 500), now, "abc".to_string());
    assert_eq!(key.key(), "abc");
    assert_eq!(key.uid(), 7);
    assert_eq!(key.expires().as_nanos(), 1_700_000_010_000_000_750);
}

#[test]
fn key_is_live_until_the_instant_it_expires() {
    let now = Timestamp::from_unix(100, 0);
    let key = Authkey::generate(1, Validity::from_secs(10), now, "k".to_string());
    assert!(key.is_live(Timestamp::from_unix(100, 0)));
    assert!(key.is_live(Timestamp::from_unix(109, 999_999_999)));
    assert!(!key.is_live(Timestamp::from_unix(110, 0)));
    assert!(!key.is_live(Timestamp::from_unix(110, 1)));
    assert!(key.is_live(Timestamp::from_unix(0, 0)));
}

#[test]
fn key_without_validity_is_never_live() {
    let now = Timestamp::from_unix(100, 0);
    let key = Authkey::generate(1, Validity::from_secs(0), now, "k".to_string());
    assert!(!key.is_live(now));
    assert!(key.is_live(Timestamp::from_unix(99, 999_999_999)));
}

#[test]
fn clone_of_a_key_is_the_same_key() {
    let now = Timestamp::from_unix(5, 6);
    let key = Authkey::generate(9, Validity::new(1, 2), now, "some key".to_string());
    let copy = key.clone();
    assert_eq!(copy.key(), key.key());
    assert_eq!(copy.uid(), key.uid());
    assert_eq!(copy.expires(), key.expires());
}

#[test]
fn generate_now_draws_a_key_string_of_the_known_shape() {
    for uid in 0..200 {
        let key = Authkey::generate_now(uid, Validity::from_secs(10));
        assert!(has_key_shape(key.key()), "{}", key.key());
        assert_eq!(key.uid(), uid);
    }
}

#[test]
fn generate_now_draws_another_key_string_each_time() {
    let a = Authkey::generate_now(3, Validity::from_secs(10));
    let b = Authkey::generate_now(3, Validity::from_secs(10));
    assert_ne!(a.key(), b.key());
}

#[test]
fn generate_now_expires_validity_after_the_clock() {
    let before = Timestamp::now();
    let key = Authkey::generate_now(3, Validity::from_secs(10));
    let after = Timestamp::now();
    let ten = 10_000_000_000u128;
    assert!(key.expires().as_nanos() >= before.as_nanos() + ten);
    assert!(key.expires().as_nanos() <= after.as_nanos() + ten);
}

#[test]
fn is_valid_now_goes_by_the_clock() {
    let fresh = Authkey::generate_now(3, Validity::from_secs(1_000));
    assert!(fresh.is_valid_now());
    let stale = Authkey::generate_now(3, Validity::from_secs(0));
    assert!(!stale.is_valid_now());
    let old = Authkey::generate(3, Validity::from_secs(10), Timestamp::from_unix(0, 0), "old".to_string());
    assert!(!old.is_valid_now());
}
