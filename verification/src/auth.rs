//! Authentication of the editor: password hashing with Argon2, session
//! tokens, editor sessions, and rate limiting of login attempts.
//!
//! Instants are given in nanoseconds on a monotonic clock.

use crate::text::{has_prefix, push_char, push_str, str_eq};
use argon2::password_hash::rand_core::{OsRng, RngCore};
use argon2::password_hash::SaltString;
use argon2::{Argon2, PasswordHash, PasswordHasher, PasswordVerifier};
use vstd::prelude::*;

verus! {

// ---------------------------------------------------------------------------
// Hex encoding

/// The lower-case hexadecimal digit of `v` (0 to 15).
pub open spec fn hex_digit(v: int) -> char {
    if v < 10 {
        ((v + 48) as u32) as char
    } else {
        ((v + 87) as u32) as char
    }
}

/// Two lower-case hexadecimal digits per byte, high nibble first.
pub open spec fn hex_text(bytes: Seq<u8>) -> Seq<char>
    decreases bytes.len(),
{
    if bytes.len() == 0 {
        Seq::empty()
    } else {
        hex_text(bytes.drop_last()).push(hex_digit(bytes.last() as int / 16)).push(
            hex_digit(bytes.last() as int % 16),
        )
    }
}

fn hex_char(v: u8) -> (c: char)
    requires
        v < 16,
    ensures
        c == hex_digit(v as int),
{
    if v < 10 {
        crate::text::char_from_ascii((v + 48) as u32)
    } else {
        crate::text::char_from_ascii((v + 87) as u32)
    }
}

/// Simple hex encoding for session tokens.
pub fn encode(bytes: &[u8]) -> (s: String)
    ensures
        s@ == hex_text(bytes@),
{
    let mut s = String::new();
    let mut i: usize = 0;
    while i < bytes.len()
        invariant
            i <= bytes.len(),
            s@ == hex_text(bytes@.take(i as int)),
        decreases bytes.len() - i,
    {
        let b = bytes[i];
        assert(bytes@.take(i + 1).drop_last() =~= bytes@.take(i as int));
        assert((b >> 4u8) == b / 16) by (bit_vector);
        assert((b & 0xfu8) == b % 16) by (bit_vector);
        push_char(&mut s, hex_char(b >> 4));
        push_char(&mut s, hex_char(b & 0xf));
        i += 1;
    }
    assert(bytes@.take(bytes.len() as int) =~= bytes@);
    s
}

// ---------------------------------------------------------------------------
// Passwords

/// Authentication errors.
#[derive(Debug, Clone, PartialEq, Eq)]
pub enum AuthError {
    /// Password hashing failed; the text says why.
    HashingFailed(String),
}

/// `argon2::password_hash::Error`, an error of password hashing.
#[verifier::external_type_specification]
#[verifier::external_body]
pub struct ExPasswordHashError(argon2::password_hash::Error);

/// `hash` is a PHC hash string that Argon2 (default parameters) accepts for
/// `password`.
pub uninterp spec fn argon2_accepts(password: Seq<char>, hash: Seq<char>) -> bool;

/// Parses `hash` with `PasswordHash::new` and verifies `password` against it
/// with `Argon2::default().verify_password`. Claims: the answer is the named
/// verdict; an unparseable hash is refused.
#[verifier::external_body]
fn argon2_verify(password: &str, hash: &str) -> (b: bool)
    ensures
        b == argon2_accepts(password@, hash@),
{
    match PasswordHash::new(hash) {
        Ok(parsed) => Argon2::default().verify_password(password.as_bytes(), &parsed).is_ok(),
        Err(_) => false,
    }
}

/// Hashes `password` with `Argon2::default().hash_password` under a salt that
/// `SaltString::generate(&mut OsRng)` draws, and renders the PHC string.
/// Claims (as the `password-hash` documentation shows): a hash it gives back
/// verifies for the same password. Claims (as the `argon2` source shows): with
/// the default parameters, a generated 16-byte salt and the default 32-byte
/// output, the only error is a password longer than `MAX_PWD_LEN`
/// (`0xFFFF_FFFF`) bytes, so hashing succeeds exactly for shorter passwords.
/// Claims (the PHC string format of `PasswordHash`'s `Display`, with the
/// default algorithm Argon2id, version 19 and parameters m=19456, t=2, p=1):
/// the text starts `$argon2id$v=19$m=19456,t=2,p=1$`. The salt and the
/// hash that follow are random, so nothing more is stated of the text.
#[verifier::external_body]
fn argon2_hash(password: &str) -> (r: Result<String, argon2::password_hash::Error>)
    ensures
        r is Ok <==> password_fits_argon2(password@),
        r matches Ok(h) ==> argon2_accepts(password@, h@) && has_prefix(h@, argon2_phc_prefix()),
{
    let salt = SaltString::generate(&mut OsRng);
    Argon2::default().hash_password(password.as_bytes(), &salt).map(|h| h.to_string())
}

/// The text of a password hashing error (`Display`).
#[verifier::external_body]
fn hash_error_text(e: &argon2::password_hash::Error) -> (s: String) {
    e.to_string()
}

/// Verify a password against a stored hash.
pub fn verify_password(password: &str, hash: &str) -> (b: bool)
    ensures
        b == argon2_accepts(password@, hash@),
{
    argon2_verify(password, hash)
}

/// The start of every hash text that Argon2 with its default settings
/// writes: algorithm, version and parameters in the PHC string format.
pub open spec fn argon2_phc_prefix() -> Seq<char> {
    "$argon2id$v=19$m=19456,t=2,p=1$"@
}

/// Argon2 takes passwords of at most `0xFFFF_FFFF` bytes (UTF-8).
pub open spec fn password_fits_argon2(password: Seq<char>) -> bool {
    vstd::utf8::encode_utf8(password).len() <= 0xFFFF_FFFF
}

/// Hash a password using Argon2. It succeeds exactly for a password that
/// Argon2 takes, and a hash it gives back verifies for the same password.
pub fn hash_password(password: &str) -> (r: Result<String, AuthError>)
    ensures
        r is Ok <==> password_fits_argon2(password@),
        r matches Ok(h) ==> argon2_accepts(password@, h@) && has_prefix(h@, argon2_phc_prefix()),
{
    match argon2_hash(password) {
        Ok(h) => Ok(h),
        Err(e) => Err(AuthError::HashingFailed(hash_error_text(&e))),
    }
}

/// The editor's password hash: the configured hash where one is set, else a
/// hash of the development password `dev`. The hash of `dev` is made once
/// and kept in `dev_hash`, so that every later call gives the same text.
pub fn get_password_hash_or_default(configured: Option<String>, dev_hash: &mut Option<String>) -> (r:
    Result<String, AuthError>)
    ensures
        configured matches Some(h) ==> r == Ok::<String, AuthError>(h) && *final(dev_hash) == *old(
            dev_hash,
        ),
        configured is None ==> match *old(dev_hash) {
            Some(c) => r == Ok::<String, AuthError>(c) && *final(dev_hash) == *old(dev_hash),
            None => r matches Ok(h) && h@.len() > 0 && argon2_accepts("dev"@, h@) && has_prefix(
                h@,
                argon2_phc_prefix(),
            ) && *final(dev_hash) == Some(h),
        },
{
    match configured {
        Some(h) => Ok(h),
        None => {
            if let Some(c) = &*dev_hash {
                return Ok(c.clone());
            }
            proof {
                reveal_strlit("dev");
                lemma_encode_utf8_len_bound("dev"@);
                reveal_strlit("$argon2id$v=19$m=19456,t=2,p=1$");
            }
            match hash_password("dev") {
                Ok(h) => {
                    *dev_hash = Some(h.clone());
                    Ok(h)
                },
                Err(e) => Err(e),
            }
        },
    }
}

/// A UTF-8 encoding takes at most four bytes per character.
proof fn lemma_encode_utf8_len_bound(s: Seq<char>)
    ensures
        vstd::utf8::encode_utf8(s).len() <= 4 * s.len(),
    decreases s.len(),
{
    if s.len() > 0 {
        lemma_encode_utf8_len_bound(s.drop_first());
    }
}

// ---------------------------------------------------------------------------
// Session tokens

/// One character of the standard Base64 alphabet (`A`-`Z`, `a`-`z`, `0`-`9`,
/// `+`, `/`).
pub open spec fn is_b64_char(c: char) -> bool {
    ('A' <= c <= 'Z') || ('a' <= c <= 'z') || ('0' <= c <= '9') || c == '+' || c == '/'
}

/// A salt text as `SaltString::generate` draws it: 16 random bytes in
/// unpadded standard Base64, which is 22 characters of its alphabet.
pub open spec fn is_generated_salt(s: Seq<char>) -> bool {
    s.len() == 22 && forall|i: int| 0 <= i < s.len() ==> is_b64_char(#[trigger] s[i])
}

/// Draws a salt string with `SaltString::generate(&mut OsRng)`. Claims (as
/// the `password-hash` source shows: 16 random bytes encoded as unpadded
/// standard Base64): it is 22 Base64 characters; which ones is random.
#[verifier::external_body]
fn random_salt_text() -> (s: String)
    ensures
        is_generated_salt(s@),
{
    SaltString::generate(&mut OsRng).as_str().to_string()
}

/// Fills 32 bytes with `OsRng.fill_bytes`. Claims: 32 bytes come back; they
/// are random, nothing else is stated.
#[verifier::external_body]
fn random_token_bytes() -> (b: Vec<u8>)
    ensures
        b.len() == 32,
{
    let mut bytes = [0u8; 32];
    OsRng.fill_bytes(&mut bytes);
    bytes.to_vec()
}

/// A session token made of a salt text and token bytes: the salt, `_`, and
/// the bytes in hexadecimal.
pub open spec fn session_token_text(salt: Seq<char>, bytes: Seq<u8>) -> Seq<char> {
    salt + seq!['_'] + hex_text(bytes)
}

/// The session token of a salt text and token bytes.
pub fn session_token_from(salt: &str, bytes: &[u8]) -> (t: String)
    ensures
        t@ == session_token_text(salt@, bytes@),
{
    let mut t = String::new();
    push_str(&mut t, salt);
    push_char(&mut t, '_');
    let hex = encode(bytes);
    push_str(&mut t, hex.as_str());
    assert(t@ =~= session_token_text(salt@, bytes@));
    t
}

/// Generate a cryptographically secure session token: a random salt text,
/// `_`, and 32 random bytes in hexadecimal.
pub fn generate_session_token() -> (t: String)
    ensures
        exists|salt: Seq<char>, bytes: Seq<u8>|
            is_generated_salt(salt) && bytes.len() == 32 && t@ == session_token_text(salt, bytes),
{
    let salt = random_salt_text();
    let bytes = random_token_bytes();
    let t = session_token_from(salt.as_str(), bytes.as_slice());
    assert(is_generated_salt(salt@) && bytes@.len() == 32 && t@ == session_token_text(salt@, bytes@));
    t
}

// ---------------------------------------------------------------------------
// Keyed tables

/// The keys of the table are distinct.
pub open spec fn keys_unique<V>(es: Seq<(Seq<char>, V)>) -> bool {
    forall|i: int, j: int| 0 <= i < j < es.len() ==> #[trigger] es[i].0 != #[trigger] es[j].0
}

/// The value of key `k` in the table, if the key is present.
pub open spec fn lookup<V>(es: Seq<(Seq<char>, V)>, k: Seq<char>) -> Option<V> {
    if exists|i: int| 0 <= i < es.len() && #[trigger] es[i].0 == k {
        Some(es[choose|i: int| 0 <= i < es.len() && #[trigger] es[i].0 == k].1)
    } else {
        None
    }
}

proof fn lemma_lookup_at<V>(es: Seq<(Seq<char>, V)>, i: int, k: Seq<char>)
    requires
        keys_unique(es),
        0 <= i < es.len(),
        es[i].0 == k,
    ensures
        lookup(es, k) == Some(es[i].1),
{
    let j = choose|j: int| 0 <= j < es.len() && #[trigger] es[j].0 == k;
    assert(0 <= j < es.len() && es[j].0 == k);
    if j < i {
        assert(es[j].0 != es[i].0);
    } else if j > i {
        assert(es[i].0 != es[j].0);
    }
}

// ---------------------------------------------------------------------------
// Login rate limiting

/// Maximum failed login attempts per minute and client.
pub const MAX_LOGIN_ATTEMPTS_PER_MINUTE: usize = 5;

/// Length of the rate-limiting window in nanoseconds (one minute).
pub const RATE_LIMIT_WINDOW_NANOS: u128 = 60_000_000_000;

/// Start of the window ending at `now`: a minute earlier, or `now` itself
/// where the clock does not reach back a minute.
pub open spec fn window_start(now: u128) -> u128 {
    if now >= RATE_LIMIT_WINDOW_NANOS {
        (now - RATE_LIMIT_WINDOW_NANOS) as u128
    } else {
        now
    }
}

/// The instants strictly after `after`, in order.
pub open spec fn recent(times: Seq<u128>, after: u128) -> Seq<u128>
    decreases times.len(),
{
    if times.len() == 0 {
        times
    } else if times.last() > after {
        recent(times.drop_last(), after).push(times.last())
    } else {
        recent(times.drop_last(), after)
    }
}

/// Failed attempts of each client within the last minute.
pub struct LoginRateLimiter {
    attempts: Vec<(String, Vec<u128>)>,
}

/// The view of a table of strings to instants.
pub open spec fn attempts_view(es: Seq<(String, Vec<u128>)>) -> Seq<(Seq<char>, Seq<u128>)> {
    es.map_values(|e: (String, Vec<u128>)| (e.0@, e.1@))
}

fn recent_times(times: &Vec<u128>, after: u128) -> (r: Vec<u128>)
    ensures
        r@ == recent(times@, after),
{
    let mut r: Vec<u128> = Vec::new();
    let mut i: usize = 0;
    while i < times.len()
        invariant
            i <= times.len(),
            r@ == recent(times@.take(i as int), after),
        decreases times.len() - i,
    {
        assert(times@.take(i + 1).drop_last() =~= times@.take(i as int));
        if times[i] > after {
            r.push(times[i]);
        }
        i += 1;
    }
    assert(times@.take(times.len() as int) =~= times@);
    r
}

fn window_start_of(now: u128) -> (w: u128)
    ensures
        w == window_start(now),
{
    if now >= RATE_LIMIT_WINDOW_NANOS {
        now - RATE_LIMIT_WINDOW_NANOS
    } else {
        now
    }
}

impl LoginRateLimiter {
    /// The table of failed attempts, by client.
    pub closed spec fn table(&self) -> Seq<(Seq<char>, Seq<u128>)> {
        attempts_view(self.attempts@)
    }

    /// The recorded failed attempts of a client, if any entry exists for it.
    pub open spec fn attempts_of(&self, ip: Seq<char>) -> Option<Seq<u128>> {
        lookup(self.table(), ip)
    }

    /// Each client has at most one entry.
    pub open spec fn wf(&self) -> bool {
        keys_unique(self.table())
    }

    /// Creates a new rate limiter with no attempts.
    pub fn new() -> (l: Self)
        ensures
            l.wf(),
            forall|ip: Seq<char>| #[trigger] l.attempts_of(ip) is None,
    {
        let l = LoginRateLimiter { attempts: Vec::new() };
        assert(l.table() =~= Seq::<(Seq<char>, Seq<u128>)>::empty());
        l
    }

    /// Rebuilds the table with the entry of `ip` (if any) replaced by its
    /// attempts after `after`, followed by `extra` where `push` is set; an
    /// absent entry is created.
    fn refresh_entry(&mut self, ip: &str, after: u128, push: Option<u128>) -> (count: usize)
        requires
            old(self).wf(),
        ensures
            final(self).wf(),
            ({
                let base = match old(self).attempts_of(ip@) {
                    Some(ts) => recent(ts, after),
                    None => Seq::empty(),
                };
                let new_ts = match push {
                    Some(t) => base.push(t),
                    None => base,
                };
                &&& final(self).attempts_of(ip@) == Some(new_ts)
                &&& count == base.len()
            }),
            forall|other: Seq<char>|
                other != ip@ ==> #[trigger] final(self).attempts_of(other) == old(self).attempts_of(
                    other,
                ),
    {
        let ghost old_table = self.table();
        let n = self.attempts.len();
        let mut out: Vec<(String, Vec<u128>)> = Vec::new();
        let mut found: bool = false;
        let mut count: usize = 0;
        let mut i: usize = 0;
        while i < n
            invariant
                n == self.attempts.len(),
                old_table == self.table(),
                keys_unique(old_table),
                i <= n,
                out.len() == i,
                forall|j: int| 0 <= j < i ==> #[trigger] attempts_view(out@)[j].0 == old_table[j].0,
                forall|j: int|
                    0 <= j < i && old_table[j].0 != ip@ ==> #[trigger] attempts_view(out@)[j].1
                        == old_table[j].1,
                forall|j: int|
                    0 <= j < i && old_table[j].0 == ip@ ==> #[trigger] attempts_view(out@)[j].1 == (
                    match push {
                        Some(t) => recent(old_table[j].1, after).push(t),
                        None => recent(old_table[j].1, after),
                    }),
                found == exists|j: int| 0 <= j < i && #[trigger] old_table[j].0 == ip@,
                forall|j: int|
                    0 <= j < i && #[trigger] old_table[j].0 == ip@ ==> count == recent(
                        old_table[j].1,
                        after,
                    ).len(),
            decreases n - i,
        {
            let key = self.attempts[i].0.clone();
            assert(old_table[i as int].0 == self.attempts@[i as int].0@);
            assert(old_table[i as int].1 == self.attempts@[i as int].1@);
            let ghost prev_out = out@;
            if str_eq(key.as_str(), ip) {
                let mut kept = recent_times(&self.attempts[i].1, after);
                count = kept.len();
                match push {
                    Some(t) => kept.push(t),
                    None => {},
                }
                proof {
                    if found {
                        let j = choose|j: int| 0 <= j < i && #[trigger] old_table[j].0 == ip@;
                        assert(old_table[j].0 == old_table[i as int].0);
                    }
                }
                out.push((key, kept));
                found = true;
            } else {
                let kept = copy_times(&self.attempts[i].1);
                out.push((key, kept));
            }
            assert(attempts_view(out@) =~= attempts_view(prev_out).push(
                (out@[i as int].0@, out@[i as int].1@),
            ));
            assert(attempts_view(out@)[i as int].0 == old_table[i as int].0);
            i += 1;
        }
        let ghost mid = attempts_view(out@);
        assert(keys_unique(mid)) by {
            assert forall|a: int, b: int| 0 <= a < b < mid.len() implies #[trigger] mid[a].0
                != #[trigger] mid[b].0 by {
                assert(old_table[a].0 != old_table[b].0);
            }
        }
        if !found {
            let mut fresh: Vec<u128> = Vec::new();
            match push {
                Some(t) => fresh.push(t),
                None => {},
            }
            count = 0;
            out.push((String::from_str(ip), fresh));
        }
        let ghost new_table = attempts_view(out@);
        proof {
            if !found {
                assert(forall|j: int| 0 <= j < mid.len() ==> new_table[j] == mid[j]);
                assert(new_table[mid.len() as int].0 == ip@);
                assert forall|a: int, b: int| 0 <= a < b < new_table.len() implies #[trigger] new_table[a].0
                    != #[trigger] new_table[b].0 by {
                    if b == mid.len() {
                        assert(old_table[a].0 != ip@);
                    } else {
                        assert(mid[a].0 != mid[b].0);
                    }
                }
            } else {
                assert(new_table =~= mid);
            }
        }
        self.attempts = out;
        proof {
            assert(self.table() == new_table);
            // The entry of `ip`.
            if found {
                let j = choose|j: int| 0 <= j < n && #[trigger] old_table[j].0 == ip@;
                lemma_lookup_at(old_table, j, ip@);
                lemma_lookup_at(new_table, j, ip@);
            } else {
                assert(forall|j: int| 0 <= j < old_table.len() ==> #[trigger] old_table[j].0 != ip@);
                lemma_lookup_at(new_table, mid.len() as int, ip@);
            }
            // Every other entry.
            assert forall|other: Seq<char>| other != ip@ implies #[trigger] lookup(new_table, other)
                == lookup(old_table, other) by {
                if exists|j: int| 0 <= j < old_table.len() && #[trigger] old_table[j].0 == other {
                    let j = choose|j: int| 0 <= j < old_table.len() && #[trigger] old_table[j].0
                        == other;
                    lemma_lookup_at(old_table, j, other);
                    lemma_lookup_at(new_table, j, other);
                } else {
                    assert forall|j: int| 0 <= j < new_table.len() implies #[trigger] new_table[j].0
                        != other by {
                        if j < old_table.len() {
                            assert(old_table[j].0 != other);
                        }
                    }
                }
            }
        }
        count
    }

    /// Clear the rate limit of a client (on successful login).
    pub fn clear_attempts(&mut self, ip: &str)
        requires
            old(self).wf(),
        ensures
            final(self).wf(),
            final(self).attempts_of(ip@) is None,
            forall|other: Seq<char>|
                other != ip@ ==> #[trigger] final(self).attempts_of(other) == old(self).attempts_of(
                    other,
                ),
    {
        let ghost old_table = self.table();
        let n = self.attempts.len();
        let mut out: Vec<(String, Vec<u128>)> = Vec::new();
        let ghost mut kept_idx: Seq<int> = Seq::empty();
        let mut i: usize = 0;
        while i < n
            invariant
                n == self.attempts.len(),
                old_table == self.table(),
                keys_unique(old_table),
                i <= n,
                out.len() == kept_idx.len(),
                forall|j: int|
                    0 <= j < kept_idx.len() ==> 0 <= #[trigger] kept_idx[j] < i
                        && attempts_view(out@)[j] == old_table[kept_idx[j]]
                        && old_table[kept_idx[j]].0 != ip@,
                forall|a: int, b: int| 0 <= a < b < kept_idx.len() ==> #[trigger] kept_idx[a] < #[trigger] kept_idx[b],
                forall|j: int|
                    0 <= j < i && #[trigger] old_table[j].0 != ip@ ==> exists|q: int|
                        0 <= q < kept_idx.len() && kept_idx[q] == j,
            decreases n - i,
        {
            assert(old_table[i as int].0 == self.attempts@[i as int].0@);
            assert(old_table[i as int].1 == self.attempts@[i as int].1@);
            let ghost prev_out = out@;
            let ghost prev_idx = kept_idx;
            if !str_eq(self.attempts[i].0.as_str(), ip) {
                let key = self.attempts[i].0.clone();
                let kept = copy_times(&self.attempts[i].1);
                out.push((key, kept));
                proof {
                    kept_idx = kept_idx.push(i as int);
                    assert(kept_idx[kept_idx.len() - 1] == i);
                    assert(attempts_view(out@) =~= attempts_view(prev_out).push(
                        (out@[out.len() - 1].0@, out@[out.len() - 1].1@),
                    ));
                }
            }
            proof {
                assert forall|j: int|
                    0 <= j < i + 1 && #[trigger] old_table[j].0 != ip@ implies exists|q: int|
                        0 <= q < kept_idx.len() && kept_idx[q] == j by {
                    if j < i {
                        let q = choose|q: int| 0 <= q < prev_idx.len() && prev_idx[q] == j;
                        assert(kept_idx[q] == j);
                    } else {
                        assert(kept_idx[kept_idx.len() - 1] == j);
                    }
                }
            }
            i += 1;
        }
        let ghost new_table = attempts_view(out@);
        proof {
            assert forall|a: int, b: int| 0 <= a < b < new_table.len() implies #[trigger] new_table[a].0
                != #[trigger] new_table[b].0 by {
                assert(kept_idx[a] < kept_idx[b]);
                assert(old_table[kept_idx[a]].0 != old_table[kept_idx[b]].0);
            }
        }
        self.attempts = out;
        proof {
            assert(self.table() == new_table);
            assert forall|j: int| 0 <= j < new_table.len() implies #[trigger] new_table[j].0 != ip@ by {
                assert(new_table[j] == old_table[kept_idx[j]]);
            }
            assert forall|other: Seq<char>| other != ip@ implies #[trigger] lookup(new_table, other)
                == lookup(old_table, other) by {
                if exists|j: int| 0 <= j < old_table.len() && #[trigger] old_table[j].0 == other {
                    let j = choose|j: int| 0 <= j < old_table.len() && #[trigger] old_table[j].0
                        == other;
                    lemma_lookup_at(old_table, j, other);
                    let q = choose|q: int| 0 <= q < kept_idx.len() && kept_idx[q] == j;
                    assert(new_table[q] == old_table[j]);
                    lemma_lookup_at(new_table, q, other);
                } else {
                    assert forall|j: int| 0 <= j < new_table.len() implies #[trigger] new_table[j].0
                        != other by {
                        assert(new_table[j] == old_table[kept_idx[j]]);
                    }
                }
            }
        }
    }

    /// Check if the client has exceeded the rate limit at instant `now`:
    /// five or more failed attempts within the last minute. Attempts older
    /// than a minute are forgotten; no attempt is added (a client without an
    /// entry gets an empty one).
    pub fn is_rate_limited(&mut self, ip: &str, now: u128) -> (limited: bool)
        requires
            old(self).wf(),
        ensures
            final(self).wf(),
            ({
                let kept = match old(self).attempts_of(ip@) {
                    Some(ts) => recent(ts, window_start(now)),
                    None => Seq::empty(),
                };
                &&& final(self).attempts_of(ip@) == Some(kept)
                &&& limited == (kept.len() >= MAX_LOGIN_ATTEMPTS_PER_MINUTE)
            }),
            forall|other: Seq<char>|
                other != ip@ ==> #[trigger] final(self).attempts_of(other) == old(self).attempts_of(
                    other,
                ),
    {
        let ws = window_start_of(now);
        let count = self.refresh_entry(ip, ws, None);
        count >= MAX_LOGIN_ATTEMPTS_PER_MINUTE
    }

    /// Record a failed login attempt of the client at instant `now`,
    /// forgetting its attempts older than a minute.
    pub fn record_failed_attempt(&mut self, ip: &str, now: u128)
        requires
            old(self).wf(),
        ensures
            final(self).wf(),
            final(self).attempts_of(ip@) == Some(
                match old(self).attempts_of(ip@) {
                    Some(ts) => recent(ts, window_start(now)),
                    None => Seq::empty(),
                }.push(now),
            ),
            forall|other: Seq<char>|
                other != ip@ ==> #[trigger] final(self).attempts_of(other) == old(self).attempts_of(
                    other,
                ),
    {
        let ws = window_start_of(now);
        let _ = self.refresh_entry(ip, ws, Some(now));
    }
}

fn copy_times(times: &Vec<u128>) -> (r: Vec<u128>)
    ensures
        r@ == times@,
{
    let mut r: Vec<u128> = Vec::new();
    let mut i: usize = 0;
    while i < times.len()
        invariant
            i <= times.len(),
            r@ == times@.take(i as int),
        decreases times.len() - i,
    {
        r.push(times[i]);
        assert(times@.take(i + 1) =~= times@.take(i as int).push(times@[i as int]));
        i += 1;
    }
    assert(times@.take(times.len() as int) =~= times@);
    r
}

// ---------------------------------------------------------------------------
// Editor sessions

/// Default session duration in hours.
pub const SESSION_DURATION_HOURS: u64 = 24;

/// Session duration in seconds: the configured number of hours (read as
/// `u64`) where it parses, else 24 hours, times 3600 (saturating).
pub open spec fn session_duration_secs_of(configured: Option<Seq<char>>) -> int {
    let hours = match configured {
        Some(s) => match crate::text::parse_int(s, 0, u64::MAX as int) {
            Some(h) => h,
            None => SESSION_DURATION_HOURS as int,
        },
        None => SESSION_DURATION_HOURS as int,
    };
    if hours * 3600 > u64::MAX {
        u64::MAX as int
    } else {
        hours * 3600
    }
}

/// The session duration in seconds from the configured number of hours.
pub fn session_duration_secs(configured: Option<&str>) -> (secs: u64)
    ensures
        secs == session_duration_secs_of(crate::dates::opt_str_view(configured)),
{
    let hours: u64 = match configured {
        Some(s) => {
            let cs = crate::text::chars_of(s);
            match crate::text::parse_integer(&cs, 0, u64::MAX as i128) {
                Some(h) => h as u64,
                None => SESSION_DURATION_HOURS,
            }
        },
        None => SESSION_DURATION_HOURS,
    };
    if hours > u64::MAX / 3600 {
        u64::MAX
    } else {
        hours * 3600
    }
}

/// Editor session tokens with the instant at which each expires.
pub struct SessionStore {
    sessions: Vec<(String, u128)>,
}

/// The view of a table of strings to instants.
pub open spec fn sessions_view(es: Seq<(String, u128)>) -> Seq<(Seq<char>, u128)> {
    es.map_values(|e: (String, u128)| (e.0@, e.1))
}

/// Whether an entry with key `k` and expiry `e` survives a rebuild that drops
/// the key `drop` and every entry expiring at or before `now`.
pub open spec fn survives(k: Seq<char>, e: u128, drop: Option<Seq<char>>, now: Option<u128>) -> bool {
    &&& !(drop matches Some(d) && d == k)
    &&& (now matches Some(t) ==> e > t)
}

impl SessionStore {
    /// The table of sessions.
    pub closed spec fn table(&self) -> Seq<(Seq<char>, u128)> {
        sessions_view(self.sessions@)
    }

    /// The expiry of a session token, if the token is known.
    pub open spec fn expiry_of(&self, token: Seq<char>) -> Option<u128> {
        lookup(self.table(), token)
    }

    /// Each token has at most one entry.
    pub open spec fn wf(&self) -> bool {
        keys_unique(self.table())
    }

    /// An empty store.
    pub fn new() -> (st: Self)
        ensures
            st.wf(),
            forall|t: Seq<char>| #[trigger] st.expiry_of(t) is None,
    {
        let st = SessionStore { sessions: Vec::new() };
        assert(st.table() =~= Seq::<(Seq<char>, u128)>::empty());
        st
    }

    fn rebuild(&mut self, drop: Option<&str>, now: Option<u128>)
        requires
            old(self).wf(),
        ensures
            final(self).wf(),
            forall|k: Seq<char>|
                #[trigger] final(self).expiry_of(k) == (match old(self).expiry_of(k) {
                    Some(e) => if survives(k, e, crate::dates::opt_str_view(drop), now) {
                        Some(e)
                    } else {
                        None
                    },
                    None => None,
                }),
    {
        let ghost old_table = self.table();
        let ghost dropv = crate::dates::opt_str_view(drop);
        let n = self.sessions.len();
        let mut out: Vec<(String, u128)> = Vec::new();
        let ghost mut kept_idx: Seq<int> = Seq::empty();
        let mut i: usize = 0;
        while i < n
            invariant
                n == self.sessions.len(),
                old_table == self.table(),
                keys_unique(old_table),
                dropv == crate::dates::opt_str_view(drop),
                i <= n,
                out.len() == kept_idx.len(),
                forall|j: int|
                    0 <= j < kept_idx.len() ==> 0 <= #[trigger] kept_idx[j] < i
                        && sessions_view(out@)[j] == old_table[kept_idx[j]]
                        && survives(old_table[kept_idx[j]].0, old_table[kept_idx[j]].1, dropv, now),
                forall|a: int, b: int|
                    0 <= a < b < kept_idx.len() ==> #[trigger] kept_idx[a] < #[trigger] kept_idx[b],
                forall|j: int|
                    0 <= j < i && survives(#[trigger] old_table[j].0, old_table[j].1, dropv, now)
                        ==> exists|q: int| 0 <= q < kept_idx.len() && kept_idx[q] == j,
            decreases n - i,
        {
            assert(old_table[i as int].0 == self.sessions@[i as int].0@);
            assert(old_table[i as int].1 == self.sessions@[i as int].1);
            let expiry = self.sessions[i].1;
            let key_dropped = match drop {
                Some(d) => str_eq(self.sessions[i].0.as_str(), d),
                None => false,
            };
            let expired = match now {
                Some(t) => expiry <= t,
                None => false,
            };
            let ghost prev_out = out@;
            let ghost prev_idx = kept_idx;
            if !key_dropped && !expired {
                let key = self.sessions[i].0.clone();
                out.push((key, expiry));
                proof {
                    kept_idx = kept_idx.push(i as int);
                    assert(kept_idx[kept_idx.len() - 1] == i);
                    assert(sessions_view(out@) =~= sessions_view(prev_out).push(
                        (out@[out.len() - 1].0@, out@[out.len() - 1].1),
                    ));
                }
            }
            proof {
                assert forall|j: int|
                    0 <= j < i + 1 && survives(#[trigger] old_table[j].0, old_table[j].1, dropv, now)
                        implies exists|q: int| 0 <= q < kept_idx.len() && kept_idx[q] == j by {
                    if j < i {
                        let q = choose|q: int| 0 <= q < prev_idx.len() && prev_idx[q] == j;
                        assert(kept_idx[q] == j);
                    } else {
                        assert(kept_idx[kept_idx.len() - 1] == j);
                    }
                }
            }
            i += 1;
        }
        let ghost new_table = sessions_view(out@);
        proof {
            assert forall|a: int, b: int| 0 <= a < b < new_table.len() implies #[trigger] new_table[a].0
                != #[trigger] new_table[b].0 by {
                assert(kept_idx[a] < kept_idx[b]);
                assert(old_table[kept_idx[a]].0 != old_table[kept_idx[b]].0);
            }
        }
        self.sessions = out;
        proof {
            assert(self.table() == new_table);
            assert forall|k: Seq<char>| #[trigger] lookup(new_table, k) == (match lookup(old_table, k) {
                Some(e) => if survives(k, e, dropv, now) {
                    Some(e)
                } else {
                    None
                },
                None => None,
            }) by {
                if exists|j: int| 0 <= j < old_table.len() && #[trigger] old_table[j].0 == k {
                    let j = choose|j: int| 0 <= j < old_table.len() && #[trigger] old_table[j].0 == k;
                    lemma_lookup_at(old_table, j, k);
                    if survives(k, old_table[j].1, dropv, now) {
                        let q = choose|q: int| 0 <= q < kept_idx.len() && kept_idx[q] == j;
                        assert(new_table[q] == old_table[j]);
                        lemma_lookup_at(new_table, q, k);
                    } else {
                        assert forall|q: int| 0 <= q < new_table.len() implies #[trigger] new_table[q].0
                            != k by {
                            assert(new_table[q] == old_table[kept_idx[q]]);
                            if kept_idx[q] == j {
                            } else if kept_idx[q] < j {
                                assert(old_table[kept_idx[q]].0 != old_table[j].0);
                            } else {
                                assert(old_table[j].0 != old_table[kept_idx[q]].0);
                            }
                        }
                    }
                } else {
                    assert forall|q: int| 0 <= q < new_table.len() implies #[trigger] new_table[q].0
                        != k by {
                        assert(new_table[q] == old_table[kept_idx[q]]);
                    }
                }
            }
        }
    }

    /// Records a new editor session that expires at `expiry`; an existing
    /// session with the same token is replaced.
    pub fn create_session(&mut self, token: String, expiry: u128)
        requires
            old(self).wf(),
        ensures
            final(self).wf(),
            final(self).expiry_of(token@) == Some(expiry),
            forall|other: Seq<char>|
                other != token@ ==> #[trigger] final(self).expiry_of(other) == old(self).expiry_of(
                    other,
                ),
    {
        let ts = token.as_str();
        self.rebuild(Some(ts), None);
        let ghost mid = self.table();
        assert(self.expiry_of(token@) is None) by {
            assert(crate::dates::opt_str_view(Some(ts)) == Some(token@));
            assert(self.expiry_of(token@) == (match old(self).expiry_of(token@) {
                Some(e) => if survives(token@, e, Some(token@), None) {
                    Some(e)
                } else {
                    None
                },
                None => None,
            }));
        }
        assert forall|other: Seq<char>| other != token@ implies #[trigger] lookup(mid, other)
            == old(self).expiry_of(other) by {
            assert(crate::dates::opt_str_view(Some(ts)) == Some(token@));
            assert(self.expiry_of(other) == (match old(self).expiry_of(other) {
                Some(e) => if survives(other, e, Some(token@), None) {
                    Some(e)
                } else {
                    None
                },
                None => None,
            }));
        }
        assert(forall|j: int| 0 <= j < mid.len() ==> #[trigger] mid[j].0 != token@) by {
            assert forall|j: int| 0 <= j < mid.len() implies #[trigger] mid[j].0 != token@ by {
                if mid[j].0 == token@ {
                    lemma_lookup_at(mid, j, token@);
                }
            }
        }
        let ghost key = token@;
        self.sessions.push((token, expiry));
        proof {
            let t = self.table();
            assert(t =~= mid.push((key, expiry)));
            assert forall|a: int, b: int| 0 <= a < b < t.len() implies #[trigger] t[a].0
                != #[trigger] t[b].0 by {
                if b == mid.len() {
                    assert(mid[a].0 != key);
                } else {
                    assert(mid[a].0 != mid[b].0);
                }
            }
            lemma_lookup_at(t, mid.len() as int, key);
            assert forall|other: Seq<char>| other != key implies #[trigger] lookup(t, other) == lookup(
                mid,
                other,
            ) by {
                if exists|j: int| 0 <= j < mid.len() && #[trigger] mid[j].0 == other {
                    let j = choose|j: int| 0 <= j < mid.len() && #[trigger] mid[j].0 == other;
                    lemma_lookup_at(mid, j, other);
                    lemma_lookup_at(t, j, other);
                } else {
                    assert forall|q: int| 0 <= q < t.len() implies #[trigger] t[q].0 != other by {
                        if q < mid.len() {
                            assert(mid[q].0 != other);
                        }
                    }
                }
            }
        }
    }

    /// Validates a session token at instant `now`: expired sessions are
    /// forgotten, and the token is valid if its session expires after `now`.
    pub fn validate_session(&mut self, token: &str, now: u128) -> (valid: bool)
        requires
            old(self).wf(),
        ensures
            final(self).wf(),
            valid == (old(self).expiry_of(token@) matches Some(e) && e > now),
            forall|k: Seq<char>|
                #[trigger] final(self).expiry_of(k) == (match old(self).expiry_of(k) {
                    Some(e) => if e > now {
                        Some(e)
                    } else {
                        None
                    },
                    None => None,
                }),
    {
        self.rebuild(None, Some(now));
        let ghost t = self.table();
        assert forall|k: Seq<char>| #[trigger] lookup(t, k) == (match old(self).expiry_of(k) {
            Some(e) => if e > now {
                Some(e)
            } else {
                None
            },
            None => None,
        }) by {
            assert(self.expiry_of(k) == lookup(t, k));
        }
        let n = self.sessions.len();
        let mut i: usize = 0;
        while i < n
            invariant
                n == self.sessions.len(),
                t == self.table(),
                keys_unique(t),
                i <= n,
                forall|j: int| 0 <= j < i ==> #[trigger] t[j].0 != token@,
                forall|k: Seq<char>|
                    #[trigger] lookup(t, k) == (match old(self).expiry_of(k) {
                        Some(e) => if e > now {
                            Some(e)
                        } else {
                            None
                        },
                        None => None,
                    }),
            decreases n - i,
        {
            assert(t[i as int].0 == self.sessions@[i as int].0@);
            assert(t[i as int].1 == self.sessions@[i as int].1);
            if str_eq(self.sessions[i].0.as_str(), token) {
                proof {
                    lemma_lookup_at(t, i as int, token@);
                }
                return self.sessions[i].1 > now;
            }
            i += 1;
        }
        assert(lookup(t, token@) is None);
        assert(lookup(t, token@) == (match old(self).expiry_of(token@) {
            Some(e) => if e > now {
                Some(e)
            } else {
                None
            },
            None => None,
        }));
        false
    }

    /// Invalidates a session token (logout).
    pub fn invalidate_session(&mut self, token: &str)
        requires
            old(self).wf(),
        ensures
            final(self).wf(),
            final(self).expiry_of(token@) is None,
            forall|other: Seq<char>|
                other != token@ ==> #[trigger] final(self).expiry_of(other) == old(self).expiry_of(
                    other,
                ),
    {
        self.rebuild(Some(token), None);
    }
}

/// A session is valid from its creation until it expires, and never after
/// it is invalidated: after creating a session with expiry `expiry`, a check
/// at `now` succeeds exactly when `now < expiry`.
pub proof fn lemma_session_valid_until_expiry(expiry: u128, now: u128)
    ensures
        ((Some(expiry) matches Some(e) && e > now) <==> now < expiry),
        !(None::<u128> matches Some(e) && e > now),
{
}

/// The attempts of a client after failed attempts at each of the instants
/// `ts`, in order, starting from attempts `a`.
pub open spec fn after_failures(a: Seq<u128>, ts: Seq<u128>) -> Seq<u128>
    decreases ts.len(),
{
    if ts.len() == 0 {
        a
    } else {
        recent(after_failures(a, ts.drop_last()), window_start(ts.last())).push(ts.last())
    }
}

proof fn lemma_recent_concat(p: Seq<u128>, q: Seq<u128>, x: u128)
    requires
        forall|k: int| 0 <= k < q.len() ==> q[k] > x,
    ensures
        recent(p + q, x) == recent(p, x) + q,
    decreases q.len(),
{
    if q.len() == 0 {
        assert(p + q =~= p);
        assert(recent(p, x) + q =~= recent(p, x));
    } else {
        assert((p + q).drop_last() =~= p + q.drop_last());
        assert((p + q).last() == q.last());
        lemma_recent_concat(p, q.drop_last(), x);
        assert(recent(p, x) + q.drop_last().push(q.last()) =~= recent(p, x) + q);
        assert(q.drop_last().push(q.last()) =~= q);
    }
}

proof fn lemma_failures_suffix(a: Seq<u128>, ts: Seq<u128>, now: u128)
    requires
        forall|k: int| 0 <= k < ts.len() ==> RATE_LIMIT_WINDOW_NANOS <= #[trigger] ts[k] <= now,
        forall|i: int, j: int| 0 <= i < j < ts.len() ==> #[trigger] ts[i] <= #[trigger] ts[j],
        ts.len() > 0 ==> now < ts[0] + RATE_LIMIT_WINDOW_NANOS,
    ensures
        exists|p: Seq<u128>| after_failures(a, ts) == p + ts,
    decreases ts.len(),
{
    if ts.len() == 0 {
        assert(after_failures(a, ts) == a + ts);
    } else {
        let init = ts.drop_last();
        let t = ts.last();
        lemma_failures_suffix(a, init, now);
        let p = choose|p: Seq<u128>| after_failures(a, init) == p + init;
        let w = window_start(t);
        assert(w == t - RATE_LIMIT_WINDOW_NANOS);
        assert forall|k: int| 0 <= k < init.len() implies init[k] > w by {
            assert(ts[0] <= ts[k]);
        }
        lemma_recent_concat(p, init, w);
        let p2 = recent(p, w);
        assert(after_failures(a, ts) == (p2 + init).push(t));
        assert((p2 + init).push(t) =~= p2 + ts);
    }
}

/// A client that failed five times within the last minute is refused: after
/// failed attempts at instants `ts` (in order, at least five, all within the
/// minute before `now`), whatever was recorded before, the check at `now`
/// sees at least five recent attempts. (Instants are taken to lie at least a
/// minute after the clock's origin, so that the window always reaches back
/// a full minute.)
pub proof fn lemma_five_recent_failures_block(a: Seq<u128>, ts: Seq<u128>, now: u128)
    requires
        ts.len() >= MAX_LOGIN_ATTEMPTS_PER_MINUTE,
        forall|k: int| 0 <= k < ts.len() ==> RATE_LIMIT_WINDOW_NANOS <= #[trigger] ts[k] <= now,
        forall|i: int, j: int| 0 <= i < j < ts.len() ==> #[trigger] ts[i] <= #[trigger] ts[j],
        now < ts[0] + RATE_LIMIT_WINDOW_NANOS,
    ensures
        recent(after_failures(a, ts), window_start(now)).len() >= MAX_LOGIN_ATTEMPTS_PER_MINUTE,
{
    lemma_failures_suffix(a, ts, now);
    let p = choose|p: Seq<u128>| after_failures(a, ts) == p + ts;
    let w = window_start(now);
    assert forall|k: int| 0 <= k < ts.len() implies ts[k] > w by {
        assert(ts[0] <= ts[k]);
    }
    lemma_recent_concat(p, ts, w);
}

} // verus!
