//! The editor's sign-in: where a request carries its session token, how a
//! request is checked against the open sessions, and what a login attempt
//! does to the rate limiter and the sessions.

use crate::auth::{
    argon2_accepts, generate_session_token, recent, verify_password, window_start,
    LoginRateLimiter, SessionStore, MAX_LOGIN_ATTEMPTS_PER_MINUTE,
};
use crate::errors::AppError;
use crate::text::{chars_of, has_prefix, push_char, string_of_chars, trim, trim_chars};
use vstd::prelude::*;

verus! {

/// The pieces of `s` between occurrences of `sep`, as `str::split` gives
/// them: at least one piece, empty pieces included.
pub open spec fn split_on(s: Seq<char>, sep: char) -> Seq<Seq<char>>
    decreases s.len(),
{
    if s.len() == 0 {
        seq![Seq::empty()]
    } else {
        let parts = split_on(s.drop_last(), sep);
        if s.last() == sep {
            parts.push(Seq::empty())
        } else {
            parts.update(parts.len() - 1, parts.last().push(s.last()))
        }
    }
}

proof fn lemma_split_on_nonempty(s: Seq<char>, sep: char)
    ensures
        split_on(s, sep).len() >= 1,
    decreases s.len(),
{
    if s.len() > 0 {
        lemma_split_on_nonempty(s.drop_last(), sep);
    }
}

/// The view of a vector of character vectors.
pub open spec fn pieces_view(v: Seq<Vec<char>>) -> Seq<Seq<char>> {
    v.map_values(|p: Vec<char>| p@)
}

/// Splits the characters of `s` at each `sep`.
pub fn split_chars(s: &str, sep: char) -> (parts: Vec<Vec<char>>)
    ensures
        pieces_view(parts@) == split_on(s@, sep),
{
    let cs = chars_of(s);
    let mut done: Vec<Vec<char>> = Vec::new();
    let mut cur: Vec<char> = Vec::new();
    let mut i: usize = 0;
    assert(cs@.take(0) =~= Seq::<char>::empty());
    assert(pieces_view(done@).push(cur@) =~= seq![Seq::<char>::empty()]);
    while i < cs.len()
        invariant
            i <= cs.len(),
            cs@ == s@,
            pieces_view(done@).push(cur@) == split_on(cs@.take(i as int), sep),
        decreases cs.len() - i,
    {
        let c = cs[i];
        assert(cs@.take(i + 1).drop_last() =~= cs@.take(i as int));
        let ghost before = pieces_view(done@).push(cur@);
        if c == sep {
            let finished = cur;
            done.push(finished);
            cur = Vec::new();
            assert(pieces_view(done@).push(cur@) =~= before.push(Seq::empty()));
        } else {
            cur.push(c);
            assert(pieces_view(done@).push(cur@) =~= before.update(
                before.len() - 1,
                before.last().push(c),
            ));
        }
        i += 1;
    }
    assert(cs@.take(cs.len() as int) =~= cs@);
    done.push(cur);
    assert(pieces_view(done@) =~= split_on(s@, sep));
    done
}

/// The rest of the first piece that, once trimmed, starts with `prefix`.
pub open spec fn first_with_prefix(parts: Seq<Seq<char>>, prefix: Seq<char>) -> Option<Seq<char>>
    decreases parts.len(),
{
    if parts.len() == 0 {
        None
    } else if has_prefix(trim(parts[0]), prefix) {
        Some(trim(parts[0]).skip(prefix.len() as int))
    } else {
        first_with_prefix(parts.drop_first(), prefix)
    }
}

/// The name under which the editor's session token is stored in a cookie.
pub open spec fn session_cookie_prefix() -> Seq<char> {
    "editor_session="@
}

/// The session token in a `Cookie` header: the value of the first
/// `editor_session=` among its `;`-separated pairs.
pub open spec fn cookie_session_token(cookie: Seq<char>) -> Option<Seq<char>> {
    cookie_value(cookie, session_cookie_prefix())
}

fn starts_with(s: &Vec<char>, p: &Vec<char>) -> (b: bool)
    ensures
        b == has_prefix(s@, p@),
{
    if p.len() > s.len() {
        return false;
    }
    let mut i: usize = 0;
    while i < p.len()
        invariant
            p.len() <= s.len(),
            i <= p.len(),
            forall|j: int| 0 <= j < i ==> s@[j] == p@[j],
        decreases p.len() - i,
    {
        if s[i] != p[i] {
            assert(s@.take(p.len() as int)[i as int] != p@[i as int]);
            return false;
        }
        i += 1;
    }
    assert(s@.take(p.len() as int) =~= p@);
    true
}

fn chars_after(s: &Vec<char>, k: usize) -> (r: Vec<char>)
    requires
        k <= s.len(),
    ensures
        r@ == s@.skip(k as int),
{
    let mut r: Vec<char> = Vec::new();
    let mut i = k;
    while i < s.len()
        invariant
            k <= i <= s.len(),
            r@ == s@.subrange(k as int, i as int),
        decreases s.len() - i,
    {
        r.push(s[i]);
        assert(s@.subrange(k as int, i + 1) =~= s@.subrange(k as int, i as int).push(s@[i as int]));
        i += 1;
    }
    assert(s@.subrange(k as int, s.len() as int) =~= s@.skip(k as int));
    r
}

/// The value of the first `;`-separated pair of a `Cookie` header that,
/// once trimmed, starts with `prefix` (a cookie's name and `=`): the rest of
/// that pair.
pub open spec fn cookie_value(cookie: Seq<char>, prefix: Seq<char>) -> Option<Seq<char>> {
    first_with_prefix(split_on(cookie, ';'), prefix)
}

/// The value after `prefix` in the first matching pair of a `Cookie` header.
pub fn find_cookie_value(cookie: &str, prefix: &str) -> (r: Option<String>)
    ensures
        crate::editor::opt_text(r) == cookie_value(cookie@, prefix@),
{
    let parts = split_chars(cookie, ';');
    let pre = chars_of(prefix);
    let ghost ps = split_on(cookie@, ';');
    let mut i: usize = 0;
    assert(ps.skip(0) =~= ps);
    while i < parts.len()
        invariant
            i <= parts.len(),
            pieces_view(parts@) == ps,
            ps == split_on(cookie@, ';'),
            pre@ == prefix@,
            first_with_prefix(ps, pre@) == first_with_prefix(ps.skip(i as int), pre@),
        decreases parts.len() - i,
    {
        assert(ps.skip(i as int)[0] == parts@[i as int]@);
        assert(ps.skip(i as int).drop_first() =~= ps.skip(i + 1));
        let t = trim_chars(&parts[i]);
        if starts_with(&t, &pre) {
            let rest = chars_after(&t, pre.len());
            assert(ps.skip(i as int).len() > 0);
            assert(first_with_prefix(ps.skip(i as int), pre@) == Some(t@.skip(pre@.len() as int)));
            let found = string_of_chars(&rest);
            return Some(found);
        }
        i += 1;
    }
    assert(ps.skip(parts.len() as int).len() == 0);
    None
}

/// The session token carried by a `Cookie` header, if any.
pub fn session_token_from_cookie(cookie: &str) -> (r: Option<String>)
    ensures
        crate::editor::opt_text(r) == cookie_session_token(cookie@),
{
    find_cookie_value(cookie, "editor_session=")
}

/// The session token of a request to the editor page: the
/// `x-editor-session` header where present, else the token of the `Cookie`
/// header.
pub open spec fn request_session_token(
    header: Option<Seq<char>>,
    cookie: Option<Seq<char>>,
) -> Option<Seq<char>> {
    match header {
        Some(h) => Some(h),
        None => match cookie {
            Some(c) => cookie_session_token(c),
            None => None,
        },
    }
}

/// The session token of a request to the editor page.
pub fn editor_session_token(header: Option<&str>, cookie: Option<&str>) -> (r: Option<String>)
    ensures
        crate::editor::opt_text(r) == request_session_token(
            crate::dates::opt_str_view(header),
            crate::dates::opt_str_view(cookie),
        ),
{
    match header {
        Some(h) => Some(h.to_owned()),
        None => match cookie {
            Some(c) => session_token_from_cookie(c),
            None => None,
        },
    }
}

/// The client address of a request: the first comma-separated entry of
/// `x-forwarded-for`, else of `x-real-ip`, else `unknown`.
pub open spec fn client_ip_of(forwarded_for: Option<Seq<char>>, real_ip: Option<Seq<char>>) -> Seq<
    char,
> {
    let v = match forwarded_for {
        Some(f) => f,
        None => match real_ip {
            Some(r) => r,
            None => "unknown"@,
        },
    };
    split_on(v, ',')[0]
}

/// The client address of a request, from its proxy headers.
pub fn get_client_ip(forwarded_for: Option<&str>, real_ip: Option<&str>) -> (ip: String)
    ensures
        ip@ == client_ip_of(
            crate::dates::opt_str_view(forwarded_for),
            crate::dates::opt_str_view(real_ip),
        ),
{
    let v = match forwarded_for {
        Some(f) => f,
        None => match real_ip {
            Some(r) => r,
            None => "unknown",
        },
    };
    let parts = split_chars(v, ',');
    proof {
        lemma_split_on_nonempty(v@, ',');
    }
    assert(parts@[0]@ == split_on(v@, ',')[0]);
    string_of_chars(&parts[0])
}

/// The session token of an optional `Cookie` header.
pub open spec fn cookie_token(cookie: Option<Seq<char>>) -> Option<Seq<char>> {
    match cookie {
        Some(c) => cookie_session_token(c),
        None => None,
    }
}

/// Why a request to the editor is refused, if it is: no cookie, no session
/// token in it, or a session that does not exist or has expired at `now`.
pub open spec fn session_refusal(
    cookie: Option<Seq<char>>,
    expiry: spec_fn(Seq<char>) -> Option<u128>,
    now: u128,
) -> Option<Seq<char>> {
    match cookie {
        None => Some("No session cookie found"@),
        Some(c) => match cookie_session_token(c) {
            None => Some("No session token in cookie"@),
            Some(t) => if expiry(t) matches Some(e) && e > now {
                None
            } else {
                Some("Invalid session"@)
            },
        },
    }
}

/// Checks that a request to the editor carries a valid session at `now`
/// and returns its token. The check forgets expired sessions, as
/// `SessionStore::validate_session` does, whenever a token was found.
pub fn extract_and_validate_session(
    cookie: Option<&str>,
    sessions: &mut SessionStore,
    now: u128,
) -> (r: Result<String, AppError>)
    requires
        old(sessions).wf(),
    ensures
        final(sessions).wf(),
        match r {
            Ok(t) => session_refusal(
                crate::dates::opt_str_view(cookie),
                |k: Seq<char>| old(sessions).expiry_of(k),
                now,
            ) is None && cookie_token(crate::dates::opt_str_view(cookie)) == Some(t@),
            Err(e) => (e matches AppError::Authentication(msg) && session_refusal(
                crate::dates::opt_str_view(cookie),
                |k: Seq<char>| old(sessions).expiry_of(k),
                now,
            ) == Some(msg@)),
        },
        cookie_token(crate::dates::opt_str_view(cookie)) is Some ==> forall|k: Seq<char>|
            #[trigger] final(sessions).expiry_of(k) == (match old(sessions).expiry_of(k) {
                Some(e) => if e > now {
                    Some(e)
                } else {
                    None
                },
                None => None,
            }),
        cookie_token(crate::dates::opt_str_view(cookie)) is None ==> forall|k: Seq<char>|
            #[trigger] final(sessions).expiry_of(k) == old(sessions).expiry_of(k),
{
    let c = match cookie {
        Some(c) => c,
        None => {
            return Err(crate::errors::authentication_error("No session cookie found"));
        },
    };
    let token = match session_token_from_cookie(c) {
        Some(t) => t,
        None => {
            return Err(crate::errors::authentication_error("No session token in cookie"));
        },
    };
    if !sessions.validate_session(token.as_str(), now) {
        return Err(crate::errors::authentication_error("Invalid session"));
    }
    Ok(token)
}

// ---------------------------------------------------------------------------
// Login

/// Nanoseconds in a second.
pub const NANOS_PER_SEC: u128 = 1_000_000_000;

/// What a login attempt came to.
pub enum LoginOutcome {
    /// Too many failed attempts of this client within the last minute.
    RateLimited,
    /// The password does not match the editor's password hash.
    InvalidPassword,
    /// The password matched; a session with this token was opened.
    LoggedIn(String),
}

impl LoginOutcome {
    /// The message shown in the login form, for an attempt that failed.
    pub fn error_message(&self) -> (m: Option<&'static str>)
        ensures
            match *self {
                LoginOutcome::RateLimited => m == Some(
                    "Too many login attempts. Please wait a minute.",
                ),
                LoginOutcome::InvalidPassword => m == Some("Invalid password. Please try again."),
                LoginOutcome::LoggedIn(_) => m is None,
            },
    {
        match self {
            LoginOutcome::RateLimited => Some("Too many login attempts. Please wait a minute."),
            LoginOutcome::InvalidPassword => Some("Invalid password. Please try again."),
            LoginOutcome::LoggedIn(_) => None,
        }
    }
}

/// The failed attempts of a client that still count at `now`.
pub open spec fn counted_attempts(attempts: Option<Seq<u128>>, now: u128) -> Seq<u128> {
    match attempts {
        Some(ts) => recent(ts, window_start(now)),
        None => Seq::empty(),
    }
}

proof fn lemma_recent_idempotent(ts: Seq<u128>, after: u128)
    ensures
        recent(recent(ts, after), after) == recent(ts, after),
    decreases ts.len(),
{
    if ts.len() > 0 {
        lemma_recent_idempotent(ts.drop_last(), after);
        let r = recent(ts.drop_last(), after);
        if ts.last() > after {
            assert(r.push(ts.last()).drop_last() =~= r);
        }
    }
}

/// A login attempt of client `ip` at instant `now` (in nanoseconds) with
/// `password`, against the editor's `password_hash`. A client with five or
/// more failed attempts within the last minute is refused without a look at
/// the password; a wrong password is recorded as a failed attempt; a right
/// one clears the client's attempts and opens a session that lasts
/// `duration_secs` seconds.
pub fn attempt_login(
    limiter: &mut LoginRateLimiter,
    sessions: &mut SessionStore,
    ip: &str,
    password: &str,
    password_hash: &str,
    now: u128,
    duration_secs: u64,
) -> (outcome: LoginOutcome)
    requires
        old(limiter).wf(),
        old(sessions).wf(),
        now + duration_secs * NANOS_PER_SEC <= u128::MAX,
    ensures
        final(limiter).wf(),
        final(sessions).wf(),
        ({
            let kept = counted_attempts(old(limiter).attempts_of(ip@), now);
            let limited = kept.len() >= MAX_LOGIN_ATTEMPTS_PER_MINUTE;
            let accepted = argon2_accepts(password@, password_hash@);
            &&& (outcome is RateLimited) == limited
            &&& (outcome is InvalidPassword) == (!limited && !accepted)
            &&& (outcome is LoggedIn) == (!limited && accepted)
            &&& outcome is RateLimited ==> final(limiter).attempts_of(ip@) == Some(kept)
            &&& outcome is InvalidPassword ==> final(limiter).attempts_of(ip@) == Some(
                kept.push(now),
            )
            &&& outcome is LoggedIn ==> final(limiter).attempts_of(ip@) is None
        }),
        forall|other: Seq<char>|
            other != ip@ ==> #[trigger] final(limiter).attempts_of(other) == old(
                limiter,
            ).attempts_of(other),
        match outcome {
            LoginOutcome::LoggedIn(token) => {
                &&& final(sessions).expiry_of(token@) == Some(
                    (now + duration_secs * NANOS_PER_SEC) as u128,
                )
                &&& forall|other: Seq<char>|
                    other != token@ ==> #[trigger] final(sessions).expiry_of(other) == old(
                        sessions,
                    ).expiry_of(other)
            },
            _ => forall|k: Seq<char>|
                #[trigger] final(sessions).expiry_of(k) == old(sessions).expiry_of(k),
        },
{
    if limiter.is_rate_limited(ip, now) {
        return LoginOutcome::RateLimited;
    }
    if !verify_password(password, password_hash) {
        limiter.record_failed_attempt(ip, now);
        proof {
            if let Some(ts) = old(limiter).attempts_of(ip@) {
                lemma_recent_idempotent(ts, window_start(now));
            }
        }
        return LoginOutcome::InvalidPassword;
    }
    limiter.clear_attempts(ip);
    let token = generate_session_token();
    let expiry = now + (duration_secs as u128) * NANOS_PER_SEC;
    sessions.create_session(token.clone(), expiry);
    LoginOutcome::LoggedIn(token)
}

/// The expiry of a session once sessions expired at `now` are forgotten.
pub open spec fn pruned_expiry(e: Option<u128>, now: u128) -> Option<u128> {
    match e {
        Some(x) => if x > now {
            Some(x)
        } else {
            None
        },
        None => None,
    }
}

/// Logs the editor out: the session of the request's cookie, if it is
/// valid at `now`, is closed. Expired sessions are forgotten whenever the
/// cookie carries a token.
pub fn logout(cookie: Option<&str>, sessions: &mut SessionStore, now: u128)
    requires
        old(sessions).wf(),
    ensures
        final(sessions).wf(),
        forall|k: Seq<char>|
            #[trigger] final(sessions).expiry_of(k) == (match cookie_token(
                crate::dates::opt_str_view(cookie),
            ) {
                Some(t) => if k == t {
                    None
                } else {
                    pruned_expiry(old(sessions).expiry_of(k), now)
                },
                None => old(sessions).expiry_of(k),
            }),
{
    let checked = extract_and_validate_session(cookie, sessions, now);
    if let Ok(token) = checked {
        sessions.invalidate_session(token.as_str());
    }
}

// ---------------------------------------------------------------------------
// Laws

proof fn lemma_split_without_separator(s: Seq<char>, sep: char)
    requires
        forall|i: int| 0 <= i < s.len() ==> s[i] != sep,
    ensures
        split_on(s, sep) == seq![s],
    decreases s.len(),
{
    if s.len() > 0 {
        let r = s.drop_last();
        assert forall|i: int| 0 <= i < r.len() implies r[i] != sep by {
            assert(r[i] == s[i]);
        }
        lemma_split_without_separator(r, sep);
        assert(s.last() != sep);
        assert(r.push(s.last()) =~= s);
        let parts = split_on(r, sep);
        assert(parts == seq![r]);
        assert(parts.update(parts.len() - 1, parts.last().push(s.last())) =~= seq![s]);
    } else {
        assert(s =~= Seq::<char>::empty());
    }
}

/// The cookie that a login sets is read back: a `Cookie` header
/// `editor_session=` followed by a token without `;` or white space carries
/// that token.
pub proof fn lemma_session_cookie_round_trip(token: Seq<char>)
    requires
        forall|i: int|
            0 <= i < token.len() ==> #[trigger] token[i] != ';' && !crate::text::is_white_space(
                token[i],
            ),
    ensures
        cookie_session_token("editor_session="@ + token) == Some(token),
{
    let p = "editor_session="@;
    let c = p + token;
    reveal_strlit("editor_session=");
    assert(p.len() == 15);
    assert forall|i: int| 0 <= i < c.len() implies c[i] != ';' by {
        if i >= p.len() {
            assert(c[i] == token[i - p.len()]);
        }
    }
    lemma_split_without_separator(c, ';');
    assert(!crate::text::is_white_space(c[0]));
    assert(!crate::text::is_white_space(c.last())) by {
        if token.len() > 0 {
            assert(c.last() == token[token.len() - 1]);
        }
    }
    assert(crate::text::trim_start(c) == c);
    assert(crate::text::trim_end(c) == c);
    assert(c.take(p.len() as int) =~= p);
    assert(c.skip(p.len() as int) =~= token);
    assert(seq![c][0] == c);
}

/// A request that carries the cookie of a login is accepted while its
/// session has not expired: where the sessions hold `token` until `expiry`,
/// a check at any `now` before `expiry` refuses nothing.
pub proof fn lemma_logged_in_request_accepted(
    token: Seq<char>,
    expiry: spec_fn(Seq<char>) -> Option<u128>,
    until: u128,
    now: u128,
)
    requires
        forall|i: int|
            0 <= i < token.len() ==> #[trigger] token[i] != ';' && !crate::text::is_white_space(
                token[i],
            ),
        expiry(token) == Some(until),
        now < until,
    ensures
        session_refusal(Some("editor_session="@ + token), expiry, now) is None,
{
    lemma_session_cookie_round_trip(token);
}

} // verus!
