//! The externally visible operations: shorten a URL and resolve a code, with
//! the exact request/response and error-mapping contract, plus the pure
//! per-attempt decision logic a durable backend drives its retry loop with.

use vstd::prelude::*;
use crate::codes::{generate_short_code, valid_code};
use crate::store::{InsertError, MappingStore};

verus! {

/// Body of a shorten request: the URL to shorten, taken verbatim.
#[derive(Debug)]
pub struct ShortenRequest {
    pub url: String,
}

/// Body of a successful shorten response: the full short URL, the configured
/// base joined with the committed code.
#[derive(Debug)]
pub struct ShortenResponse {
    pub short_url: String,
}

/// Why a shorten request failed. Either way the caller answers with an
/// internal-error status and the store is unchanged.
#[derive(Debug, PartialEq, Eq)]
pub enum ShortenError {
    /// Every regeneration attempt collided with an existing code; rare
    /// enough that it may indicate a code space too small for the traffic.
    RetryExhausted,
    /// The configured base URL does not parse or does not accept the code as
    /// a relative reference, so no short URL can be composed.
    InvalidBaseUrl,
}

/// What resolving a code tells the HTTP layer to answer.
#[derive(Debug, PartialEq, Eq)]
pub enum RedirectOutcome {
    /// The code is bound: redirect permanently to the stored original URL.
    PermanentRedirect(String),
    /// The code is not bound: answer not-found.
    NotFound,
    /// The lookup itself failed (connectivity, disk): answer server-class,
    /// distinguishably from a miss.
    StorageError,
}

/// How many codes a shorten request will try before giving up.
pub const MAX_SHORTEN_ATTEMPTS: u64 = 5;

/// HTTP status for a successful resolve.
pub const STATUS_PERMANENT_REDIRECT: u16 = 308;

/// HTTP status for a resolve miss.
pub const STATUS_NOT_FOUND: u16 = 404;

/// HTTP status for a storage failure or exhausted retries.
pub const STATUS_INTERNAL_SERVER_ERROR: u16 = 500;

/// The serialization of `code` resolved as a URL reference against the base
/// URL `base`, as the resolution that url's `Url::parse` and `Url::join`
/// perform yields it. It depends on the two strings alone.
pub uninterp spec fn joined_url(base: Seq<char>, code: Seq<char>) -> Seq<char>;

/// Whether `code` resolves as a URL reference against the base URL `base`:
/// whether url's `Url::parse` of `base` and `Url::join` of `code` both
/// succeed. Like `joined_url` it depends on the two strings alone.
pub uninterp spec fn join_succeeds(base: Seq<char>, code: Seq<char>) -> bool;

/// Relies on url's `Url::parse`, `Url::join` and the `Display`-based
/// serialization: parsing `base` and resolving `code` against it is a
/// deterministic function of the two strings; `None` is returned exactly
/// when parsing or resolution reports an error.
#[verifier::external_body]
fn join_url(base: &str, code: &str) -> (r: Option<String>)
    ensures
        r is Some <==> join_succeeds(base@, code@),
        r matches Some(joined) ==> joined@ == joined_url(base@, code@),
{
    match url::Url::parse(base) {
        Ok(parsed_base) => match parsed_base.join(code) {
            Ok(full) => Some(full.to_string()),
            Err(_) => None,
        },
        Err(_) => None,
    }
}

/// Compose the full short URL for a code from the configured base URL:
/// exactly the resolution of `code` against `base_url`, and some result
/// exactly when that resolution succeeds. A backend that commits its
/// mappings elsewhere builds its response with this.
pub fn compose_short_url(base_url: &str, code: &str) -> (r: Option<String>)
    ensures
        r is Some <==> join_succeeds(base_url@, code@),
        r matches Some(short_url) ==> short_url@ == joined_url(base_url@, code@),
{
    join_url(base_url, code)
}

/// Some well-formed code is already bound in the store: the condition under
/// which a shorten attempt can collide and, if every attempt does, report
/// its retries exhausted.
pub open spec fn some_code_collides(m: Map<Seq<char>, Seq<char>>) -> bool {
    exists|code: Seq<char>| #![auto] valid_code(code) && m.contains_key(code)
}

/// Some well-formed code does not resolve against the base URL: the
/// condition under which a shorten attempt can fail to compose a short URL.
pub open spec fn some_code_unjoinable(base: Seq<char>) -> bool {
    exists|code: Seq<char>| #![auto] valid_code(code) && !join_succeeds(base, code)
}

/// A committed shorten outcome: some fresh, well-formed code was bound to
/// the requested URL and the response is the base joined with that code.
pub open spec fn shorten_commit(
    pre: Map<Seq<char>, Seq<char>>,
    post: Map<Seq<char>, Seq<char>>,
    url: Seq<char>,
    base: Seq<char>,
    short_url: Seq<char>,
) -> bool {
    exists|code: Seq<char>|
        #![auto]
        {
            &&& valid_code(code)
            &&& !pre.contains_key(code)
            &&& post == pre.insert(code, url)
            &&& short_url == joined_url(base, code)
        }
}

/// Shorten a URL: generate a candidate code, commit it if it is absent, and
/// compose the short URL from the configured base; on a collision retry with
/// a fresh code, up to `MAX_SHORTEN_ATTEMPTS` times.
///
/// On success exactly one new mapping is committed, from a fresh valid code
/// to the requested URL, and the response carries the base joined with that
/// code. Each error is tied to its cause — exhausted retries only where some
/// valid code is already bound, an invalid base only where some valid code
/// does not resolve against it — and either way the store is unchanged. On a
/// store in which no valid code is bound, with a base against which every
/// valid code resolves, neither error is permitted: success is owed.
pub fn shorten(store: &mut MappingStore, request: &ShortenRequest, base_url: &str) -> (r: Result<
    ShortenResponse,
    ShortenError,
>)
    requires
        old(store).well_formed(),
    ensures
        final(store).well_formed(),
        match r {
            Ok(response) => shorten_commit(
                old(store)@,
                final(store)@,
                request.url@,
                base_url@,
                response.short_url@,
            ),
            Err(ShortenError::RetryExhausted) => *final(store) == *old(store)
                && some_code_collides(old(store)@),
            Err(ShortenError::InvalidBaseUrl) => *final(store) == *old(store)
                && some_code_unjoinable(base_url@),
        },
{
    let mut attempts: u64 = 0;
    while attempts < MAX_SHORTEN_ATTEMPTS
        invariant
            old(store).well_formed(),
            *store == *old(store),
            attempts > 0 ==> some_code_collides(old(store)@),
        decreases MAX_SHORTEN_ATTEMPTS - attempts,
    {
        let code = generate_short_code();
        let joined = compose_short_url(base_url, code.as_str());
        match joined {
            None => {
                proof {
                    assert(valid_code(code@) && !join_succeeds(base_url@, code@));
                }
                return Err(ShortenError::InvalidBaseUrl);
            },
            Some(short_url) => {
                match store.insert_unique(code.as_str(), request.url.as_str()) {
                    Ok(()) => {
                        return Ok(ShortenResponse { short_url });
                    },
                    Err(InsertError::DuplicateCode) => {
                        proof {
                            assert(valid_code(code@) && old(store)@.contains_key(code@));
                        }
                    },
                }
            },
        }
        attempts = attempts + 1;
    }
    Err(ShortenError::RetryExhausted)
}

/// Law: shorten is owed success on a fresh store with a working base. In a
/// store in which no valid code is bound (the empty store above all), and
/// with a base URL against which every valid code resolves, neither error's
/// enabling condition holds, so by `shorten`'s contract the result is `Ok`
/// and one mapping is committed.
pub proof fn lemma_shorten_owed_success(m: Map<Seq<char>, Seq<char>>, base: Seq<char>)
    requires
        forall|code: Seq<char>| #![auto] valid_code(code) ==> !m.contains_key(code),
        forall|code: Seq<char>| #![auto] valid_code(code) ==> join_succeeds(base, code),
    ensures
        !some_code_collides(m),
        !some_code_unjoinable(base),
{
}

/// What a store with contents `m` resolves `code` to: the bound URL exactly
/// when the code is bound, and nothing otherwise.
pub open spec fn resolved_url(m: Map<Seq<char>, Seq<char>>, code: Seq<char>) -> Option<Seq<char>> {
    if m.contains_key(code) {
        Some(m[code])
    } else {
        None
    }
}

/// Resolve a code taken verbatim from the request path: a hit instructs a
/// permanent redirect to the stored original URL, a miss instructs a
/// not-found answer. Read-only: the store is borrowed immutably.
pub fn redirect(store: &MappingStore, code: &str) -> (r: RedirectOutcome)
    requires
        store.well_formed(),
    ensures
        match r {
            RedirectOutcome::PermanentRedirect(url) => resolved_url(store@, code@) == Some(url@),
            RedirectOutcome::NotFound => resolved_url(store@, code@) is None,
            RedirectOutcome::StorageError => false,  // the in-memory lookup cannot fail
        },
{
    match store.lookup(code) {
        Some(url) => RedirectOutcome::PermanentRedirect(url),
        None => RedirectOutcome::NotFound,
    }
}

impl RedirectOutcome {
    /// The HTTP status the outcome is served with.
    pub fn status_code(&self) -> (s: u16)
        ensures
            match self {
                RedirectOutcome::PermanentRedirect(_) => s == STATUS_PERMANENT_REDIRECT,
                RedirectOutcome::NotFound => s == STATUS_NOT_FOUND,
                RedirectOutcome::StorageError => s == STATUS_INTERNAL_SERVER_ERROR,
            },
    {
        match self {
            RedirectOutcome::PermanentRedirect(_) => STATUS_PERMANENT_REDIRECT,
            RedirectOutcome::NotFound => STATUS_NOT_FOUND,
            RedirectOutcome::StorageError => STATUS_INTERNAL_SERVER_ERROR,
        }
    }
}

impl ShortenError {
    /// The HTTP status a failed shorten is answered with: both failure modes
    /// are server-class.
    pub fn status_code(&self) -> (s: u16)
        ensures
            s == STATUS_INTERNAL_SERVER_ERROR,
    {
        STATUS_INTERNAL_SERVER_ERROR
    }
}

/// What one insert attempt against a storage backend reported.
#[derive(Debug, PartialEq, Eq)]
pub enum InsertOutcome {
    /// The mapping was committed.
    Inserted,
    /// The uniqueness constraint refused the code; a fresh code may succeed.
    DuplicateCode,
    /// Connectivity, disk or schema failure; retrying the same way is
    /// pointless.
    StorageFailure,
}

/// What a backend's retry loop does after one insert attempt.
#[derive(Debug, PartialEq, Eq)]
pub enum AttemptDecision {
    /// The mapping is committed: answer with the short URL.
    Commit,
    /// Generate a fresh code and try again; this many attempts remain.
    RetryWithFreshCode(u64),
    /// Give up with a server-class storage error.
    FailStorage,
    /// Every attempt collided: give up with a server-class error.
    FailRetryExhausted,
}

/// Decide the next step of a shorten retry loop from one attempt's outcome:
/// a commit ends the loop, a duplicate spends one of the remaining attempts
/// on a fresh code until none is left, and a storage failure is never
/// retried. A backend that suspends on I/O (the durable store) drives its
/// loop with this decision.
pub fn next_attempt(outcome: &InsertOutcome, attempts_left: u64) -> (d: AttemptDecision)
    ensures
        match outcome {
            InsertOutcome::Inserted => d == AttemptDecision::Commit,
            InsertOutcome::DuplicateCode => if attempts_left > 0 {
                d == AttemptDecision::RetryWithFreshCode((attempts_left - 1) as u64)
            } else {
                d == AttemptDecision::FailRetryExhausted
            },
            InsertOutcome::StorageFailure => d == AttemptDecision::FailStorage,
        },
{
    match outcome {
        InsertOutcome::Inserted => AttemptDecision::Commit,
        InsertOutcome::DuplicateCode => {
            if attempts_left > 0 {
                AttemptDecision::RetryWithFreshCode(attempts_left - 1)
            } else {
                AttemptDecision::FailRetryExhausted
            }
        },
        InsertOutcome::StorageFailure => AttemptDecision::FailStorage,
    }
}

/// What one point lookup against a storage backend reported.
#[derive(Debug, PartialEq, Eq)]
pub enum LookupOutcome {
    /// A row matched the code; this is its original URL.
    Found(String),
    /// No row matched the code.
    NoMatch,
    /// Connectivity, disk or schema failure: whether the code is bound is
    /// unknown.
    StorageFailure,
}

/// Decide the answer to a resolve from what a backend's point lookup
/// reported: a matching row instructs a permanent redirect to its URL, no
/// match instructs not-found, and a failed lookup instructs a server-class
/// error, distinguishably from a miss.
pub fn resolve_decision(outcome: LookupOutcome) -> (r: RedirectOutcome)
    ensures
        match outcome {
            LookupOutcome::Found(url) => r == RedirectOutcome::PermanentRedirect(url),
            LookupOutcome::NoMatch => r == RedirectOutcome::NotFound,
            LookupOutcome::StorageFailure => r == RedirectOutcome::StorageError,
        },
{
    match outcome {
        LookupOutcome::Found(url) => RedirectOutcome::PermanentRedirect(url),
        LookupOutcome::NoMatch => RedirectOutcome::NotFound,
        LookupOutcome::StorageFailure => RedirectOutcome::StorageError,
    }
}

/// Law: shorten-then-resolve round trip. Committing a mapping for a code
/// and then resolving that code yields exactly the URL that was shortened.
pub proof fn lemma_shorten_then_resolve(
    m: Map<Seq<char>, Seq<char>>,
    code: Seq<char>,
    url: Seq<char>,
)
    ensures
        resolved_url(m.insert(code, url), code) == Some(url),
{
}

/// Law: a code never issued resolves to nothing.
pub proof fn lemma_unknown_code_not_found(m: Map<Seq<char>, Seq<char>>, code: Seq<char>)
    requires
        !m.contains_key(code),
    ensures
        resolved_url(m, code) is None,
{
}

/// Law: no cross-contamination. Committing a mapping for one code changes
/// what no other code resolves to, so concurrent shortens that commit
/// distinct codes each stay retrievable by their own code, bound to their
/// own URL.
pub proof fn lemma_insert_preserves_other_codes(
    m: Map<Seq<char>, Seq<char>>,
    code: Seq<char>,
    url: Seq<char>,
    other: Seq<char>,
)
    requires
        other != code,
    ensures
        resolved_url(m.insert(code, url), other) == resolved_url(m, other),
{
}

/// Law: resolution is idempotent. What a code resolves to is a function of
/// the store's contents alone, and resolving reads the store immutably, so
/// two resolves of one code against one store return the same URL both
/// times.
pub proof fn lemma_resolve_idempotent(
    m: Map<Seq<char>, Seq<char>>,
    code: Seq<char>,
    first: Option<Seq<char>>,
    second: Option<Seq<char>>,
)
    requires
        first == resolved_url(m, code),
        second == resolved_url(m, code),
    ensures
        first == second,
{
}

/// Law: of two insert attempts sharing a code, exactly one commits. After a
/// commit binds the code, the code is in the store's domain, so by
/// `insert_unique`'s contract a second attempt with the same code is refused
/// with `DuplicateCode` and changes nothing.
pub proof fn lemma_second_insert_with_same_code_collides(
    m: Map<Seq<char>, Seq<char>>,
    code: Seq<char>,
    url: Seq<char>,
)
    ensures
        m.insert(code, url).contains_key(code),
{
}

} // verus!
