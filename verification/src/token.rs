//! The capability-token service: issues and verifies short-lived, stateless
//! authorization tokens. A token binds a subject id as an authority fact,
//! carries an embedded expiry check, and is signed by the root keypair; it
//! is valid only while the signature chain verifies against the root public
//! key and every embedded check holds against the injected current time.
//!
//! Every failure mode collapses to the one opaque `AuthzError`: telling a
//! caller which stage rejected a credential would leak probe information.
//! There is no revocation; compromise is bounded only by the TTL.

use vstd::prelude::*;

use crate::ids::is_hyphenated_format;
use crate::ids::spec_hyphenated;
use crate::ids::UuidBytes;
use crate::AuthzError;

verus! {

/// The latest second this service will embed in a token's time facts:
/// the last second of year 9999, far inside chrono's calendar range.
pub const TOKEN_TIME_MAX: u64 = 253402300799;

#[verifier::external_type_specification]
#[verifier::external_body]
pub struct ExKeyPair(biscuit_auth::KeyPair);

#[verifier::external_type_specification]
#[verifier::external_body]
pub struct ExPublicKey(biscuit_auth::PublicKey);

#[verifier::external_type_specification]
#[verifier::external_body]
pub struct ExBiscuit(biscuit_auth::Biscuit);

#[verifier::external_type_specification]
#[verifier::external_body]
pub struct ExBiscuitBuilder<'a>(biscuit_auth::builder::BiscuitBuilder<'a>);

#[verifier::external_type_specification]
#[verifier::external_body]
pub struct ExAuthorizer<'t>(biscuit_auth::Authorizer<'t>);

/// The subjects a token binds: the string terms of the arity-one
/// `user(...)` facts in its authority block. The authority block is the
/// only token block whose facts the authorizer's queries can see, so
/// attenuation blocks cannot add to this set.
pub uninterp spec fn token_subjects(t: biscuit_auth::Biscuit) -> Set<Seq<char>>;

/// The expiry bounds a token carries: every instant (unix seconds) that an
/// authority check requires the context's time fact to be strictly before.
pub uninterp spec fn token_expiries(t: biscuit_auth::Biscuit) -> Set<u64>;

/// The subjects bound by the token an encoded string decodes to. Decoding
/// is deterministic, so this is a function of the text alone.
pub uninterp spec fn encoded_subjects(s: Seq<char>) -> Set<Seq<char>>;

/// As `encoded_subjects`, for the expiry bounds.
pub uninterp spec fn encoded_expiries(s: Seq<char>) -> Set<u64>;

/// The subjects among the facts an authorizer's queries can see: the
/// loaded token's authority facts plus whatever facts were added to the
/// authorizer itself.
pub uninterp spec fn authorizer_subjects(a: biscuit_auth::Authorizer) -> Set<Seq<char>>;

/// Whether no datalog rule was added to the authorizer itself. A rule-free
/// authorizer derives no new facts when it runs, so what its queries see
/// stays fixed. This crate never adds a rule.
pub uninterp spec fn authorizer_pristine(a: biscuit_auth::Authorizer) -> bool;

/// What chrono renders for a UTC timestamp: the RFC 3339 text is a function
/// of the seconds value alone.
pub uninterp spec fn rfc3339_of(secs: u64) -> Seq<char>;

/// Relies on chrono's `DateTime::<Utc>::from_timestamp`, which returns
/// `Some` for every second count up to the far-future end of chrono's
/// calendar (year 9999 is well within), and on `DateTime::to_rfc3339`,
/// whose text depends on the timestamp alone.
#[verifier::external_body]
fn rfc3339_utc(secs: u64) -> (r: Option<String>)
    ensures
        r matches Some(s) ==> s@ == rfc3339_of(secs),
        secs <= TOKEN_TIME_MAX ==> r is Some,
{
    let secs = match i64::try_from(secs) {
        Ok(v) => v,
        Err(_) => return None,
    };
    match chrono::DateTime::<chrono::Utc>::from_timestamp(secs, 0) {
        Some(dt) => Some(dt.to_rfc3339()),
        None => None,
    }
}

/// Relies on `Biscuit::builder`, `BiscuitBuilder::add_authority_fact`,
/// `BiscuitBuilder::add_authority_check` and `BiscuitBuilder::build`: on
/// success the token's authority block holds exactly the one fact and the
/// one check parsed from the two texts, signed by the root keypair (the
/// signature draws a fresh random key, so the token value itself is not
/// named). A canonical `user("<id>")` fact text binds exactly that id, and
/// a canonical expiry check over chrono's rendering of an instant expires
/// exactly there: biscuit parses an RFC 3339 date literal back to the same
/// unix second.
#[verifier::external_body]
fn build_token(root: &biscuit_auth::KeyPair, fact: &str, check: &str) -> (r: Option<
    biscuit_auth::Biscuit,
>)
    ensures
        r matches Some(t) ==> (forall|id: Seq<u8>|
            fact@ == #[trigger] spec_authority_fact(id) ==> token_subjects(t) =~= set![
                spec_hyphenated(id),
            ]),
        r matches Some(t) ==> (forall|d: u64|
            check@ == #[trigger] spec_expiry_check(rfc3339_of(d)) ==> token_expiries(t) =~= set![d]),
{
    let mut b = biscuit_auth::Biscuit::builder(root);
    if b.add_authority_fact(fact).is_err() {
        return None;
    }
    if b.add_authority_check(check).is_err() {
        return None;
    }
    b.build().ok()
}

/// Relies on `Biscuit::to_base64`: the URL-safe base64 wire form. The
/// encoding is lossless, so the text decodes back to this token's content:
/// the same bound subjects and expiry bounds.
#[verifier::external_body]
fn biscuit_to_base64(t: &biscuit_auth::Biscuit) -> (r: Option<String>)
    ensures
        r matches Some(s) ==> encoded_subjects(s@) =~= token_subjects(*t) && encoded_expiries(s@)
            =~= token_expiries(*t),
{
    t.to_base64().ok()
}

/// Relies on `Biscuit::from_base64`: decodes the wire form and validates the
/// signature chain against the given root public key (`PublicKey` is Copy).
/// `None` on any malformed or mis-signed token; on success the token is the
/// one the text decodes to, with that content.
#[verifier::external_body]
fn biscuit_from_base64(s: &str, root: &biscuit_auth::PublicKey) -> (r: Option<
    biscuit_auth::Biscuit,
>)
    ensures
        r matches Some(t) ==> token_subjects(t) =~= encoded_subjects(s@) && token_expiries(t)
            =~= encoded_expiries(s@),
{
    let pk = *root;
    biscuit_auth::Biscuit::from_base64(s, move |_| pk).ok()
}

/// Relies on `Biscuit::authorizer`: an authorizer over the token. Its
/// queries see exactly the token's authority facts (attenuation blocks are
/// evaluated in separate cloned worlds), and it starts with no rules of
/// its own.
#[verifier::external_body]
fn biscuit_authorizer<'t>(t: &'t biscuit_auth::Biscuit) -> (r: Option<
    biscuit_auth::Authorizer<'t>,
>)
    ensures
        r matches Some(a) ==> authorizer_subjects(a) =~= token_subjects(*t)
            && authorizer_pristine(a),
{
    t.authorizer().ok()
}

/// Relies on `Authorizer::add_fact`, parsing the fact from its datalog
/// text; true exactly on success. It adds a fact, never a rule, and a time
/// fact is not a `user(...)` fact, so the visible subjects are unchanged.
#[verifier::external_body]
fn authorizer_add_fact<'t>(a: &mut biscuit_auth::Authorizer<'t>, fact: &str) -> (r: bool)
    ensures
        authorizer_pristine(*old(a)) ==> authorizer_pristine(*final(a)),
        forall|n: Seq<char>|
            fact@ == #[trigger] spec_time_fact(n) ==> authorizer_subjects(*final(a))
                =~= authorizer_subjects(*old(a)),
{
    a.add_fact(fact).is_ok()
}

/// Relies on `Authorizer::allow`: adds the default `allow if true` policy;
/// true exactly on success. A policy is neither a fact nor a rule.
#[verifier::external_body]
fn authorizer_allow<'t>(a: &mut biscuit_auth::Authorizer<'t>) -> (r: bool)
    ensures
        authorizer_pristine(*old(a)) ==> authorizer_pristine(*final(a)),
        authorizer_subjects(*final(a)) =~= authorizer_subjects(*old(a)),
{
    a.allow().is_ok()
}

/// Relies on `Authorizer::authorize`: runs every embedded check and the
/// policies; true exactly when all of them pass. On a rule-free authorizer
/// the run derives no new facts into the query world: the token's
/// authority rules are never loaded, and attenuation blocks run in cloned
/// worlds that are not merged back.
#[verifier::external_body]
fn authorizer_authorize<'t>(a: &mut biscuit_auth::Authorizer<'t>) -> (r: bool)
    ensures
        authorizer_pristine(*old(a)) ==> authorizer_pristine(*final(a)) && authorizer_subjects(
            *final(a),
        ) =~= authorizer_subjects(*old(a)),
{
    a.authorize().is_ok()
}

/// Relies on `Authorizer::query`: the single string term of each fact the
/// rule matched, in the engine's order (which comes from hash iteration
/// and is rightly left unstated). A row whose matched term is not a string
/// fails the whole query, so under the subject rule every returned row is
/// a subject visible to the query world; a rule-free authorizer's query
/// run derives nothing new to return.
#[verifier::external_body]
fn authorizer_query_strings<'t>(a: &mut biscuit_auth::Authorizer<'t>, rule: &str) -> (r: Option<
    Vec<String>,
>)
    ensures
        r matches Some(rows) ==> ((authorizer_pristine(*old(a)) && rule@ == ("data($id) <- user($id)")@)
            ==> (forall|i: int|
                0 <= i < rows@.len() ==> authorizer_subjects(*old(a)).contains(
                    #[trigger] rows@[i]@,
                ))),
{
    let rows: Result<Vec<(String,)>, biscuit_auth::error::Token> = a.query(rule);
    match rows {
        Ok(v) => Some(v.into_iter().map(|t| t.0).collect()),
        Err(_) => None,
    }
}

/// The datalog text of the authority fact binding a subject id.
pub open spec fn spec_authority_fact(id: Seq<u8>) -> Seq<char> {
    ("user(\"")@ + spec_hyphenated(id) + ("\")")@
}

/// The datalog text of the embedded expiry check.
pub open spec fn spec_expiry_check(expiry: Seq<char>) -> Seq<char> {
    ("check if time($time), $time < ")@ + expiry
}

/// The datalog text of the injected current-time fact.
pub open spec fn spec_time_fact(now: Seq<char>) -> Seq<char> {
    ("time(")@ + now + (")")@
}

/// The authority fact text for a subject: `user("<hyphenated id>")`.
pub fn authority_fact_string(subject: &UuidBytes) -> (r: String)
    ensures
        r@ == spec_authority_fact(subject@),
{
    let s = String::from_str("user(\"");
    let s = s.concat(subject.to_hyphenated().as_str());
    s.concat("\")")
}

/// The expiry check text: valid only while the context's time fact is
/// strictly before the expiry instant.
pub fn expiry_check_string(expiry_rfc3339: &str) -> (r: String)
    ensures
        r@ == spec_expiry_check(expiry_rfc3339@),
{
    let s = String::from_str("check if time($time), $time < ");
    s.concat(expiry_rfc3339)
}

/// The current-time fact text injected at verification.
pub fn time_fact_string(now_rfc3339: &str) -> (r: String)
    ensures
        r@ == spec_time_fact(now_rfc3339@),
{
    let s = String::from_str("time(");
    let s = s.concat(now_rfc3339);
    s.concat(")")
}

/// Issues a token bound to `subject`: asserts the authority fact, attaches
/// the check requiring the verification-time clock to be strictly before
/// `now + ttl_seconds`, signs with the root keypair, and returns the opaque
/// encoded string. A successful issue binds exactly this subject and
/// exactly this expiry instant. An expiry beyond the supported calendar is
/// refused; any builder or signing failure collapses to the opaque error.
pub fn issue(root: &biscuit_auth::KeyPair, subject: &UuidBytes, ttl_seconds: u64, now: u64) -> (r:
    Result<String, AuthzError>)
    ensures
        now + ttl_seconds > TOKEN_TIME_MAX ==> r is Err,
        r matches Ok(s) ==> now + ttl_seconds <= TOKEN_TIME_MAX && encoded_subjects(s@) =~= set![
            spec_hyphenated(subject@),
        ] && encoded_expiries(s@) =~= set![(now + ttl_seconds) as u64],
{
    if ttl_seconds > TOKEN_TIME_MAX || now > TOKEN_TIME_MAX - ttl_seconds {
        return Err(AuthzError);
    }
    let expiry = now + ttl_seconds;
    let expiry_text = match rfc3339_utc(expiry) {
        Some(s) => s,
        None => {
            return Err(AuthzError);
        },
    };
    let fact = authority_fact_string(subject);
    let check = expiry_check_string(expiry_text.as_str());
    let token = match build_token(root, fact.as_str(), check.as_str()) {
        Some(t) => t,
        None => {
            return Err(AuthzError);
        },
    };
    proof {
        assert(fact@ == spec_authority_fact(subject@));
        assert(check@ == spec_expiry_check(rfc3339_of(expiry)));
        assert(token_subjects(token) =~= set![spec_hyphenated(subject@)]);
        assert(token_expiries(token) =~= set![expiry]);
    }
    match biscuit_to_base64(&token) {
        Some(s) => Ok(s),
        None => Err(AuthzError),
    }
}

/// The typed accessor over a queried authority-fact value: the subject id,
/// exactly when the value is a canonical hyphenated id. All other shapes are
/// the same opaque error as every other verification failure.
pub fn subject_of_fact_value(s: &str) -> (r: Result<UuidBytes, AuthzError>)
    ensures
        r matches Ok(u) ==> s@ == spec_hyphenated(u@) && u@.len() == 16,
        r is Err <==> !is_hyphenated_format(s@),
{
    proof {
        if is_hyphenated_format(s@) {
            crate::ids::lemma_hyphenated_of_bytes_of(s@);
        }
    }
    match UuidBytes::parse_hyphenated(s) {
        Some(u) => Ok(u),
        None => Err(AuthzError),
    }
}

/// The step from the queried authority-fact rows to the bound subject: no
/// row at all is the "missing fact" failure; otherwise the first row must
/// be a canonical hyphenated id, and every other shape is the same opaque
/// error.
pub fn subject_of_rows(rows: &Vec<String>) -> (r: Result<UuidBytes, AuthzError>)
    ensures
        rows@.len() == 0 ==> r is Err,
        r is Ok <==> rows@.len() > 0 && is_hyphenated_format(rows@[0]@),
        r matches Ok(u) ==> rows@[0]@ == spec_hyphenated(u@) && u@.len() == 16,
{
    if rows.len() == 0 {
        return Err(AuthzError);
    }
    subject_of_fact_value(rows[0].as_str())
}

/// Evaluates a decoded token in a context whose current time is `now`
/// (injected as a time fact, so the clock stays pluggable), under the
/// default-allow policy, and extracts the bound subject id from the
/// authority facts: a returned subject is one the token's authority block
/// binds, so a token cannot verify as a subject it does not carry. Every
/// failure is the one opaque error.
pub fn authorize(token: &biscuit_auth::Biscuit, now: u64) -> (r: Result<UuidBytes, AuthzError>)
    ensures
        r matches Ok(u) ==> u@.len() == 16 && token_subjects(*token).contains(
            spec_hyphenated(u@),
        ),
{
    let mut authorizer = match biscuit_authorizer(token) {
        Some(a) => a,
        None => {
            return Err(AuthzError);
        },
    };
    let now_text = match rfc3339_utc(now) {
        Some(s) => s,
        None => {
            return Err(AuthzError);
        },
    };
    let time_fact = time_fact_string(now_text.as_str());
    if !authorizer_add_fact(&mut authorizer, time_fact.as_str()) {
        return Err(AuthzError);
    }
    if !authorizer_allow(&mut authorizer) {
        return Err(AuthzError);
    }
    if !authorizer_authorize(&mut authorizer) {
        return Err(AuthzError);
    }
    let rows = match authorizer_query_strings(&mut authorizer, "data($id) <- user($id)") {
        Some(v) => v,
        None => {
            return Err(AuthzError);
        },
    };
    subject_of_rows(&rows)
}

/// Decodes a bearer token against the root public key and authorizes it at
/// time `now`: the stateless verification a protected request performs. A
/// returned subject is one the presented token's authority block binds.
pub fn verify_at(token: &str, root: &biscuit_auth::PublicKey, now: u64) -> (r: Result<
    UuidBytes,
    AuthzError,
>)
    ensures
        r matches Ok(u) ==> u@.len() == 16 && encoded_subjects(token@).contains(
            spec_hyphenated(u@),
        ),
{
    let decoded = match biscuit_from_base64(token, root) {
        Some(t) => t,
        None => {
            return Err(AuthzError);
        },
    };
    authorize(&decoded, now)
}

/// A token that binds exactly one subject can never verify as another:
/// the canonical text form determines the id bytes, so membership in the
/// issued singleton forces the verified subject to be the issued one.
pub proof fn lemma_verified_subject_is_the_issued_one(
    token_text: Seq<char>,
    issued: Seq<u8>,
    got: Seq<u8>,
)
    requires
        issued.len() == 16,
        got.len() == 16,
        encoded_subjects(token_text) == set![spec_hyphenated(issued)],
        encoded_subjects(token_text).contains(spec_hyphenated(got)),
    ensures
        got =~= issued,
{
    broadcast use vstd::set::group_set_axioms;

    assert(spec_hyphenated(got) == spec_hyphenated(issued));
    crate::ids::lemma_hyphenated_round_trip(issued);
    crate::ids::lemma_hyphenated_round_trip(got);
}

} // verus!
