//! The verification codes sent by e-mail before an account is created: a code
//! of random digits, kept in a register until it is used or expires.
use crate::error::{failure, outcome, Error, ErrorCode, Failure};
use crate::serde_duration::is_digit;
use crate::types::common::{Timestamp, MAX_TIMESTAMP_SECS, MIN_TIMESTAMP_SECS};
use crate::utils::{push_char, str_eq};
use ahash::RandomState;
use dashmap::DashMap;
use vstd::prelude::*;

verus! {

#[verifier::external_type_specification]
#[verifier::external_body]
#[verifier::reject_recursive_types(K)]
#[verifier::reject_recursive_types(V)]
#[verifier::reject_recursive_types(S)]
pub struct ExDashMap<K, V, S>(DashMap<K, V, S>);

#[verifier::external_type_specification]
#[verifier::external_body]
pub struct ExRandomState(RandomState);

/// A table of pending codes, keyed by e-mail address: the code and the second
/// at which it expires.
pub type CodeTable = DashMap<String, (String, u64), RandomState>;

/// What a table of pending codes holds: for each e-mail address, the code sent
/// to it and the second at which the code expires.
pub uninterp spec fn pending_codes(table: DashMap<String, (String, u64), RandomState>) -> Map<
    Seq<char>,
    (Seq<char>, u64),
>;

/// `DashMap::with_capacity_and_hasher` with a default `ahash::RandomState`: a
/// new table that holds nothing.
#[verifier::external_body]
fn new_table(capacity: usize) -> (t: CodeTable)
    ensures
        pending_codes(t).dom() == Set::<Seq<char>>::empty(),
{
    DashMap::with_capacity_and_hasher(capacity, Default::default())
}

/// `DashMap::insert`: the key now maps to the value, whatever it mapped to
/// before; the other entries stay.
#[verifier::external_body]
fn table_insert(t: &mut CodeTable, key: String, value: (String, u64))
    ensures
        pending_codes(*final(t)) == pending_codes(*old(t)).insert(key@, (value.0@, value.1)),
{
    t.insert(key, value);
}

/// `DashMap::get`, keeping a copy of the code of the entry found: the code kept
/// for the key, or `None` where the table has no entry for it.
#[verifier::external_body]
fn table_code(t: &CodeTable, key: &str) -> (r: Option<String>)
    ensures
        match r {
            Some(c) => pending_codes(*t).contains_key(key@) && pending_codes(*t)[key@].0 == c@,
            None => !pending_codes(*t).contains_key(key@),
        },
{
    t.get(key).map(|e| e.0.clone())
}

/// `DashMap::remove`: the entry of the key, if any, is gone; the others stay.
#[verifier::external_body]
fn table_remove(t: &mut CodeTable, key: &str)
    ensures
        pending_codes(*final(t)) == pending_codes(*old(t)).remove(key@),
{
    t.remove(key);
}

/// `DashMap::retain` with the test of `is_pending`: exactly the entries whose
/// code has not expired at `now_secs` stay.
#[verifier::external_body]
fn table_retain_pending(t: &mut CodeTable, now_secs: u64)
    ensures
        pending_codes(*final(t)) == unexpired(pending_codes(*old(t)), now_secs),
{
    t.retain(|_, e| is_pending(e.1, now_secs));
}

/// `DashMap::shrink_to_fit`: frees spare room; the entries stay as they are.
#[verifier::external_body]
fn table_shrink(t: &mut CodeTable)
    ensures
        pending_codes(*final(t)) == pending_codes(*old(t)),
{
    t.shrink_to_fit();
}

/// `DashMap::len`: the number of entries.
#[verifier::external_body]
fn table_len(t: &CodeTable) -> (n: usize)
    ensures
        n == pending_codes(*t).len(),
{
    t.len()
}

/// The RFC 3339 text of the second `secs` since the Unix epoch, in UTC.
pub uninterp spec fn rfc3339_text(secs: i64) -> Seq<char>;

/// `DateTime::<Utc>::from_timestamp_secs` followed by `to_rfc3339`: `None`
/// outside the range of dates that chrono represents, else the RFC 3339 text
/// of that second.
#[verifier::external_body]
fn rfc3339_of(secs: i64) -> (r: Option<String>)
    ensures
        r is Some <==> MIN_TIMESTAMP_SECS <= secs <= MAX_TIMESTAMP_SECS,
        r matches Some(s) ==> s@ == rfc3339_text(secs),
{
    chrono::DateTime::<chrono::Utc>::from_timestamp_secs(secs).map(|d| d.to_rfc3339())
}

/// `fastrand::u8(low..=high)`: a random byte in the range; the range must not
/// be empty, else it panics.
#[verifier::external_body]
fn random_u8_in(low: u8, high: u8) -> (b: u8)
    requires
        low <= high,
    ensures
        low <= b <= high,
{
    fastrand::u8(low..=high)
}

/// The number of digits of a verification code.
pub const VERIFY_TOKEN_LEN: usize = 6usize;

/// A new verification code of `len` random decimal digits.
pub fn generate_token(len: usize) -> (t: String)
    ensures
        t@.len() == len,
        forall|i: int| 0 <= i < t@.len() ==> is_digit(#[trigger] t@[i]),
{
    let mut t = String::new();
    let mut i: usize = 0;
    while i < len
        invariant
            i <= len,
            t@.len() == i,
            forall|j: int| 0 <= j < t@.len() ==> is_digit(#[trigger] t@[j]),
        decreases len - i,
    {
        let b = random_u8_in(48u8, 57u8);
        let c = b as char;
        push_char(&mut t, c);
        i = i + 1;
    }
    t
}

/// The second since the Unix epoch at which a code made at `now_secs` expires,
/// `exp_secs` seconds later.
pub fn expires_at(now_secs: u64, exp_secs: u64) -> (e: u64)
    requires
        now_secs + exp_secs <= u64::MAX,
    ensures
        e == now_secs + exp_secs,
{
    now_secs + exp_secs
}

/// Whether a code that expires at `expires` has expired at `now_secs`.
pub fn is_expired(expires: u64, now_secs: u64) -> (b: bool)
    ensures
        b == (expires <= now_secs),
{
    expires <= now_secs
}

/// Whether a code that expires at `expires` is still good at `now_secs`.
pub fn is_pending(expires: u64, now_secs: u64) -> (b: bool)
    ensures
        b == (now_secs < expires),
{
    !is_expired(expires, now_secs)
}

/// Checks the code given for an e-mail address against the code kept for it,
/// if any. On success the kept code is to be dropped.
pub fn check_code(stored_token: Option<&str>, token: &str) -> (r: Result<(), Error>)
    ensures
        r is Ok <==> (stored_token matches Some(s) && s@ == token@),
        stored_token is None ==> r is Err && failure(r->Err_0) == (ErrorCode::NotFound, "E-Mail not found"@),
        stored_token matches Some(s) && s@ != token@ ==> r is Err && failure(r->Err_0) == (
            ErrorCode::Unauthorized,
            "Invalid token"@,
        ),
{
    let entry_token = match stored_token {
        Some(s) => s,
        None => return Err(Error::not_found("E-Mail not found")),
    };
    if !str_eq(token, entry_token) {
        return Err(Error::unauthorized("Invalid token"));
    }
    Ok(())
}

/// The plain text of the e-mail that carries a verification code and says
/// when it expires.
pub fn email_code_text(token: &str, exp: &str) -> (t: String)
    ensures
        t@ == "Your verification code is: "@ + token@ + "\nThis code will expire in "@ + exp@
            + "."@,
{
    let mut t = String::from_str("Your verification code is: ");
    t.append(token);
    t.append("\nThis code will expire in ");
    t.append(exp);
    t.append(".");
    t
}

/// The text that tells when a code that expires at `expires` (seconds since the
/// Unix epoch, read as a signed number) expires.
pub fn code_expiry_text(expires: u64) -> (r: Result<String, Error>)
    ensures
        r is Ok <==> MIN_TIMESTAMP_SECS <= expires as i64 <= MAX_TIMESTAMP_SECS,
        r matches Ok(s) ==> s@ == rfc3339_text(expires as i64),
        r matches Err(e) ==> failure(e) == (
            ErrorCode::Internal,
            "Failed to convert timestamp to DateTime"@,
        ),
{
    let secs = expires as i64;
    match rfc3339_of(secs) {
        Some(s) => Ok(s),
        None => Err(Error::internal("Failed to convert timestamp to DateTime")),
    }
}

/// The entries of a table of codes whose code has not expired at `now`.
pub open spec fn unexpired(codes: Map<Seq<char>, (Seq<char>, u64)>, now: u64) -> Map<
    Seq<char>,
    (Seq<char>, u64),
> {
    Map::new(|k: Seq<char>| codes.contains_key(k) && now < codes[k].1, |k: Seq<char>| codes[k])
}

/// What checking `token` for `email` answers, given the pending codes.
pub open spec fn spec_verify(codes: Map<Seq<char>, (Seq<char>, u64)>, email: Seq<char>, token: Seq<char>) -> Result<
    (),
    Failure,
> {
    if !codes.contains_key(email) {
        Err((ErrorCode::NotFound, "E-Mail not found"@))
    } else if codes[email].0 != token {
        Err((ErrorCode::Unauthorized, "Invalid token"@))
    } else {
        Ok(())
    }
}

/// The pending codes after checking `token` for `email`: a code that was
/// accepted is used up.
pub open spec fn after_verify(codes: Map<Seq<char>, (Seq<char>, u64)>, email: Seq<char>, token: Seq<char>) -> Map<
    Seq<char>,
    (Seq<char>, u64),
> {
    if spec_verify(codes, email, token) is Ok {
        codes.remove(email)
    } else {
        codes
    }
}

/// The codes sent by e-mail and not yet used, with the second at which each
/// expires. Seen as a map from e-mail address to code and expiry.
pub struct EmailRegister {
    codes: CodeTable,
    token_len: usize,
}

impl View for EmailRegister {
    type V = Map<Seq<char>, (Seq<char>, u64)>;

    closed spec fn view(&self) -> Map<Seq<char>, (Seq<char>, u64)> {
        pending_codes(self.codes)
    }
}

impl EmailRegister {
    /// The number of digits of the codes this register issues.
    pub closed spec fn code_len(&self) -> nat {
        self.token_len as nat
    }

    /// An empty register that issues codes of `token_len` digits.
    pub fn new(token_len: usize) -> (r: EmailRegister)
        ensures
            r@ == Map::<Seq<char>, (Seq<char>, u64)>::empty(),
            r.code_len() == token_len,
    {
        let r = EmailRegister { codes: new_table(10), token_len };
        proof {
            assert(r@ =~= Map::<Seq<char>, (Seq<char>, u64)>::empty());
        }
        r
    }

    /// A new code for an e-mail that is sent at `now_secs` and is good for
    /// `exp_secs` seconds: random digits, and the second at which it expires.
    pub fn issue_code(&self, now_secs: u64, exp_secs: u64) -> (c: (String, u64))
        requires
            now_secs + exp_secs <= u64::MAX,
        ensures
            c.0@.len() == self.code_len(),
            forall|i: int| 0 <= i < c.0@.len() ==> is_digit(#[trigger] c.0@[i]),
            c.1 == now_secs + exp_secs,
    {
        (generate_token(self.token_len), expires_at(now_secs, exp_secs))
    }

    /// Keeps the code sent to `email`, in place of any code sent to it before.
    pub fn record(&mut self, email: String, code: (String, u64))
        ensures
            final(self)@ == old(self)@.insert(email@, (code.0@, code.1)),
            final(self).code_len() == old(self).code_len(),
    {
        table_insert(&mut self.codes, email, code);
    }

    /// The code kept for `email`, if any.
    pub fn get_email_token(&self, email: &str) -> (r: Option<String>)
        ensures
            match r {
                Some(c) => self@.contains_key(email@) && self@[email@].0 == c@,
                None => !self@.contains_key(email@),
            },
    {
        table_code(&self.codes, email)
    }

    /// Checks `token` against the code kept for `email`; an accepted code is
    /// used up, a refused one stays.
    pub fn verify_email(&mut self, email: &str, token: &str) -> (r: Result<(), Error>)
        ensures
            outcome(r) == spec_verify(old(self)@, email@, token@),
            final(self)@ == after_verify(old(self)@, email@, token@),
            final(self).code_len() == old(self).code_len(),
    {
        let stored = table_code(&self.codes, email);
        let checked = match &stored {
            Some(s) => check_code(Some(s.as_str()), token),
            None => check_code(None, token),
        };
        match checked {
            Ok(()) => {
                table_remove(&mut self.codes, email);
                Ok(())
            },
            Err(e) => Err(e),
        }
    }

    /// Drops the codes that have expired at `now_secs`.
    pub fn prune(&mut self, now_secs: u64)
        ensures
            final(self)@ == unexpired(old(self)@, now_secs),
            final(self).code_len() == old(self).code_len(),
    {
        table_retain_pending(&mut self.codes, now_secs);
        table_shrink(&mut self.codes);
    }

    /// Drops the codes that have expired by now.
    pub fn maintain(&mut self)
        ensures
            exists|now: u64| final(self)@ == unexpired(old(self)@, now),
            final(self).code_len() == old(self).code_len(),
    {
        let now = Timestamp::now();
        let secs = now.seconds() as u64;
        self.prune(secs);
    }

    /// The number of codes kept.
    pub fn len(&self) -> (n: usize)
        ensures
            n == self@.len(),
    {
        table_len(&self.codes)
    }
}

/// A code just recorded for an e-mail address is accepted for it, and is used
/// up by being accepted.
pub proof fn law_recorded_code_verifies(
    codes: Map<Seq<char>, (Seq<char>, u64)>,
    email: Seq<char>,
    token: Seq<char>,
    expires: u64,
)
    ensures
        spec_verify(codes.insert(email, (token, expires)), email, token) == Ok::<(), Failure>(()),
        !after_verify(codes.insert(email, (token, expires)), email, token).contains_key(email),
{
}

/// A code is accepted once: checking it again answers that the address has no
/// code.
pub proof fn law_code_is_single_use(codes: Map<Seq<char>, (Seq<char>, u64)>, email: Seq<char>, token: Seq<char>)
    requires
        spec_verify(codes, email, token) is Ok,
    ensures
        spec_verify(after_verify(codes, email, token), email, token) == Err::<(), Failure>(
            (ErrorCode::NotFound, "E-Mail not found"@),
        ),
{
}

/// A wrong code is refused as unauthorized and leaves the kept code in place.
pub proof fn law_wrong_code_is_refused(
    codes: Map<Seq<char>, (Seq<char>, u64)>,
    email: Seq<char>,
    token: Seq<char>,
)
    requires
        codes.contains_key(email),
        codes[email].0 != token,
    ensures
        spec_verify(codes, email, token) == Err::<(), Failure>(
            (ErrorCode::Unauthorized, "Invalid token"@),
        ),
        after_verify(codes, email, token) == codes,
{
}

/// Pruning keeps exactly the codes that are still good, each unchanged.
pub proof fn law_prune_keeps_live_codes(codes: Map<Seq<char>, (Seq<char>, u64)>, now: u64)
    ensures
        forall|k: Seq<char>| #[trigger] unexpired(codes, now).contains_key(k) <==> (codes.contains_key(k) && now < codes[k].1),
        forall|k: Seq<char>| #[trigger] unexpired(codes, now).contains_key(k) ==> unexpired(codes, now)[k] == codes[k],
{
}

} // verus!
