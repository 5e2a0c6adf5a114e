//! The claims of a token and the rules around issuing and checking one: when
//! a token expires, and what a failed check is reported as. Encoding and
//! decoding tokens is left to the caller.
use vstd::prelude::*;

verus! {

/// Why a token could not be issued or was not accepted.
#[derive(Debug, Clone, Copy, PartialEq, Eq, Structural)]
pub enum JwtError {
    /// The lifetime is not a duration such as `14d` or `1h 30min`.
    InvalidDuration,
    /// The expiry lies beyond the last second of the year 9999.
    ExpiryOutOfRange,
    /// The token is malformed.
    InvalidToken,
    /// The token names another issuer.
    InvalidIssuer,
    /// The token was refused for another reason.
    Rejected,
}

/// How a check of a token failed, as the decoder reports it.
#[derive(Debug, Clone, Copy, PartialEq, Eq, Structural)]
pub enum JwtFailure {
    InvalidToken,
    InvalidIssuer,
    Other,
}

/// The claims of a token: audience, expiry in seconds since the Unix
/// epoch, and subject.
#[derive(Debug)]
pub struct Claims {
    aud: String,
    exp: u64,
    sub: String,
}

/// The claims as values.
pub struct ClaimsView {
    pub aud: Seq<char>,
    pub exp: u64,
    pub sub: Seq<char>,
}

impl View for Claims {
    type V = ClaimsView;

    closed spec fn view(&self) -> ClaimsView {
        ClaimsView { aud: self.aud@, exp: self.exp, sub: self.sub@ }
    }
}

/// The parts of the duration that `text` stands for, whole seconds and the
/// nanoseconds beyond them; `None` when it is no duration.
pub uninterp spec fn humantime_duration(text: Seq<char>) -> Option<(u64, u32)>;

/// `humantime::parse_duration`, with `Duration::as_secs` and
/// `Duration::subsec_nanos` of std on what it returns: the duration depends
/// on the text alone, and its nanoseconds are less than a second.
#[verifier::external_body]
fn parse_duration(text: &str) -> (r: Option<(u64, u32)>)
    ensures
        r == humantime_duration(text@),
        r matches Some(d) ==> d.1 < 1_000_000_000,
{
    humantime::parse_duration(text).ok().map(|d| (d.as_secs(), d.subsec_nanos()))
}

/// `OffsetDateTime::now_utc` of time, with `unix_timestamp` and `nanosecond`
/// on what it returns: the seconds since the Unix epoch and the nanoseconds
/// within the second, which are less than a second. The moment is the
/// clock's.
#[verifier::external_body]
fn now_utc() -> (r: (i64, u32))
    ensures
        r.1 < 1_000_000_000,
{
    let now = time::OffsetDateTime::now_utc();
    (now.unix_timestamp(), now.nanosecond())
}

/// The last second that a date can hold: the end of the year 9999.
pub const MAX_TIMESTAMP: i64 = 253_402_300_799;

/// The whole seconds since the Unix epoch at which a lifetime that starts at
/// `now` ends.
pub open spec fn expiry_second(now_secs: int, now_nanos: int, secs: int, nanos: int) -> int {
    now_secs + secs + (now_nanos + nanos) / 1_000_000_000
}

/// The expiry of claims made at `now` for a lifetime: nothing beyond the
/// last second that a date can hold; a second before the epoch as the
/// number that its two's complement reads as.
pub open spec fn expiry_at(now_secs: int, now_nanos: int, secs: int, nanos: int) -> Option<u64> {
    let total = expiry_second(now_secs, now_nanos, secs, nanos);
    if total > MAX_TIMESTAMP {
        None
    } else if total >= 0 {
        Some(total as u64)
    } else {
        Some((total + 0x1_0000_0000_0000_0000) as u64)
    }
}

/// Computes the expiry of claims made at `now` for a lifetime.
pub fn expiry(now_secs: i64, now_nanos: u32, secs: u64, nanos: u32) -> (r: Option<u64>)
    requires
        now_nanos < 1_000_000_000,
        nanos < 1_000_000_000,
    ensures
        r == expiry_at(now_secs as int, now_nanos as int, secs as int, nanos as int),
{
    let carry: i128 = if now_nanos + nanos >= 1_000_000_000 {
        1
    } else {
        0
    };
    let total: i128 = now_secs as i128 + secs as i128 + carry;
    if total > MAX_TIMESTAMP as i128 {
        None
    } else if total >= 0 {
        Some(total as u64)
    } else {
        Some((total + 0x1_0000_0000_0000_0000) as u64)
    }
}

impl Claims {
    pub fn new(aud: String, exp: u64, sub: String) -> (r: Self)
        ensures
            r@ == (ClaimsView { aud: aud@, exp: exp, sub: sub@ }),
    {
        Self { aud, exp, sub }
    }

    /// The audience.
    pub fn aud(&self) -> (r: &String)
        ensures
            r@ == self@.aud,
    {
        &self.aud
    }

    /// The expiry, in seconds since the Unix epoch.
    pub fn exp(&self) -> (r: u64)
        ensures
            r == self@.exp,
    {
        self.exp
    }

    /// The subject.
    pub fn sub(&self) -> (r: &String)
        ensures
            r@ == self@.sub,
    {
        &self.sub
    }

    /// Makes the claims of a token issued at `now` for the lifetime
    /// `lifetime`, where that is a duration.
    pub fn issued_at(
        aud: String,
        now_secs: i64,
        now_nanos: u32,
        lifetime: Option<(u64, u32)>,
        sub: String,
    ) -> (r: Result<Self, JwtError>)
        requires
            now_nanos < 1_000_000_000,
            lifetime matches Some(d) ==> d.1 < 1_000_000_000,
        ensures
            match lifetime {
                None => r is Err && r->Err_0 == JwtError::InvalidDuration,
                Some(d) => match expiry_at(
                    now_secs as int,
                    now_nanos as int,
                    d.0 as int,
                    d.1 as int,
                ) {
                    None => r is Err && r->Err_0 == JwtError::ExpiryOutOfRange,
                    Some(exp) => r is Ok && r->Ok_0@ == (ClaimsView { aud: aud@, exp: exp, sub: sub@ }),
                },
            },
    {
        match lifetime {
            None => Err(JwtError::InvalidDuration),
            Some(d) => match expiry(now_secs, now_nanos, d.0, d.1) {
                None => Err(JwtError::ExpiryOutOfRange),
                Some(exp) => Ok(Self::new(aud, exp, sub)),
            },
        }
    }

    /// Makes the claims of a token issued now that lives for `exp`, a
    /// duration such as `14d`.
    ///
    /// Fails with `InvalidDuration` exactly when `exp` is no duration. The
    /// claims hold the audience and the subject as given, and expire the
    /// lifetime after some moment: the one the clock gave.
    pub fn try_new(aud: String, exp: String, sub: String) -> (r: Result<Self, JwtError>)
        ensures
            humantime_duration(exp@) is None <==> r is Err && r->Err_0 == JwtError::InvalidDuration,
            r matches Err(e) ==> e == JwtError::InvalidDuration || e == JwtError::ExpiryOutOfRange,
            r matches Ok(c) ==> c@.aud == aud@ && c@.sub == sub@ && exists|
                now_secs: i64,
                now_nanos: u32,
            |
                now_nanos < 1_000_000_000 && #[trigger] expiry_at(
                    now_secs as int,
                    now_nanos as int,
                    humantime_duration(exp@)->Some_0.0 as int,
                    humantime_duration(exp@)->Some_0.1 as int,
                ) == Some(c@.exp),
    {
        let lifetime = parse_duration(exp.as_str());
        let now = now_utc();
        Self::issued_at(aud, now.0, now.1, lifetime, sub)
    }
}

/// What a check of a token is reported as. A token that passed is `true`.
/// One that did not is an error that says why, a malformed token too:
/// no outcome ends the program.
pub fn jwt_verdict(outcome: Result<(), JwtFailure>) -> (r: Result<bool, JwtError>)
    ensures
        r == match outcome {
            Ok(_) => Ok::<bool, JwtError>(true),
            Err(JwtFailure::InvalidToken) => Err(JwtError::InvalidToken),
            Err(JwtFailure::InvalidIssuer) => Err(JwtError::InvalidIssuer),
            Err(JwtFailure::Other) => Err(JwtError::Rejected),
        },
{
    match outcome {
        Ok(_) => Ok(true),
        Err(JwtFailure::InvalidToken) => Err(JwtError::InvalidToken),
        Err(JwtFailure::InvalidIssuer) => Err(JwtError::InvalidIssuer),
        Err(JwtFailure::Other) => Err(JwtError::Rejected),
    }
}

impl JwtError {
    pub open spec fn message_spec(self) -> Seq<char> {
        match self {
            JwtError::InvalidDuration => "invalid duration"@,
            JwtError::ExpiryOutOfRange => "resulting value is out of range"@,
            JwtError::InvalidToken => "Token is invalid"@,
            JwtError::InvalidIssuer => "Issuer is invalid"@,
            JwtError::Rejected => "Some other errors"@,
        }
    }

    /// The text shown for this error.
    pub fn message(self) -> (r: &'static str)
        ensures
            r@ == self.message_spec(),
    {
        match self {
            JwtError::InvalidDuration => "invalid duration",
            JwtError::ExpiryOutOfRange => "resulting value is out of range",
            JwtError::InvalidToken => "Token is invalid",
            JwtError::InvalidIssuer => "Issuer is invalid",
            JwtError::Rejected => "Some other errors",
        }
    }
}

} // verus!
