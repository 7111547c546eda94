use jsonwebtoken::{Algorithm, DecodingKey, EncodingKey, Header, Validation};
use serde_json::Value;
use vstd::prelude::*;

use crate::classes::models::Classroom;
use crate::clock::unix_nanos_now;
use crate::db::{first, DbConn, QueryError};
use crate::errors::{AuthError, ErrorKind, Status, ThearningResult};
use crate::text;
use crate::users::models::{is_member, ByEmail, Role, User};
use crate::users::utils::{has_at_sign, is_email};

verus! {

/// How long a token is good for: seven days, in nanoseconds.
pub const TOKEN_LIFETIME: u64 = 604_800_000_000_000;

/// What a token says: whom it was issued to, in which role, when, and
/// until when it is good. The instants are nanoseconds since the Unix epoch.
#[derive(Debug)]
pub struct Claims {
    pub sub: String,
    pub iat: u64,
    pub role: String,
    pub exp: u64,
}

/// The claims as they come out of a token whose signature was verified:
/// each is there or not.
#[derive(Debug)]
pub struct DecodedClaims {
    pub sub: Option<String>,
    pub iat: Option<u64>,
    pub role: Option<String>,
    pub exp: Option<u64>,
}

/// The id of a user who presented a valid token.
#[derive(Debug)]
pub struct ApiKey(pub String);

/// The id of a user who presented a valid token and takes part in the
/// classroom that the request is about.
#[derive(Debug)]
pub struct ClassGuard(pub String);

impl Clone for ApiKey {
    fn clone(&self) -> (r: Self)
        ensures
            r == *self,
    {
        ApiKey(self.0.clone())
    }
}

/// The token that `jsonwebtoken::encode` makes of the four claims under
/// the HS512 header and a secret, or `None` where it reports an error.
pub uninterp spec fn hs512_token(
    sub: Seq<char>,
    iat: u64,
    role: Seq<char>,
    exp: u64,
    secret: Seq<char>,
) -> Option<Seq<char>>;

#[verifier::external_type_specification]
#[verifier::external_body]
pub struct ExJwtError(jsonwebtoken::errors::Error);

/// Calls `jsonwebtoken::encode` with a `Header` for HS512, the claims as a
/// JSON object with the members `sub`, `iat`, `role` and `exp`, and
/// `EncodingKey::from_secret` of the secret's bytes. The token is computed
/// from these alone; the contract gives it its name.
#[verifier::external_body]
fn jwt_encode(claims: &Claims, secret: &String) -> (r: Result<String, jsonwebtoken::errors::Error>)
    ensures
        r is Ok <==> hs512_token(claims.sub@, claims.iat, claims.role@, claims.exp, secret@) is Some,
        r matches Ok(token) ==> hs512_token(claims.sub@, claims.iat, claims.role@, claims.exp, secret@)
            == Some(token@),
{
    let mut body = serde_json::Map::new();
    body.insert("sub".to_string(), Value::from(claims.sub.as_str()));
    body.insert("iat".to_string(), Value::from(claims.iat));
    body.insert("role".to_string(), Value::from(claims.role.as_str()));
    body.insert("exp".to_string(), Value::from(claims.exp));
    jsonwebtoken::encode(&Header::new(Algorithm::HS512), &body, &EncodingKey::from_secret(secret.as_bytes()))
}

/// Calls `jsonwebtoken::decode` with `DecodingKey::from_secret` of the
/// secret's bytes and a `Validation` for HS512 whose check of `exp` against
/// the system clock is switched off, and picks the four claims out of the
/// JSON object. So the outcome hangs on the two texts alone; it has a name.
#[verifier::external_body]
fn jwt_decode(token: &String, secret: &String) -> (r: Result<DecodedClaims, jsonwebtoken::errors::Error>)
    ensures
        claims_of(r) == hs512_claims(token@, secret@),
{
    let mut validation = Validation::new(Algorithm::HS512);
    validation.validate_exp = false;
    let data = jsonwebtoken::decode::<Value>(token, &DecodingKey::from_secret(secret.as_bytes()), &validation)?;
    Ok(DecodedClaims {
        sub: data.claims.get("sub").and_then(Value::as_str).map(str::to_string),
        iat: data.claims.get("iat").and_then(Value::as_u64),
        role: data.claims.get("role").and_then(Value::as_str).map(str::to_string),
        exp: data.claims.get("exp").and_then(Value::as_u64),
    })
}

/// The instant that the clock gave, as tokens carry it: the nanoseconds
/// since the epoch, where the clock could tell them and they are not
/// negative.
pub fn timestamp(nanos: Option<i64>) -> (r: Option<u64>)
    ensures
        r == match nanos {
            Some(n) => if n >= 0 {
                Some(n as u64)
            } else {
                None
            },
            None => None,
        },
{
    match nanos {
        Some(n) => if n >= 0 {
            Some(n as u64)
        } else {
            None
        },
        None => None,
    }
}

/// Whom a token is issued to when the login key is `key`: the user with
/// that e-mail address where the key is one, else the key itself.
pub open spec fn subject(conn: DbConn, key: &String) -> ThearningResult<String> {
    if has_at_sign(key@) {
        match first(conn.users@, ByEmail(key)) {
            Some(user) => Ok(user.user_id),
            None => Err(ErrorKind::QueryError(QueryError::NotFound)),
        }
    } else {
        Ok(*key)
    }
}

/// Issues a token at `now` for the login key `key` and the role `role`,
/// signed with `secret`: the token that `jsonwebtoken::encode` makes of the
/// subject, `now`, the role's text and `now` plus seven days. `NotFound`
/// where `key` is an e-mail address that no user has, `JWTError` where the
/// token cannot be made.
pub fn generate_token_at(key: &String, role: &Role, now: u64, secret: &String, conn: &DbConn) -> (r:
    ThearningResult<String>)
    ensures
        match subject(*conn, key) {
            Err(e) => r == Err::<String, ErrorKind>(e),
            Ok(sub) => match hs512_token(
                sub@,
                now,
                role.name(),
                (now + TOKEN_LIFETIME) as u64,
                secret@,
            ) {
                Some(token) => if now + TOKEN_LIFETIME <= u64::MAX {
                    r matches Ok(t) && t@ == token
                } else {
                    r == Err::<String, ErrorKind>(ErrorKind::JWTError)
                },
                None => r == Err::<String, ErrorKind>(ErrorKind::JWTError),
            },
        },
{
    let sub = if is_email(key) {
        match User::get_id_from_email(key, conn) {
            Ok(id) => id,
            Err(e) => { return Err(e); },
        }
    } else {
        key.clone()
    };
    let exp = match now.checked_add(TOKEN_LIFETIME) {
        Some(exp) => exp,
        None => { return Err(ErrorKind::JWTError); },
    };
    let claims = Claims { sub, iat: now, role: role.to_string(), exp };
    match jwt_encode(&claims, secret) {
        Ok(token) => Ok(token),
        Err(_) => Err(ErrorKind::JWTError),
    }
}

/// Issues a token at the time of the system clock.
pub fn generate_token(key: &String, role: &Role, secret: &String, conn: &DbConn) -> (r: ThearningResult<
    String,
>)
    ensures
        r matches Err(e) ==> e == ErrorKind::JWTError || subject(*conn, key) == Err::<
            String,
            ErrorKind,
        >(e),
        r matches Ok(token) ==> subject(*conn, key) matches Ok(sub) && exists|now: u64|
            now + TOKEN_LIFETIME <= u64::MAX && #[trigger] hs512_token(
                sub@,
                now,
                role.name(),
                (now + TOKEN_LIFETIME) as u64,
                secret@,
            ) == Some(token@),
{
    match timestamp(unix_nanos_now()) {
        Some(now) => generate_token_at(key, role, now, secret, conn),
        None => Err(ErrorKind::JWTError),
    }
}

/// What a decoded token is worth at `now`: nothing where decoding failed or
/// a claim is missing (`TokenInvalid`), nothing where `now` is past the
/// expiry (`TokenExpired`), else the subject.
pub open spec fn verdict(decoded: Result<DecodedClaims, jsonwebtoken::errors::Error>, now: u64) -> ThearningResult<
    String,
> {
    match decoded {
        Ok(DecodedClaims { sub: Some(sub), iat: Some(_), role: Some(_), exp: Some(exp) }) => if now
            > exp {
            Err(ErrorKind::AuthError(AuthError::TokenExpired))
        } else {
            Ok(sub)
        },
        _ => Err(ErrorKind::AuthError(AuthError::TokenInvalid)),
    }
}

/// A token is good for seven days and no longer: claims that expire
/// `TOKEN_LIFETIME` after they were issued are accepted up to that
/// instant and refused with `TokenExpired` after it. So they are accepted
/// an hour after the issue and refused eight days after it.
pub proof fn lemma_token_is_good_for_seven_days(
    sub: String,
    role: String,
    iat: u64,
    now: u64,
    decoded: Result<DecodedClaims, jsonwebtoken::errors::Error>,
)
    requires
        iat + TOKEN_LIFETIME <= u64::MAX,
        decoded == Ok::<DecodedClaims, jsonwebtoken::errors::Error>(
            DecodedClaims {
                sub: Some(sub),
                iat: Some(iat),
                role: Some(role),
                exp: Some((iat + TOKEN_LIFETIME) as u64),
            },
        ),
    ensures
        verdict(decoded, now) == if now > iat + TOKEN_LIFETIME {
            Err::<String, ErrorKind>(ErrorKind::AuthError(AuthError::TokenExpired))
        } else {
            Ok::<String, ErrorKind>(sub)
        },
        now == iat + 3_600_000_000_000 ==> verdict(decoded, now) == Ok::<String, ErrorKind>(sub),
        now == iat + 8 * 86_400_000_000_000 ==> verdict(decoded, now) == Err::<String, ErrorKind>(
            ErrorKind::AuthError(AuthError::TokenExpired),
        ),
{
}

/// Judges a decoded token at `now`.
pub fn check_claims(decoded: Result<DecodedClaims, jsonwebtoken::errors::Error>, now: u64) -> (r:
    ThearningResult<String>)
    ensures
        r == verdict(decoded, now),
{
    match decoded {
        Ok(claims) => match (claims.sub, claims.iat, claims.role, claims.exp) {
            (Some(sub), Some(_), Some(_), Some(exp)) => if now > exp {
                Err(ErrorKind::AuthError(AuthError::TokenExpired))
            } else {
                Ok(sub)
            },
            _ => Err(ErrorKind::AuthError(AuthError::TokenInvalid)),
        },
        Err(_) => Err(ErrorKind::AuthError(AuthError::TokenInvalid)),
    }
}

/// Reads the token `key` at `now`: verifies it against `secret` and hands
/// back its subject, the id of a user. A token that does not verify is
/// refused with `TokenInvalid`, one that has expired with `TokenExpired`.
/// The subject is trusted as it stands: the store is not asked.
pub fn read_token_at(key: &String, secret: &String, now: u64) -> (r: ThearningResult<String>)
    ensures
        text_of(r) == judged(hs512_claims(key@, secret@), now),
{
    let decoded = jwt_decode(key, secret);
    check_claims(decoded, now)
}

/// Reads the token `key` at the time of the system clock: the answer is
/// that of `read_token_at` for the instant that the clock gives.
pub fn read_token(key: &String, secret: &String) -> (r: ThearningResult<String>)
    ensures
        (exists|now: u64| text_of(r) == #[trigger] judged(hs512_claims(key@, secret@), now)) || (
        // The clock gave no instant that 64 bits hold.
        r == Err::<String, ErrorKind>(ErrorKind::AuthError(AuthError::TokenInvalid))),
        !whole(hs512_claims(key@, secret@)) ==> r == Err::<String, ErrorKind>(
            ErrorKind::AuthError(AuthError::TokenInvalid),
        ),
        r matches Ok(sub) ==> hs512_claims(key@, secret@) matches Some(claims) && claims.0 == Some(
            sub@,
        ),
        r matches Err(e) ==> e == ErrorKind::AuthError(AuthError::TokenInvalid) || e
            == ErrorKind::AuthError(AuthError::TokenExpired),
{
    match timestamp(unix_nanos_now()) {
        Some(now) => {
            let r = read_token_at(key, secret, now);
            assert(text_of(r) == judged(hs512_claims(key@, secret@), now));
            r
        },
        None => Err(ErrorKind::AuthError(AuthError::TokenInvalid)),
    }
}

/// The claims that `jsonwebtoken::decode` reads from a token under a secret
/// and HS512, without holding `exp` against the clock: the subject, the
/// instant of the issue, the role and the expiry, each where the token's
/// JSON object holds it as a text or as a number of 64 bits; `None` where
/// the call reports an error, as it does where the signature does not
/// verify.
pub uninterp spec fn hs512_claims(token: Seq<char>, secret: Seq<char>) -> Option<
    (Option<Seq<char>>, Option<u64>, Option<Seq<char>>, Option<u64>),
>;

/// What came out of a token, by its texts.
pub open spec fn claims_of(decoded: Result<DecodedClaims, jsonwebtoken::errors::Error>) -> Option<
    (Option<Seq<char>>, Option<u64>, Option<Seq<char>>, Option<u64>),
> {
    match decoded {
        Ok(claims) => Some(
            (
                match claims.sub {
                    Some(sub) => Some(sub@),
                    None => None,
                },
                claims.iat,
                match claims.role {
                    Some(role) => Some(role@),
                    None => None,
                },
                claims.exp,
            ),
        ),
        Err(_) => None,
    }
}

/// The claims are all there.
pub open spec fn whole(claims: Option<(Option<Seq<char>>, Option<u64>, Option<Seq<char>>, Option<u64>)>) -> bool {
    claims matches Some((Some(_), Some(_), Some(_), Some(_)))
}

/// What claims are worth at `now`: nothing where the token was not
/// accepted or a claim is missing (`TokenInvalid`), nothing where `now` is
/// past the expiry (`TokenExpired`), else the subject.
pub open spec fn judged(
    claims: Option<(Option<Seq<char>>, Option<u64>, Option<Seq<char>>, Option<u64>)>,
    now: u64,
) -> Result<Seq<char>, ErrorKind> {
    match claims {
        Some((Some(sub), Some(_), Some(_), Some(exp))) => if now > exp {
            Err(ErrorKind::AuthError(AuthError::TokenExpired))
        } else {
            Ok(sub)
        },
        _ => Err(ErrorKind::AuthError(AuthError::TokenInvalid)),
    }
}

/// The answer of reading a token, with the subject by its text.
pub open spec fn text_of(r: ThearningResult<String>) -> Result<Seq<char>, ErrorKind> {
    match r {
        Ok(sub) => Ok(sub@),
        Err(e) => Err(e),
    }
}

/// The token in an `Authorization` header: the header is cut at every
/// `Bearer`, and the trimmed pieces are put together again.
pub open spec fn bearer(header: Seq<char>) -> Seq<char> {
    text::glued(text::pieces(header, "Bearer"@))
}

/// The token in an `Authorization` header.
pub fn bearer_token(header: &String) -> (r: String)
    ensures
        r@ == bearer(header@),
{
    let parts = text::split(header, "Bearer");
    proof {
        assert(parts@.map_values(|p: String| p@) =~= text::pieces(header@, "Bearer"@));
    }
    text::glue(&parts)
}

impl ApiKey {
    /// Lets a caller in on the strength of what reading the token gave.
    /// Without an `Authorization` header the request is bad; a token that
    /// was not accepted makes it unauthorized, with the reason.
    pub fn resolve(has_header: bool, claim: ThearningResult<String>) -> (r: Result<
        ApiKey,
        (Status, ErrorKind),
    >)
        ensures
            r == if !has_header {
                Err::<ApiKey, (Status, ErrorKind)>((Status::BadRequest, ErrorKind::InvalidValue))
            } else {
                match claim {
                    Ok(sub) => Ok::<ApiKey, (Status, ErrorKind)>(ApiKey(sub)),
                    Err(e) => Err::<ApiKey, (Status, ErrorKind)>((Status::Unauthorized, e)),
                }
            },
    {
        if !has_header {
            return Err((Status::BadRequest, ErrorKind::InvalidValue));
        }
        match claim {
            Ok(sub) => Ok(ApiKey(sub)),
            Err(e) => Err((Status::Unauthorized, e)),
        }
    }

    /// Resolves the `Authorization` header of a request, read at `now`, to
    /// the id of the caller: the subject of the token in the header. Without
    /// a header the request is bad; a token that is not accepted makes it
    /// unauthorized, with the reason.
    pub fn from_request(authorization: Option<&String>, secret: &String, now: u64) -> (r: Result<
        ApiKey,
        (Status, ErrorKind),
    >)
        ensures
            authorization is None ==> r == Err::<ApiKey, (Status, ErrorKind)>(
                (Status::BadRequest, ErrorKind::InvalidValue),
            ),
            authorization matches Some(h) ==> exists|claim: ThearningResult<String>|
                text_of(claim) == judged(hs512_claims(bearer(h@), secret@), now) && r
                    == #[trigger] ApiKey::spec_resolve(claim),
            authorization matches Some(h) ==> match judged(
                hs512_claims(bearer(h@), secret@),
                now,
            ) {
                Ok(sub) => r matches Ok(key) && key.0@ == sub,
                Err(e) => r == Err::<ApiKey, (Status, ErrorKind)>((Status::Unauthorized, e)),
            },
    {
        match authorization {
            Some(header) => {
                let token = bearer_token(header);
                let claim = read_token_at(&token, secret, now);
                let ghost given = claim;
                let r = ApiKey::resolve(true, claim);
                assert(text_of(given) == judged(hs512_claims(bearer(header@), secret@), now) && r
                    == ApiKey::spec_resolve(given));
                r
            },
            None => Err((Status::BadRequest, ErrorKind::InvalidValue)),
        }
    }

    /// What a request with a header comes to, given what its token gave.
    pub open spec fn spec_resolve(claim: ThearningResult<String>) -> Result<ApiKey, (Status, ErrorKind)> {
        match claim {
            Ok(sub) => Ok(ApiKey(sub)),
            Err(e) => Err((Status::Unauthorized, e)),
        }
    }
}

impl ClassGuard {
    /// What a request for a classroom comes to, given what its token gave:
    /// a token that was not accepted makes it unauthorized; a request that
    /// names no classroom is bad; a caller outside the classroom is
    /// forbidden; a member is let in.
    pub open spec fn spec_authorize(
        claim: ThearningResult<String>,
        class_id: Option<&String>,
        conn: DbConn,
    ) -> Result<ClassGuard, (Status, ErrorKind)> {
        match claim {
            Err(e) => Err((Status::Unauthorized, e)),
            Ok(sub) => match class_id {
                None => Err((Status::BadRequest, ErrorKind::InvalidValue)),
                Some(id) => if is_member(conn.memberships@, id@, sub@) {
                    Ok(ClassGuard(sub))
                } else {
                    Err((Status::Forbidden, ErrorKind::AuthError(AuthError::Unauthorized)))
                },
            },
        }
    }

    /// Decides whether the caller that a token named may act on the
    /// classroom `class_id`: only a student, teacher or admin of that
    /// classroom may.
    pub fn authorize(claim: ThearningResult<String>, class_id: Option<&String>, conn: &DbConn) -> (r:
        Result<ClassGuard, (Status, ErrorKind)>)
        ensures
            r == ClassGuard::spec_authorize(claim, class_id, *conn),
    {
        let sub = match claim {
            Ok(sub) => sub,
            Err(e) => { return Err((Status::Unauthorized, e)); },
        };
        let id = match class_id {
            Some(id) => id,
            None => { return Err((Status::BadRequest, ErrorKind::InvalidValue)); },
        };
        if Classroom::user_in_class(id, &sub, conn) {
            Ok(ClassGuard(sub))
        } else {
            Err((Status::Forbidden, ErrorKind::AuthError(AuthError::Unauthorized)))
        }
    }

    /// The request carries a token that reads, at `now`, to a subject who
    /// is a member of the classroom that the request names.
    pub open spec fn passes(
        authorization: Option<&String>,
        class_id: Option<&String>,
        secret: Seq<char>,
        now: u64,
        conn: DbConn,
    ) -> bool {
        match (authorization, class_id) {
            (Some(h), Some(id)) => match judged(hs512_claims(bearer(h@), secret), now) {
                Ok(sub) => is_member(conn.memberships@, id@, sub),
                Err(_) => false,
            },
            _ => false,
        }
    }

    /// Resolves the `Authorization` header of a request for the classroom
    /// `class_id`, read at `now`, to the id of a caller who takes part in
    /// that classroom. The request succeeds exactly where the token in its
    /// header reads to a subject who is a member of the classroom. Without
    /// a header it is bad; a token that is not accepted makes it
    /// unauthorized, with the reason; without a classroom it is bad; and
    /// a caller outside the classroom is forbidden.
    pub fn from_request(
        authorization: Option<&String>,
        class_id: Option<&String>,
        secret: &String,
        now: u64,
        conn: &DbConn,
    ) -> (r: Result<ClassGuard, (Status, ErrorKind)>)
        ensures
            authorization is None ==> r == Err::<ClassGuard, (Status, ErrorKind)>(
                (Status::BadRequest, ErrorKind::InvalidValue),
            ),
            authorization matches Some(h) ==> exists|claim: ThearningResult<String>|
                text_of(claim) == judged(hs512_claims(bearer(h@), secret@), now) && r
                    == #[trigger] ClassGuard::spec_authorize(claim, class_id, *conn),
            authorization matches Some(h) ==> match judged(
                hs512_claims(bearer(h@), secret@),
                now,
            ) {
                Err(e) => r == Err::<ClassGuard, (Status, ErrorKind)>((Status::Unauthorized, e)),
                Ok(sub) => match class_id {
                    None => r == Err::<ClassGuard, (Status, ErrorKind)>(
                        (Status::BadRequest, ErrorKind::InvalidValue),
                    ),
                    Some(id) => if is_member(conn.memberships@, id@, sub) {
                        r matches Ok(guard) && guard.0@ == sub
                    } else {
                        r == Err::<ClassGuard, (Status, ErrorKind)>(
                            (Status::Forbidden, ErrorKind::AuthError(AuthError::Unauthorized)),
                        )
                    },
                },
            },
            r is Ok <==> ClassGuard::passes(authorization, class_id, secret@, now, *conn),
    {
        match authorization {
            Some(header) => {
                let token = bearer_token(header);
                let claim = read_token_at(&token, secret, now);
                let ghost given = claim;
                let r = ClassGuard::authorize(claim, class_id, conn);
                assert(text_of(given) == judged(hs512_claims(bearer(header@), secret@), now) && r
                    == ClassGuard::spec_authorize(given, class_id, *conn));
                r
            },
            None => Err((Status::BadRequest, ErrorKind::InvalidValue)),
        }
    }
}

} // verus!
