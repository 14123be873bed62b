//! Accounts: registering, logging in, tokens and profile updates. The
//! database work happens around these functions; password hashing and
//! checking go through `bcrypt`.

use crate::api::websocket::{Notice, WebsocketServerMessage};
use crate::ids::ObjectId;
use crate::models::user::{User, UserSafe};
use vstd::prelude::*;

verus! {

/// A request to open an account.
pub struct RegisterRequest {
    pub email: String,
    pub password: String,
    pub display_name: String,
}

/// A request to log in.
pub struct LoginRequest {
    pub email: String,
    pub password: String,
}

/// The answer to a successful registration or login: the account and a
/// signed token for it.
pub struct AuthResponse {
    pub user: UserSafe,
    pub token: String,
}

/// What a token asserts: whose it is and until when (seconds since the
/// Unix epoch) it is valid.
pub struct Claims {
    pub user_id: ObjectId,
    pub exp: usize,
}

/// A request to change the profile; absent fields stay as they are.
pub struct UpdateRequest {
    pub display_name: Option<String>,
    pub profile_image: Option<String>,
}

/// Why registering or logging in failed.
#[derive(Clone, Copy, Debug, PartialEq, Eq, Structural)]
pub enum AuthError {
    /// An account with this email exists already (answered as a bad request).
    EmailExists,
    /// No account has this email, or the password does not match (answered
    /// as not found).
    IncorrectCredentials,
    /// The database or the password hashing failed (answered as an internal
    /// error).
    Internal,
}

impl AuthError {
    /// The HTTP status the error is answered with.
    pub fn status(&self) -> (r: u16)
        ensures
            r == match *self {
                AuthError::EmailExists => 400u16,
                AuthError::IncorrectCredentials => 404u16,
                AuthError::Internal => 500u16,
            },
    {
        match self {
            AuthError::EmailExists => 400,
            AuthError::IncorrectCredentials => 404,
            AuthError::Internal => 500,
        }
    }
}

/// The work factor every password is hashed with.
pub const HASH_COST: u32 = 10;

/// How long a token is valid: one day, in seconds.
pub const TOKEN_LIFETIME_SECS: i64 = 86400;

/// What `bcrypt::verify` makes of a password and a stored hash: whether
/// they match, or `None` where it fails.
pub uninterp spec fn bcrypt_verify_outcome(password: Seq<char>, hash: Seq<char>) -> Option<bool>;

/// Whether every character is ASCII.
pub open spec fn all_ascii(s: Seq<char>) -> bool {
    forall|i: int| 0 <= i < s.len() ==> (s[i] as int) < 128
}

/// The decimal digit of a value below 10.
pub open spec fn decimal_digit(n: int) -> char {
    seq!['0', '1', '2', '3', '4', '5', '6', '7', '8', '9'][n]
}

#[verifier::external_type_specification]
#[verifier::external_body]
pub struct ExBcryptError(bcrypt::BcryptError);

/// Calls `bcrypt::hash` with a random salt. It fails for a cost outside
/// 4..=31 and when the system gives no randomness; a hash it returns is the
/// 60 ASCII characters `$2b$`, the two-digit cost, `$`, salt and digest, and
/// `bcrypt::verify` accepts the same password against it.
#[verifier::external_body]
fn bcrypt_hash(password: &str, cost: u32) -> (r: Result<String, bcrypt::BcryptError>)
    ensures
        !(4 <= cost <= 31) ==> r is Err,
        r matches Ok(h) ==> {
            &&& h@.len() == 60
            &&& all_ascii(h@)
            &&& h@[0] == '$' && h@[1] == '2' && h@[2] == 'b' && h@[3] == '$'
            &&& h@[4] == decimal_digit((cost / 10) as int) && h@[5] == decimal_digit((cost % 10) as int)
            &&& h@[6] == '$'
            &&& bcrypt_verify_outcome(password@, h@) == Some(true)
        },
{
    bcrypt::hash(password, cost)
}

/// Calls `bcrypt::verify`; its outcome is named by `bcrypt_verify_outcome`.
/// It fails on anything but 60 ASCII characters.
#[verifier::external_body]
fn bcrypt_verify(password: &str, hash: &str) -> (r: Result<bool, bcrypt::BcryptError>)
    ensures
        r is Ok <==> bcrypt_verify_outcome(password@, hash@) is Some,
        r matches Ok(b) ==> bcrypt_verify_outcome(password@, hash@) == Some(b),
        !(hash@.len() == 60 && all_ascii(hash@)) ==> r is Err,
{
    bcrypt::verify(password, hash)
}

/// Whether `u` is the account stored for registration `request`: no id
/// yet, the email and name asked for, an empty profile image and a 60
/// character bcrypt hash, made at cost `HASH_COST`, that accepts the
/// password.
pub open spec fn is_registration_of(u: User, request: RegisterRequest) -> bool {
    &&& u.id is None
    &&& u.email == request.email
    &&& u.display_name == request.display_name
    &&& u.profile_image@.len() == 0
    &&& u.password_hash@.len() == 60
    &&& u.password_hash@[4] == decimal_digit((HASH_COST / 10) as int)
    &&& u.password_hash@[5] == decimal_digit((HASH_COST % 10) as int)
    &&& bcrypt_verify_outcome(request.password@, u.password_hash@) == Some(true)
}

/// Registration may go on unless an account with the email was found; a
/// failed lookup does not stop it.
pub fn check_email_free(lookup: Result<bool, ()>) -> (r: Result<(), AuthError>)
    ensures
        r is Err <==> lookup == Ok::<bool, ()>(true),
        r matches Err(e) ==> e == AuthError::EmailExists,
{
    match lookup {
        Ok(true) => Err(AuthError::EmailExists),
        _ => Ok(()),
    }
}

/// The account to store for a registration: the password hashed with
/// bcrypt at `HASH_COST`, no id yet and an empty profile image. Refused when
/// an account with the email exists; fails when hashing fails.
pub fn register(request: RegisterRequest, email_lookup: Result<bool, ()>) -> (r: Result<
    User,
    AuthError,
>)
    ensures
        email_lookup == Ok::<bool, ()>(true) ==> r == Err::<User, AuthError>(AuthError::EmailExists),
        email_lookup != Ok::<bool, ()>(true) ==> (r matches Err(e) ==> e == AuthError::Internal),
        r matches Ok(u) ==> is_registration_of(u, request),
{
    check_email_free(email_lookup)?;
    let password_hash = match bcrypt_hash(request.password.as_str(), HASH_COST) {
        Ok(h) => h,
        Err(_) => {
            return Err(AuthError::Internal);
        },
    };
    Ok(
        User {
            id: None,
            email: request.email,
            password_hash,
            display_name: request.display_name,
            profile_image: String::new(),
        },
    )
}

/// The claims of a token issued at `now_secs` for `user_id`: valid for one
/// day.
pub fn session_claims(user_id: ObjectId, now_secs: i64) -> (r: Claims)
    requires
        now_secs <= i64::MAX - TOKEN_LIFETIME_SECS,
    ensures
        r.user_id == user_id,
        r.exp == (now_secs + TOKEN_LIFETIME_SECS) as usize,
{
    let expiry: i64 = now_secs + TOKEN_LIFETIME_SECS;
    Claims { user_id, exp: expiry as usize }
}

/// A newly stored account as it is answered, with the claims of its token.
pub fn registered(user: User, id: Option<ObjectId>, now_secs: i64) -> (r: (UserSafe, Claims))
    requires
        id is Some,
        now_secs <= i64::MAX - TOKEN_LIFETIME_SECS,
    ensures
        r.0.id == id.unwrap(),
        r.0.email == user.email,
        r.0.display_name == user.display_name,
        r.1.user_id == id.unwrap(),
        r.1.exp == (now_secs + TOKEN_LIFETIME_SECS) as usize,
{
    let mut user = user;
    user.id = id;
    let safe = UserSafe::from(user);
    let claims = session_claims(safe.id, now_secs);
    (safe, claims)
}

/// What logging in with `password` answers, given what the lookup by email
/// found.
pub open spec fn spec_login(found: Result<Option<User>, ()>, password: Seq<char>) -> Result<
    UserSafe,
    AuthError,
> {
    match found {
        Err(_) => Err(AuthError::Internal),
        Ok(None) => Err(AuthError::IncorrectCredentials),
        Ok(Some(u)) => match bcrypt_verify_outcome(password, u.password_hash@) {
            None => Err(AuthError::Internal),
            Some(false) => Err(AuthError::IncorrectCredentials),
            Some(true) => Ok(
                UserSafe { id: u.id.unwrap(), email: u.email, display_name: u.display_name },
            ),
        },
    }
}

/// Logging in with `password` against what the lookup by email found:
/// refused when nothing was found or bcrypt says the password does not
/// match; an internal error when the lookup or bcrypt fails. An account
/// whose password matches must have an id.
pub fn login(found: Result<Option<User>, ()>, password: &str) -> (r: Result<UserSafe, AuthError>)
    requires
        found matches Ok(Some(u)) ==> (u.id is None ==> bcrypt_verify_outcome(
            password@,
            u.password_hash@,
        ) != Some(true)),
    ensures
        r == spec_login(found, password@),
{
    let user = match found {
        Err(_) => {
            return Err(AuthError::Internal);
        },
        Ok(None) => {
            return Err(AuthError::IncorrectCredentials);
        },
        Ok(Some(u)) => u,
    };
    match bcrypt_verify(password, user.password_hash.as_str()) {
        Err(_) => Err(AuthError::Internal),
        Ok(false) => Err(AuthError::IncorrectCredentials),
        Ok(true) => Ok(UserSafe::from(user)),
    }
}

/// Logging in as `login` does, for any lookup result: `None` for the one
/// case `login` cannot answer, an account without an id whose password
/// matches.
pub fn try_login(found: Result<Option<User>, ()>, password: &str) -> (r: Option<
    Result<UserSafe, AuthError>,
>)
    ensures
        r is None <==> (found matches Ok(Some(u)) && u.id is None && bcrypt_verify_outcome(
            password@,
            u.password_hash@,
        ) == Some(true)),
        r matches Some(x) ==> x == spec_login(found, password@),
{
    match &found {
        Ok(Some(u)) => {
            if u.id.is_none() {
                match bcrypt_verify(password, u.password_hash.as_str()) {
                    Ok(true) => {
                        return None;
                    },
                    _ => {},
                }
            }
        },
        _ => {},
    }
    Some(login(found, password))
}

/// Whether `fields` are the profile fields that `request` sets, in the
/// order display name, profile image.
pub open spec fn is_update_of(fields: Seq<(Seq<char>, Seq<char>)>, request: UpdateRequest) -> bool {
    let names = seq!['d', 'i', 's', 'p', 'l', 'a', 'y', '_', 'n', 'a', 'm', 'e'];
    let images = seq![
        'p',
        'r',
        'o',
        'f',
        'i',
        'l',
        'e',
        '_',
        'i',
        'm',
        'a',
        'g',
        'e',
    ];
    let first: Seq<(Seq<char>, Seq<char>)> = match request.display_name {
        Some(n) => seq![(names, n@)],
        None => Seq::empty(),
    };
    let second: Seq<(Seq<char>, Seq<char>)> = match request.profile_image {
        Some(p) => seq![(images, p@)],
        None => Seq::empty(),
    };
    fields == first + second
}

/// The fields a profile update sets, as (field name, value) pairs.
pub fn update_fields(request: &UpdateRequest) -> (r: Vec<(String, String)>)
    ensures
        is_update_of(r@.map_values(|f: (String, String)| (f.0@, f.1@)), *request),
{
    proof {
        reveal_strlit("display_name");
        reveal_strlit("profile_image");
    }
    let mut out: Vec<(String, String)> = Vec::new();
    match &request.display_name {
        Some(n) => {
            out.push((String::from_str("display_name"), n.clone()));
        },
        None => {},
    }
    let ghost mid = out@;
    match &request.profile_image {
        Some(p) => {
            out.push((String::from_str("profile_image"), p.clone()));
        },
        None => {},
    }
    proof {
        let names = seq!['d', 'i', 's', 'p', 'l', 'a', 'y', '_', 'n', 'a', 'm', 'e'];
        let images = seq!['p', 'r', 'o', 'f', 'i', 'l', 'e', '_', 'i', 'm', 'a', 'g', 'e'];
        assert("display_name"@ =~= names);
        assert("profile_image"@ =~= images);
        let v = out@.map_values(|f: (String, String)| (f.0@, f.1@));
        if request.display_name is Some && request.profile_image is Some {
            assert(v =~= seq![(names, request.display_name.unwrap()@)] + seq![(images, request.profile_image.unwrap()@)]);
        } else if request.display_name is Some {
            assert(v =~= seq![(names, request.display_name.unwrap()@)] + Seq::<(Seq<char>, Seq<char>)>::empty());
        } else if request.profile_image is Some {
            assert(v =~= Seq::<(Seq<char>, Seq<char>)>::empty() + seq![(images, request.profile_image.unwrap()@)]);
        } else {
            assert(v =~= Seq::<(Seq<char>, Seq<char>)>::empty() + Seq::<(Seq<char>, Seq<char>)>::empty());
        }
    }
    out
}

/// How long requested TURN credentials stay valid: one day, in seconds.
pub const TURN_CREDENTIALS_TTL_SECS: i32 = 86400;

/// The request for a client's TURN credentials from Cloudflare: the URL for
/// application `cf_id`, and the `Authorization` header for `cf_token`.
pub fn turn_credentials_request(cf_id: &str, cf_token: &str) -> (r: (String, String))
    ensures
        r.0@ == "https://rtc.live.cloudflare.com/v1/turn/keys/"@ + cf_id@
            + "/credentials/generate-ice-servers"@,
        r.1@ == "Bearer "@ + cf_token@,
{
    let mut url = String::from_str("https://rtc.live.cloudflare.com/v1/turn/keys/");
    url.append(cf_id);
    url.append("/credentials/generate-ice-servers");
    let mut authorization = String::from_str("Bearer ");
    authorization.append(cf_token);
    (url, authorization)
}

/// The notice of a changed profile, for the user's own connections.
pub fn profile_notice(user: &UserSafe) -> (r: Notice)
    ensures
        r.recipients@ == seq![user.id],
        r.message == WebsocketServerMessage::ProfileUpdated(*user),
{
    let mut recipients: Vec<ObjectId> = Vec::new();
    recipients.push(user.id);
    Notice { recipients, message: WebsocketServerMessage::ProfileUpdated(user.duplicate()) }
}

/// An account logs in with the password it was registered with: once the
/// account that registration produced is stored (and so has an id), a login
/// with the same password answers that account.
pub proof fn law_registered_password_logs_in(request: RegisterRequest, stored: User)
    requires
        is_registration_of(
            User { id: None, ..stored },
            request,
        ),
        stored.id is Some,
    ensures
        spec_login(Ok(Some(stored)), request.password@) == Ok::<UserSafe, AuthError>(
            UserSafe { id: stored.id.unwrap(), email: request.email, display_name: request.display_name },
        ),
{
}

} // verus!
