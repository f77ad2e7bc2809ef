//! What the service itself decides about credentials: where a bearer token is
//! read from, and how long a token it issues stays valid. Signing and checking
//! the token are left to the host.

use vstd::prelude::*;

verus! {

/// How long an issued token stays valid, in seconds.
pub const TOKEN_LIFETIME_IN_SECONDS: u64 = 3600;

/// Why a request carries no usable bearer token.
#[derive(Debug, Clone, Copy, PartialEq, Eq, Structural)]
pub enum AuthError {
    /// No `Authorization` header.
    MissingHeader,
    /// The header does not start with `Bearer `.
    InvalidHeader,
}

/// The token of an `Authorization` header, if it has the bearer form.
pub open spec fn bearer_of(header: Seq<char>) -> Option<Seq<char>> {
    if header.len() >= 7 && header.subrange(0, 7) == "Bearer "@ {
        Some(header.subrange(7, header.len() as int))
    } else {
        None
    }
}

/// The token that a request with `header` as its `Authorization` header
/// carries, or why it carries none.
pub open spec fn bearer_outcome(header: Option<String>) -> Result<Seq<char>, AuthError> {
    match header {
        None => Err(AuthError::MissingHeader),
        Some(h) => match bearer_of(h@) {
            Some(t) => Ok(t),
            None => Err(AuthError::InvalidHeader),
        },
    }
}

pub open spec fn token_view(r: Result<String, AuthError>) -> Result<Seq<char>, AuthError> {
    match r {
        Ok(t) => Ok(t@),
        Err(e) => Err(e),
    }
}

/// Reads the bearer token from an `Authorization` header.
pub fn bearer_token(header: Option<String>) -> (r: Result<String, AuthError>)
    ensures
        token_view(r) == bearer_outcome(header),
{
    let h = match &header {
        Some(h) => h,
        None => {
            return Err(AuthError::MissingHeader);
        },
    };
    let prefix = "Bearer ";
    proof {
        reveal_strlit("Bearer ");
    }
    let text = h.as_str();
    let n = text.unicode_len();
    if n < 7 {
        return Err(AuthError::InvalidHeader);
    }
    let mut i: usize = 0;
    while i < 7
        invariant
            i <= 7,
            n == text@.len(),
            n >= 7,
            prefix@ == "Bearer "@,
            prefix@.len() == 7,
            text@ == h@,
            header == Some(*h),
            forall|j: int| 0 <= j < i ==> text@[j] == prefix@[j],
        decreases 7 - i,
    {
        let c = text.get_char(i);
        let p = prefix.get_char(i);
        if c != p {
            proof {
                assert(h@.subrange(0, 7)[i as int] == c);
                assert("Bearer "@[i as int] == p);
                assert(h@.subrange(0, 7) != "Bearer "@);
            }
            return Err(AuthError::InvalidHeader);
        }
        i = i + 1;
    }
    proof {
        assert(text@.subrange(0, 7) =~= "Bearer "@);
    }
    let token = text.substring_char(7, n);
    Ok(token.to_owned())
}

/// The expiry claim of a token issued at `now_millis`: whole seconds since the
/// epoch, plus the token's lifetime.
pub fn token_expiry(now_millis: u64) -> (r: u64)
    ensures
        r == now_millis / 1000 + TOKEN_LIFETIME_IN_SECONDS,
{
    now_millis / 1000 + TOKEN_LIFETIME_IN_SECONDS
}

/// Issues and checks tokens with one secret.
pub struct AuthenticationService {
    jwt_secret: String,
}

impl AuthenticationService {
    pub closed spec fn secret(&self) -> Seq<char> {
        self.jwt_secret@
    }

    pub fn new(jwt_secret: String) -> (r: AuthenticationService)
        ensures
            r.secret() == jwt_secret@,
    {
        AuthenticationService { jwt_secret }
    }

    pub fn jwt_secret(&self) -> (r: &String)
        ensures
            r@ == self.secret(),
    {
        &self.jwt_secret
    }
}

} // verus!
