//! Identity resolution: the session token from the `token` cookie or the
//! bearer header, verified and resolved to a live user row.

use vstd::prelude::*;
use crate::errors::{ErrorMessage, HttpError, is_unauthorized, message_text};
use crate::models::User;
use crate::store::Store;
use crate::text::{all_digits, dec_value, parse_u64};
use crate::token::{decode_token, token_verification};

verus! {

/// The resolved caller a protected request runs as.
#[derive(Debug)]
pub struct JwtAuthMiddleware {
    pub user: User,
}

/// The token a bearer header carries, if the header is one.
pub open spec fn bearer_token(h: Seq<char>) -> Option<Seq<char>> {
    if h.len() >= 7 && h.take(7) == "Bearer "@ {
        Some(h.skip(7))
    } else {
        None
    }
}

/// The token a request carries: the `token` cookie takes priority, then
/// the bearer header; anything else is no token.
pub open spec fn extracted_token(cookie: Option<&String>, header: Option<&String>) -> Option<
    Seq<char>,
> {
    match cookie {
        Some(c) => Some(c@),
        None => match header {
            Some(h) => bearer_token(h@),
            None => None,
        },
    }
}

/// Pulls the session token out of the cookie or the bearer header.
pub fn extract_token(cookie: Option<&String>, auth_header: Option<&String>) -> (r: Option<String>)
    ensures
        r is Some <==> extracted_token(cookie, auth_header) is Some,
        r matches Some(t) ==> extracted_token(cookie, auth_header) == Some(t@),
{
    match cookie {
        Some(c) => Some(c.clone()),
        None => match auth_header {
            Some(h) => {
                let hs = h.as_str();
                let n = hs.unicode_len();
                proof {
                    reveal_strlit("Bearer ");
                }
                if n < 7 {
                    return None;
                }
                let prefix_ok = hs.get_char(0) == 'B' && hs.get_char(1) == 'e' && hs.get_char(2)
                    == 'a' && hs.get_char(3) == 'r' && hs.get_char(4) == 'e' && hs.get_char(5)
                    == 'r' && hs.get_char(6) == ' ';
                if prefix_ok {
                    proof {
                        assert(h@.take(7) =~= "Bearer "@);
                    }
                    Some(String::from_str(hs.substring_char(7, n)))
                } else {
                    proof {
                        assert(h@.take(7) != "Bearer "@) by {
                            if h@.take(7) == "Bearer "@ {
                                assert(h@.take(7)[0] == 'B' && h@.take(7)[1] == 'e' && h@.take(7)[2]
                                    == 'a' && h@.take(7)[3] == 'r' && h@.take(7)[4] == 'e'
                                    && h@.take(7)[5] == 'r' && h@.take(7)[6] == ' ');
                            }
                        }
                    }
                    None
                }
            },
            None => None,
        },
    }
}

/// The failure identity resolution reports for a request, if any: no
/// token at all, a token that does not verify or whose subject is not an
/// identity id, or a verified subject whose account no longer exists.
pub open spec fn auth_failure(
    s: Store,
    cookie: Option<&String>,
    header: Option<&String>,
    secret: Seq<u8>,
    now: u64,
) -> Option<ErrorMessage> {
    match extracted_token(cookie, header) {
        None => Some(ErrorMessage::TokenNotProvided),
        Some(tok) => match token_verification(tok, secret, now) {
            Err(_) => Some(ErrorMessage::InvalidToken),
            Ok(sub) => if !(sub.len() > 0 && all_digits(sub) && dec_value(sub) <= u64::MAX) {
                Some(ErrorMessage::InvalidToken)
            } else if !s.has_user((dec_value(sub) as u64)) {
                Some(ErrorMessage::UserNoLongerExists)
            } else {
                None
            },
        },
    }
}

impl Store {
    /// Resolves the caller: extracts the token (cookie first, then bearer
    /// header), verifies it, parses its subject as an identity id, and
    /// loads that user. Each missing link yields its own 401.
    pub fn auth_middleware(
        &self,
        cookie_token: Option<&String>,
        auth_header: Option<&String>,
        secret: &[u8],
        now: u64,
    ) -> (r: Result<JwtAuthMiddleware, HttpError>)
        ensures
            r is Err <==> auth_failure(*self, cookie_token, auth_header, secret@, now) is Some,
            r matches Err(e) ==> (match auth_failure(
                *self,
                cookie_token,
                auth_header,
                secret@,
                now,
            ) {
                Some(m) => is_unauthorized(e, m),
                None => false,
            }),
            cookie_token is None && auth_header is None ==> (r matches Err(e) && is_unauthorized(
                e,
                ErrorMessage::TokenNotProvided,
            )),
            r matches Ok(a) ==> exists|i: int|
                0 <= i < self.users@.len() && #[trigger] self.users@[i] == a.user && (
                match extracted_token(cookie_token, auth_header) {
                    Some(tok) => match token_verification(tok, secret@, now) {
                        Ok(sub) => all_digits(sub) && dec_value(sub) <= u64::MAX && a.user.id
                            == dec_value(sub),
                        Err(_) => false,
                    },
                    None => false,
                }),
    {
        let token = match extract_token(cookie_token, auth_header) {
            Some(t) => t,
            None => {
                return Err(
                    HttpError::unauthorized(ErrorMessage::TokenNotProvided.to_str()),
                );
            },
        };
        let subject = match decode_token(&token, secret, now) {
            Ok(s) => s,
            Err(_) => {
                return Err(HttpError::unauthorized(ErrorMessage::InvalidToken.to_str()));
            },
        };
        let user_id = match parse_u64(&subject) {
            Some(id) => id,
            None => {
                return Err(HttpError::unauthorized(ErrorMessage::InvalidToken.to_str()));
            },
        };
        let user = match self.get_user(Some(user_id), None, None) {
            Some(u) => u,
            None => {
                return Err(
                    HttpError::unauthorized(ErrorMessage::UserNoLongerExists.to_str()),
                );
            },
        };
        Ok(JwtAuthMiddleware { user })
    }
}

} // verus!
