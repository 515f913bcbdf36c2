//! Role-specific request authentication.
//!
//! A protected request advances through token extraction (the role's
//! cookie, else a bearer `Authorization` header), token verification,
//! subject parsing, and principal resolution against the role-appropriate
//! table.  The two guards are not interchangeable: a token whose subject
//! lives in the other role's table fails at resolution.  Every rejection,
//! whatever step it fell at, carries one and the same message, so the
//! response never reveals which check failed.

use vstd::prelude::*;

use crate::errors::Error;
use crate::store::{Store, StudentResult, Teacher};
use crate::token::{token_subject, verify_token};

verus! {

/// The view of an optional string argument.
pub open spec fn opt_view(o: Option<&str>) -> Option<Seq<char>> {
    match o {
        Some(s) => Some(s@),
        None => None,
    }
}

/// The token a request carries: the role's cookie wins, else the value of
/// a `Bearer `-prefixed authorization header.
pub open spec fn extracted_token(cookie: Option<Seq<char>>, header: Option<Seq<char>>) -> Option<
    Seq<char>,
> {
    match cookie {
        Some(c) => Some(c),
        None => match header {
            Some(h) => if h.len() >= 7 && h.subrange(0, 7) == "Bearer "@ {
                Some(h.subrange(7, h.len() as int))
            } else {
                None
            },
            None => None,
        },
    }
}

/// The subject a request resolves to at time `now`, before any table
/// lookup: the parsed subject of an accepted token, if one was carried.
pub open spec fn guard_subject(
    secret: Seq<char>,
    cookie: Option<Seq<char>>,
    header: Option<Seq<char>>,
    now: usize,
) -> Option<u128> {
    match extracted_token(cookie, header) {
        Some(t) => token_subject(secret, t, now),
        None => None,
    }
}

fn has_bearer_prefix(h: &str) -> (b: bool)
    ensures
        b == (h@.len() >= 7 && h@.subrange(0, 7) == "Bearer "@),
{
    proof {
        reveal_strlit("Bearer ");
    }
    let n = h.unicode_len();
    if n < 7 {
        return false;
    }
    let b = h.get_char(0) == 'B' && h.get_char(1) == 'e' && h.get_char(2) == 'a' && h.get_char(3)
        == 'r' && h.get_char(4) == 'e' && h.get_char(5) == 'r' && h.get_char(6) == ' ';
    proof {
        if b {
            assert(h@.subrange(0, 7) =~= "Bearer "@);
        } else {
            assert(h@.subrange(0, 7)[0] == h@[0] && h@.subrange(0, 7)[1] == h@[1] && h@.subrange(
                0,
                7,
            )[2] == h@[2] && h@.subrange(0, 7)[3] == h@[3] && h@.subrange(0, 7)[4] == h@[4]
                && h@.subrange(0, 7)[5] == h@[5] && h@.subrange(0, 7)[6] == h@[6]);
        }
    }
    b
}

/// Extract the session token from the role's cookie value, else from a
/// `Bearer `-prefixed authorization header; `None` when neither carries
/// one.
pub fn extract_token(cookie: Option<&str>, header: Option<&str>) -> (r: Option<String>)
    ensures
        match r {
            Some(t) => extracted_token(opt_view(cookie), opt_view(header)) == Some(t@),
            None => extracted_token(opt_view(cookie), opt_view(header)) is None,
        },
{
    match cookie {
        Some(c) => Some(c.to_owned()),
        None => match header {
            Some(h) => if has_bearer_prefix(h) {
                let n = h.unicode_len();
                Some(h.substring_char(7, n).to_owned())
            } else {
                None
            },
            None => None,
        },
    }
}

impl Store {
    /// Authenticate a teacher request: extract the token, verify it,
    /// parse its subject, and resolve the subject in the teacher table.
    /// Only the resolved teacher reaches the wrapped handler.  Every
    /// rejection carries one identical message: a caller cannot tell a
    /// missing token from a malformed, mis-signed or expired one, nor
    /// from a subject that no longer resolves.
    pub fn teacher_auth(&self, secret: &str, cookie: Option<&str>, header: Option<&str>, now: usize) -> (r:
        Result<Teacher, Error>)
        requires
            self@.wf(),
        ensures
            match r {
                Ok(t) => (guard_subject(secret@, opt_view(cookie), opt_view(header), now)
                    matches Some(id) && self@.has_teacher_id(id) && t@ == self@.teacher_with_id(
                    id,
                )),
                Err(e) => {
                    &&& (e matches Error::Authorization(m) && m@ == "Invalid token"@)
                    &&& match guard_subject(secret@, opt_view(cookie), opt_view(header), now) {
                        Some(id) => !self@.has_teacher_id(id),
                        None => true,
                    }
                },
            },
    {
        let token = match extract_token(cookie, header) {
            Some(t) => t,
            None => {
                return Err(Error::Authorization(String::from_str("Invalid token")));
            },
        };
        let claims = match verify_token(secret, token.as_str(), now) {
            Ok(c) => c,
            Err(e) => {
                return Err(e);
            },
        };
        let id = match crate::ids::parse_id(claims.sub.as_str()) {
            Some(id) => id,
            None => {
                return Err(Error::Authorization(String::from_str("Invalid token")));
            },
        };
        match self.find_teacher_by_id(id) {
            Some(i) => {
                proof {
                    self@.lemma_teacher_with_id_is(i as int, id);
                }
                let row = &self.teachers[i];
                Ok(
                    Teacher {
                        id: row.id,
                        username: row.username.clone(),
                        email: row.email.clone(),
                        password: row.password.clone(),
                    },
                )
            },
            None => Err(Error::Authorization(String::from_str("Invalid token"))),
        }
    }

    /// Authenticate a student request: as [`Self::teacher_auth`], but the
    /// subject is resolved in the result table, so a teacher token fails
    /// here at resolution, under the same uniform message.
    pub fn student_auth(&self, secret: &str, cookie: Option<&str>, header: Option<&str>, now: usize) -> (r:
        Result<StudentResult, Error>)
        requires
            self@.wf(),
        ensures
            match r {
                Ok(s) => (guard_subject(secret@, opt_view(cookie), opt_view(header), now)
                    matches Some(id) && self@.has_result_id(id) && s@ == self@.result_with_id(id)),
                Err(e) => {
                    &&& (e matches Error::Authorization(m) && m@ == "Invalid token"@)
                    &&& match guard_subject(secret@, opt_view(cookie), opt_view(header), now) {
                        Some(id) => !self@.has_result_id(id),
                        None => true,
                    }
                },
            },
    {
        let token = match extract_token(cookie, header) {
            Some(t) => t,
            None => {
                return Err(Error::Authorization(String::from_str("Invalid token")));
            },
        };
        let claims = match verify_token(secret, token.as_str(), now) {
            Ok(c) => c,
            Err(e) => {
                return Err(e);
            },
        };
        let id = match crate::ids::parse_id(claims.sub.as_str()) {
            Some(id) => id,
            None => {
                return Err(Error::Authorization(String::from_str("Invalid token")));
            },
        };
        match self.find_result_by_id(id) {
            Some(i) => {
                proof {
                    self@.lemma_result_with_id_is(i as int, id);
                }
                let row = &self.results[i];
                Ok(
                    StudentResult {
                        id: row.id,
                        test_id: row.test_id,
                        name: row.name.clone(),
                        level: row.level,
                        flagged: row.flagged,
                    },
                )
            },
            None => Err(Error::Authorization(String::from_str("Invalid token"))),
        }
    }

}

} // verus!
