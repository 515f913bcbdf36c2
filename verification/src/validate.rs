//! Request bodies and their field-level validation.
//!
//! Lengths count characters, not bytes.  Each failing field contributes one
//! message, in field declaration order; email format checking is delegated
//! to the validator crate.

use vstd::prelude::*;

use crate::errors::Error;

verus! {

/// Whether the validator crate accepts the string as an email address
/// (local part, `@`, domain with length and syntax limits).  Deterministic
/// in the string; false for the empty string.
pub uninterp spec fn is_email(s: Seq<char>) -> bool;

/// Relies on `validator::validate_email`: a pure syntactic check on the
/// address string.
#[verifier::external_body]
fn check_email(s: &str) -> (r: bool)
    ensures
        r == is_email(s@),
{
    validator::validate_email(s)
}

pub open spec fn valid_email(email: Seq<char>) -> bool {
    email.len() >= 1 && is_email(email)
}

pub open spec fn valid_username(username: Seq<char>) -> bool {
    username.len() >= 3
}

pub open spec fn valid_password(password: Seq<char>) -> bool {
    8 <= password.len() <= 40
}

/// Test names and student names share the same bounds.
pub open spec fn valid_name(name: Seq<char>) -> bool {
    3 <= name.len() <= 40
}

pub open spec fn valid_level(level: i32) -> bool {
    1 <= level <= 8
}

/// The message reported for a bad email: absence and bad format are told
/// apart here, before any credential is involved.
pub open spec fn email_message(email: Seq<char>) -> Seq<char> {
    if email.len() == 0 {
        "An email is required"@
    } else {
        "The email you entered is invalid"@
    }
}

/// Body of a teacher registration request.
#[derive(Debug)]
pub struct RegisterTeacher {
    pub email: String,
    pub username: String,
    pub password: String,
}

/// Body of a teacher login request.
#[derive(Debug)]
pub struct LoginTeacher {
    pub email: String,
    pub password: String,
}

/// Body of a test creation request.
#[derive(Debug)]
pub struct CreateTest {
    pub name: String,
}

/// Body of a student registration request.
#[derive(Debug)]
pub struct RegisterStudent {
    pub name: String,
}

/// Body of a terminal score write.
#[derive(Debug)]
pub struct SetLevel {
    pub level: i32,
}

pub open spec fn register_teacher_messages(
    email: Seq<char>,
    username: Seq<char>,
    password: Seq<char>,
) -> Seq<Seq<char>> {
    (if !valid_email(email) {
        seq![email_message(email)]
    } else {
        Seq::empty()
    }) + (if !valid_username(username) {
        seq!["Your username must be atleast 3 characters long"@]
    } else {
        Seq::empty()
    }) + (if !valid_password(password) {
        seq!["Your password must be between 8 and 40 characters long"@]
    } else {
        Seq::empty()
    })
}

pub open spec fn login_teacher_messages(email: Seq<char>, password: Seq<char>) -> Seq<Seq<char>> {
    (if !valid_email(email) {
        seq![email_message(email)]
    } else {
        Seq::empty()
    }) + (if !valid_password(password) {
        seq!["Your password must be between 8 and 40 characters long"@]
    } else {
        Seq::empty()
    })
}

impl RegisterTeacher {
    pub open spec fn spec_valid(&self) -> bool {
        valid_email(self.email@) && valid_username(self.username@) && valid_password(
            self.password@,
        )
    }

    /// Check every field, collecting one message per failing field.
    pub fn validate(&self) -> (r: Result<(), Error>)
        ensures
            r is Ok <==> self.spec_valid(),
            r matches Err(e) ==> e matches Error::InvalidEntity(v) && v@.map_values(|s: String| s@)
                == register_teacher_messages(self.email@, self.username@, self.password@),
    {
        let mut msgs: Vec<String> = Vec::new();
        if self.email.as_str().unicode_len() == 0 {
            msgs.push(String::from_str("An email is required"));
        } else if !check_email(self.email.as_str()) {
            msgs.push(String::from_str("The email you entered is invalid"));
        }
        if self.username.as_str().unicode_len() < 3 {
            msgs.push(String::from_str("Your username must be atleast 3 characters long"));
        }
        let plen = self.password.as_str().unicode_len();
        if plen < 8 || plen > 40 {
            msgs.push(String::from_str("Your password must be between 8 and 40 characters long"));
        }
        proof {
            assert(msgs@.map_values(|s: String| s@) =~~= register_teacher_messages(
                self.email@,
                self.username@,
                self.password@,
            ));
        }
        if msgs.len() == 0 {
            Ok(())
        } else {
            Err(Error::InvalidEntity(msgs))
        }
    }
}

impl LoginTeacher {
    pub open spec fn spec_valid(&self) -> bool {
        valid_email(self.email@) && valid_password(self.password@)
    }

    /// Check every field, collecting one message per failing field.
    pub fn validate(&self) -> (r: Result<(), Error>)
        ensures
            r is Ok <==> self.spec_valid(),
            r matches Err(e) ==> e matches Error::InvalidEntity(v) && v@.map_values(|s: String| s@)
                == login_teacher_messages(self.email@, self.password@),
    {
        let mut msgs: Vec<String> = Vec::new();
        if self.email.as_str().unicode_len() == 0 {
            msgs.push(String::from_str("An email is required"));
        } else if !check_email(self.email.as_str()) {
            msgs.push(String::from_str("The email you entered is invalid"));
        }
        let plen = self.password.as_str().unicode_len();
        if plen < 8 || plen > 40 {
            msgs.push(String::from_str("Your password must be between 8 and 40 characters long"));
        }
        proof {
            assert(msgs@.map_values(|s: String| s@) =~~= login_teacher_messages(
                self.email@,
                self.password@,
            ));
        }
        if msgs.len() == 0 {
            Ok(())
        } else {
            Err(Error::InvalidEntity(msgs))
        }
    }
}

impl CreateTest {
    /// The test's name must be between 3 and 40 characters long.
    pub fn validate(&self) -> (r: Result<(), Error>)
        ensures
            r is Ok <==> valid_name(self.name@),
            r matches Err(e) ==> e matches Error::InvalidEntity(v) && v@.map_values(|s: String| s@)
                =~~= seq!["The test's name must be between 3 and 40 characters long"@],
    {
        let len = self.name.as_str().unicode_len();
        if 3 <= len && len <= 40 {
            Ok(())
        } else {
            let mut msgs: Vec<String> = Vec::new();
            msgs.push(String::from_str("The test's name must be between 3 and 40 characters long"));
            Err(Error::InvalidEntity(msgs))
        }
    }
}

impl RegisterStudent {
    /// The student's name must be between 3 and 40 characters long.
    pub fn validate(&self) -> (r: Result<(), Error>)
        ensures
            r is Ok <==> valid_name(self.name@),
            r matches Err(e) ==> e matches Error::InvalidEntity(v) && v@.map_values(|s: String| s@)
                =~~= seq!["Your name must be between 3 and 40 characters long"@],
    {
        let len = self.name.as_str().unicode_len();
        if 3 <= len && len <= 40 {
            Ok(())
        } else {
            let mut msgs: Vec<String> = Vec::new();
            msgs.push(String::from_str("Your name must be between 3 and 40 characters long"));
            Err(Error::InvalidEntity(msgs))
        }
    }
}

impl SetLevel {
    /// Levels run 1 through 8.
    pub fn validate(&self) -> (r: Result<(), Error>)
        ensures
            r is Ok <==> valid_level(self.level),
            r matches Err(e) ==> e matches Error::InvalidEntity(v) && v@.map_values(|s: String| s@)
                =~~= seq!["Invalid level range"@],
    {
        if 1 <= self.level && self.level <= 8 {
            Ok(())
        } else {
            let mut msgs: Vec<String> = Vec::new();
            msgs.push(String::from_str("Invalid level range"));
            Err(Error::InvalidEntity(msgs))
        }
    }
}

} // verus!
