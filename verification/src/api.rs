use vstd::prelude::*;
use vstd::string::*;
use crate::text::{debug_quote, debug_text, join_with, push_char};

verus! {

/// Whether the validator crate accepts a text as an email address
/// (HTML5 form rules, with IDN domains and IP literals).
pub uninterp spec fn email_accepted(s: Seq<char>) -> bool;

/// Checks an email address with the validator crate
/// (`ValidateEmail::validate_email`). Claimed: the result is the named
/// `email_accepted` of the text, and a text without `@` is refused, as the
/// crate's source shows.
#[verifier::external_body]
pub(crate) fn check_email(s: &str) -> (r: bool)
    ensures
        r == email_accepted(s@),
        !s@.contains('@') ==> !r,
{
    validator::ValidateEmail::validate_email(&s)
}

/// Whether a text has between `min` and `max` characters (Unicode scalar
/// values), inclusive: the length rule of the validator crate for strings.
pub open spec fn length_within(s: Seq<char>, min: int, max: int) -> bool {
    min <= s.len() <= max
}

/// Checks the length rule on a text.
pub fn check_length(s: &str, min: usize, max: usize) -> (r: bool)
    ensures
        r == length_within(s@, min as int, max as int),
{
    let n = s.unicode_len();
    min <= n && n <= max
}

/// A field of a request that failed its rule.
#[derive(Debug, Clone, Copy, PartialEq, Eq, Structural)]
pub enum Field {
    /// The email is not an address (rule `email`).
    Email,
    /// The password is not 8 to 224 characters long (rule `length`).
    Password,
    /// The username is not 3 to 128 characters long (rule `length`).
    Username,
}

/// A field of a request that failed its rule, with the text it held.
#[derive(Debug, Clone)]
pub struct FieldError {
    pub field: Field,
    pub value: String,
}

/// The fields of a request that failed their rules, in declaration order.
#[derive(Debug, Clone)]
pub struct ValidationErrors {
    pub errors: Vec<FieldError>,
}

/// Each failed field with the text it held.
pub open spec fn error_views(errs: Seq<FieldError>) -> Seq<(Field, Seq<char>)> {
    errs.map_values(|e: FieldError| (e.field, e.value@))
}

/// The line that reports a failed field, as the validator crate's `Display`
/// writes it for the error that its `email` and `length` rules build: the
/// field, the rule's code, and the rule's parameters (`min` and `max` where
/// the rule has them, then the `value`), each shown by its `Debug`. The crate
/// keeps the parameters in a hash map, whose order varies from process to
/// process; this is the order `min`, `max`, `value`, one of its outputs.
pub open spec fn failure_line(f: Field, value: Seq<char>) -> Seq<char> {
    match f {
        Field::Email => "email: Validation error: email [{\"value\": String("@ + debug_text(value)
            + ")}]"@,
        Field::Password => "password: Validation error: length [{\"min\": Number(8), \"max\": Number(224), \"value\": String("@
            + debug_text(value) + ")}]"@,
        Field::Username => "username: Validation error: length [{\"min\": Number(3), \"max\": Number(128), \"value\": String("@
            + debug_text(value) + ")}]"@,
    }
}

/// The report of a list of failed fields: one line for each.
pub open spec fn failures_text(errs: Seq<(Field, Seq<char>)>) -> Seq<char> {
    join_with(errs.map_values(|e: (Field, Seq<char>)| failure_line(e.0, e.1)), '\n')
}

impl FieldError {
    /// The line that reports this field.
    pub fn line(&self) -> (r: String)
        ensures
            r@ == failure_line(self.field, self.value@),
    {
        let mut out = match self.field {
            Field::Email => String::from_str("email: Validation error: email [{\"value\": String("),
            Field::Password => String::from_str(
                "password: Validation error: length [{\"min\": Number(8), \"max\": Number(224), \"value\": String(",
            ),
            Field::Username => String::from_str(
                "username: Validation error: length [{\"min\": Number(3), \"max\": Number(128), \"value\": String(",
            ),
        };
        let shown = debug_quote(self.value.as_str());
        out.append(shown.as_str());
        out.append(")}]");
        out
    }
}

impl ValidationErrors {
    /// The report of the failed fields, one line for each, in order.
    pub fn describe(&self) -> (r: String)
        ensures
            r@ == failures_text(error_views(self.errors@)),
    {
        let mut out = String::new();
        let mut i: usize = 0;
        let ghost lines = error_views(self.errors@).map_values(
            |e: (Field, Seq<char>)| failure_line(e.0, e.1),
        );
        while i < self.errors.len()
            invariant
                i <= self.errors@.len(),
                lines == error_views(self.errors@).map_values(
                    |e: (Field, Seq<char>)| failure_line(e.0, e.1),
                ),
                out@ == join_with(lines.take(i as int), '\n'),
            decreases self.errors.len() - i,
        {
            let line = self.errors[i].line();
            proof {
                assert(lines.take(i + 1).drop_last() =~= lines.take(i as int));
                assert(lines.take(i + 1).last() == line@);
            }
            if i > 0 {
                push_char(&mut out, '\n');
            }
            out.append(line.as_str());
            i = i + 1;
        }
        assert(lines.take(self.errors@.len() as int) =~= lines);
        out
    }
}

/// The password rule: 8 to 224 characters.
pub open spec fn password_ok(p: Seq<char>) -> bool {
    length_within(p, 8, 224)
}

/// The username rule: 3 to 128 characters.
pub open spec fn username_ok(u: Seq<char>) -> bool {
    length_within(u, 3, 128)
}

/// `f` with its text if the rule was broken, nothing otherwise.
pub open spec fn failed_if(broken: bool, f: Field, value: Seq<char>) -> Seq<(Field, Seq<char>)> {
    if broken {
        seq![(f, value)]
    } else {
        seq![]
    }
}

/// Login DTO
#[derive(Debug, Clone)]
pub struct LoginRequest {
    pub email: String,
    pub password: String,
}

/// The fields of a login request that break their rules.
pub open spec fn login_failures(email: Seq<char>, password: Seq<char>) -> Seq<(Field, Seq<char>)> {
    failed_if(!email_accepted(email), Field::Email, email) + failed_if(
        !password_ok(password),
        Field::Password,
        password,
    )
}

impl LoginRequest {
    /// Checks the request: the email must be an address, the password 8 to
    /// 224 characters. Fails with the list of the fields that break a rule.
    pub fn validate(&self) -> (r: Result<(), ValidationErrors>)
        ensures
            r is Ok <==> login_failures(self.email@, self.password@).len() == 0,
            r matches Err(e) ==> error_views(e.errors@) == login_failures(self.email@, self.password@),
    {
        let mut errors: Vec<FieldError> = Vec::new();
        if !check_email(self.email.as_str()) {
            errors.push(FieldError { field: Field::Email, value: self.email.clone() });
        }
        if !check_length(self.password.as_str(), 8, 224) {
            errors.push(FieldError { field: Field::Password, value: self.password.clone() });
        }
        assert(error_views(errors@) =~= login_failures(self.email@, self.password@));
        if errors.len() == 0 {
            Ok(())
        } else {
            Err(ValidationErrors { errors })
        }
    }
}

/// User register DTO
#[derive(Debug, Clone)]
pub struct RegisterRequest {
    pub email: String,
    pub password: String,
    pub username: String,
}

/// The fields of a register request that break their rules.
pub open spec fn register_failures(
    email: Seq<char>,
    password: Seq<char>,
    username: Seq<char>,
) -> Seq<(Field, Seq<char>)> {
    failed_if(!email_accepted(email), Field::Email, email) + failed_if(
        !password_ok(password),
        Field::Password,
        password,
    ) + failed_if(!username_ok(username), Field::Username, username)
}

impl RegisterRequest {
    /// Checks the request: the email must be an address, the password 8 to
    /// 224 characters, the username 3 to 128. Fails with the list of the
    /// fields that break a rule.
    pub fn validate(&self) -> (r: Result<(), ValidationErrors>)
        ensures
            r is Ok <==> register_failures(self.email@, self.password@, self.username@).len() == 0,
            r matches Err(e) ==> error_views(e.errors@) == register_failures(
                self.email@,
                self.password@,
                self.username@,
            ),
    {
        let mut errors: Vec<FieldError> = Vec::new();
        if !check_email(self.email.as_str()) {
            errors.push(FieldError { field: Field::Email, value: self.email.clone() });
        }
        if !check_length(self.password.as_str(), 8, 224) {
            errors.push(FieldError { field: Field::Password, value: self.password.clone() });
        }
        if !check_length(self.username.as_str(), 3, 128) {
            errors.push(FieldError { field: Field::Username, value: self.username.clone() });
        }
        assert(error_views(errors@) =~= register_failures(self.email@, self.password@, self.username@));
        if errors.len() == 0 {
            Ok(())
        } else {
            Err(ValidationErrors { errors })
        }
    }
}

/// Upload 'pick' DTO
#[derive(Debug, Clone)]
pub struct UploadRequest {
    pub title: Option<String>,
    pub description: Option<String>,
    pub source: Option<String>,
    pub private: bool,
    pub ai_generated: bool,
    pub nsfw: bool,
}

/// Upload 'card' DTO
#[derive(Debug, Clone)]
pub struct CreateCardRequest {
    pub title: Option<String>,
    pub description: Option<String>,
    pub source: Option<String>,
    pub private: bool,
    pub ai_generated: bool,
    pub nsfw: bool,
}

/// The body of an error answer.
#[derive(Debug, Clone)]
pub struct ErrorResponse {
    code: u16,
    message: String,
}

impl ErrorResponse {
    pub fn new(code: u16, message: String) -> (r: ErrorResponse)
        ensures
            r.code_view() == code,
            r.message_view() == message@,
    {
        ErrorResponse { code, message }
    }

    /// The status code carried.
    pub closed spec fn code_view(&self) -> u16 {
        self.code
    }

    /// The message carried.
    pub closed spec fn message_view(&self) -> Seq<char> {
        self.message@
    }

    pub fn code(&self) -> (r: u16)
        ensures
            r == self.code_view(),
    {
        self.code
    }

    pub fn message(&self) -> (r: &str)
        ensures
            r@ == self.message_view(),
    {
        self.message.as_str()
    }
}

} // verus!
