//! The single error of the API. A handler answers with a localisation KEY;
//! the text for the user is put in, in the user's language, when the
//! response is written.
use vstd::prelude::*;

verus! {

/// HTTP status codes the API answers with.
pub const STATUS_UNPROCESSABLE: u16 = 422;
pub const STATUS_UNAUTHORIZED: u16 = 401;
pub const STATUS_FORBIDDEN: u16 = 403;
pub const STATUS_NOT_FOUND: u16 = 404;
pub const STATUS_CONFLICT: u16 = 409;
pub const STATUS_TOO_LARGE: u16 = 413;
pub const STATUS_TOO_MANY: u16 = 429;
pub const STATUS_INTERNAL: u16 = 500;

#[derive(Debug)]
pub struct ApiError {
    /// HTTP status code of the answer
    pub status: u16,
    /// key in the localisation files; also the machine-readable code
    pub key: &'static str,
    /// values put into the text, such as `min` for a password length
    pub args: Vec<(&'static str, String)>,
    /// the form field the error is about, if it is about one
    pub field: Option<&'static str>,
}

impl ApiError {
    /// An error with the given status and key, no arguments and no field.
    pub open spec fn plain(self, status: u16, key: Seq<char>) -> bool {
        &&& self.status == status
        &&& self.key@ == key
        &&& self.args@.len() == 0
        &&& self.field is None
    }

    pub fn new(status: u16, key: &'static str) -> (r: Self)
        ensures
            r.plain(status, key@),
    {
        ApiError { status, key, args: Vec::new(), field: None }
    }

    pub fn validation(key: &'static str) -> (r: Self)
        ensures
            r.plain(STATUS_UNPROCESSABLE, key@),
    {
        Self::new(STATUS_UNPROCESSABLE, key)
    }

    pub fn unauthorized(key: &'static str) -> (r: Self)
        ensures
            r.plain(STATUS_UNAUTHORIZED, key@),
    {
        Self::new(STATUS_UNAUTHORIZED, key)
    }

    pub fn forbidden() -> (r: Self)
        ensures
            r.plain(STATUS_FORBIDDEN, "error-forbidden"@),
    {
        Self::new(STATUS_FORBIDDEN, "error-forbidden")
    }

    pub fn not_found() -> (r: Self)
        ensures
            r.plain(STATUS_NOT_FOUND, "error-not-found"@),
    {
        Self::new(STATUS_NOT_FOUND, "error-not-found")
    }

    pub fn conflict(key: &'static str) -> (r: Self)
        ensures
            r.plain(STATUS_CONFLICT, key@),
    {
        Self::new(STATUS_CONFLICT, key)
    }

    /// The file is larger than allowed; a status of its own, so that a client
    /// tells "too large" from "wrong format" without reading the text.
    pub fn too_large(key: &'static str) -> (r: Self)
        ensures
            r.plain(STATUS_TOO_LARGE, key@),
    {
        Self::new(STATUS_TOO_LARGE, key)
    }

    pub fn too_many_requests() -> (r: Self)
        ensures
            r.plain(STATUS_TOO_MANY, "error-too-many-requests"@),
    {
        Self::new(STATUS_TOO_MANY, "error-too-many-requests")
    }

    /// Any unforeseen failure (database and the like): 500, no details out.
    pub fn internal() -> (r: Self)
        ensures
            r.plain(STATUS_INTERNAL, "error-internal"@),
    {
        Self::new(STATUS_INTERNAL, "error-internal")
    }

    /// Put a value into the error's text.
    pub fn arg(self, name: &'static str, value: String) -> (r: Self)
        ensures
            r.status == self.status,
            r.key == self.key,
            r.field == self.field,
            r.args@ == self.args@.push((name, value)),
    {
        let mut s = self;
        s.args.push((name, value));
        s
    }

    /// Tie the error to a form field.
    pub fn field(self, name: &'static str) -> (r: Self)
        ensures
            r.status == self.status,
            r.key == self.key,
            r.args@ == self.args@,
            r.field == Some(name),
    {
        let mut s = self;
        s.field = Some(name);
        s
    }

    /// The body of the answer, given the text that the key translates to in
    /// the request's language.
    pub fn body(&self, message: String) -> (r: ErrorBody)
        ensures
            r.error.code@ == self.key@,
            r.error.message@ == message@,
            self.field is None ==> r.error.fields is None,
            self.field matches Some(f) ==> (r.error.fields matches Some(v) && v@.len() == 1
                && v@[0].field@ == f@ && v@[0].code@ == self.key@ && v@[0].message@ == message@),
    {
        let fields = match self.field {
            Some(f) => {
                let mut v: Vec<FieldError> = Vec::new();
                v.push(
                    FieldError {
                        field: f.to_owned(),
                        code: self.key.to_owned(),
                        message: message.clone(),
                    },
                );
                Some(v)
            },
            None => None,
        };
        ErrorBody { error: ErrorDetail { code: self.key.to_owned(), message, fields } }
    }
}

/// The body of an error answer: the one format of the whole API.
pub struct ErrorBody {
    pub error: ErrorDetail,
}

pub struct ErrorDetail {
    /// machine-readable code (the localisation key)
    pub code: String,
    /// text in the language of the request
    pub message: String,
    /// present only for errors about form fields
    pub fields: Option<Vec<FieldError>>,
}

pub struct FieldError {
    /// name of the field in the request body, for example "password"
    pub field: String,
    pub code: String,
    pub message: String,
}

} // verus!
