use vstd::prelude::*;
use crate::auth::AuthError;
use crate::files::{read, FileCache, missing_file_text};

verus! {

/// Every failure a request can end in.
#[derive(Debug)]
pub enum Error {
    Database(String),
    DatabaseTimedOut,
    Template(String),
    CanceledBlock,
    NotFound,
    Unauthorized,
    Internal,
    DbNothingReturned,
    RedirectToLogin,
    SteamAuth(AuthError),
}

/// The error a database driver reports.
#[derive(Debug)]
pub enum DbError {
    /// The query produced no row where one was asked for.
    NotFound,
    /// Any other failure, by its message.
    Other(String),
}

/// The HTTP answer to a failed request.
#[derive(Debug)]
pub struct ErrorResponse {
    pub status: u16,
    /// The `Location` header, for a redirect.
    pub location: Option<String>,
    /// Whether the body is an HTML page.
    pub html: bool,
    pub body: String,
}

/// The description of a database failure.
pub open spec fn db_error_message(e: DbError) -> Seq<char> {
    match e {
        DbError::NotFound => "no rows returned"@,
        DbError::Other(m) => m@,
    }
}

/// The path of the page served for a missing resource.
pub open spec fn not_found_page_path() -> Seq<char> {
    "static/404.html"@
}

pub open spec fn login_path() -> Seq<char> {
    "/auth/login"@
}

pub open spec fn internal_error_body() -> Seq<char> {
    "Unknown internal server error"@
}

pub open spec fn sign_in_failed_body() -> Seq<char> {
    "Failed to authenticate with Steam"@
}

impl Error {
    /// The human-readable description of the error.
    pub open spec fn spec_message(&self) -> Seq<char> {
        match self {
            Error::Database(m) => "database error: "@ + m@,
            Error::DatabaseTimedOut => "database timed out"@,
            Error::Template(m) => "template error: "@ + m@,
            Error::CanceledBlock => "canceled block"@,
            Error::NotFound => "404 not found"@,
            Error::Unauthorized => "unauthorized"@,
            Error::Internal => "unknown internal error"@,
            Error::DbNothingReturned => "nothing returned from database"@,
            Error::RedirectToLogin => "unauthorized - redirecting to login"@,
            Error::SteamAuth(_) => "failed to authenticate with steam"@,
        }
    }

    /// The HTTP status that answers the error.
    pub open spec fn spec_status(&self) -> u16 {
        match self {
            Error::NotFound => 404,
            Error::RedirectToLogin => 302,
            Error::SteamAuth(_) => 401,
            _ => 500,
        }
    }

    /// Whether a development build shows the error's description as the body.
    pub open spec fn shows_message(&self) -> bool {
        match self {
            Error::Database(_) | Error::Template(_) | Error::CanceledBlock | Error::Unauthorized => true,
            _ => false,
        }
    }

    pub fn message(&self) -> (r: String)
        ensures
            r@ == self.spec_message(),
    {
        match self {
            Error::Database(m) => String::from_str("database error: ").concat(m.as_str()),
            Error::DatabaseTimedOut => String::from_str("database timed out"),
            Error::Template(m) => String::from_str("template error: ").concat(m.as_str()),
            Error::CanceledBlock => String::from_str("canceled block"),
            Error::NotFound => String::from_str("404 not found"),
            Error::Unauthorized => String::from_str("unauthorized"),
            Error::Internal => String::from_str("unknown internal error"),
            Error::DbNothingReturned => String::from_str("nothing returned from database"),
            Error::RedirectToLogin => String::from_str("unauthorized - redirecting to login"),
            Error::SteamAuth(_) => String::from_str("failed to authenticate with steam"),
        }
    }

    /// The answer to the error. A missing resource gets the cached 404 page,
    /// a request that needs a session is sent to sign in, a refused sign-in
    /// gets a fixed 401 text, and everything else a 500 whose body is the
    /// error's description in a development build and a fixed text otherwise.
    pub fn error_response(&self, files: &FileCache, development: bool) -> (r: ErrorResponse)
        ensures
            r.status == self.spec_status(),
            r.html == (self is NotFound),
            (self is RedirectToLogin) ==> r.location is Some && r.location->0@ == login_path(),
            !(self is RedirectToLogin) ==> r.location is None,
            r.body@ == (match self {
                Error::NotFound => if files@.contains_key(not_found_page_path()) {
                    files@[not_found_page_path()]
                } else {
                    missing_file_text()
                },
                Error::RedirectToLogin => Seq::empty(),
                Error::SteamAuth(_) => sign_in_failed_body(),
                _ => if development && self.shows_message() {
                    self.spec_message()
                } else {
                    internal_error_body()
                },
            }),
    {
        match self {
            Error::NotFound => ErrorResponse {
                status: 404,
                location: None,
                html: true,
                body: read(files, "static/404.html"),
            },
            Error::RedirectToLogin => ErrorResponse {
                status: 302,
                location: Some(String::from_str("/auth/login")),
                html: false,
                body: String::new(),
            },
            Error::SteamAuth(_) => ErrorResponse {
                status: 401,
                location: None,
                html: false,
                body: String::from_str("Failed to authenticate with Steam"),
            },
            _ => {
                let body = if development && (match self {
                    Error::Database(_)
                    | Error::Template(_)
                    | Error::CanceledBlock
                    | Error::Unauthorized => true,
                    _ => false,
                }) {
                    self.message()
                } else {
                    String::from_str("Unknown internal server error")
                };
                ErrorResponse { status: 500, location: None, html: false, body }
            },
        }
    }

    /// The error for a failed single-row lookup: a missing row is a missing
    /// resource, anything else a database failure.
    pub fn db_or_404(e: DbError) -> (r: Error)
        ensures
            match e {
                DbError::NotFound => r is NotFound,
                DbError::Other(m) => r matches Error::Database(n) && n@ == m@,
            },
    {
        match e {
            DbError::NotFound => Error::NotFound,
            DbError::Other(m) => Error::Database(m),
        }
    }

    /// The error for a failed database call.
    pub fn from_db(e: DbError) -> (r: Error)
        ensures
            r matches Error::Database(m) && m@ == db_error_message(e),
    {
        match e {
            DbError::NotFound => Error::Database(String::from_str("no rows returned")),
            DbError::Other(m) => Error::Database(m),
        }
    }
}

} // verus!
