use vstd::prelude::*;

verus! {

/// Why the server refused or failed a request.
#[derive(Copy, Clone, Debug, PartialEq, Eq, Structural)]
pub enum ServerError {
    InternalError,
    WrongParameters,
    WrongResolution,
    DbQuerryError,
    DbPoolError,
    RawMarketNotFound,
    SymbolNotFound,
}

/// The HTTP status with which the server answers an error: 400 for a request
/// that the client got wrong, 500 for a failure on the server's side.
pub open spec fn error_status(e: ServerError) -> u16 {
    match e {
        ServerError::InternalError => 500,
        ServerError::WrongParameters => 400,
        ServerError::WrongResolution => 400,
        ServerError::DbQuerryError => 500,
        ServerError::DbPoolError => 500,
        ServerError::RawMarketNotFound => 400,
        ServerError::SymbolNotFound => 400,
    }
}

/// The text of the response body for an error.
pub open spec fn error_text(e: ServerError) -> Seq<char> {
    match e {
        ServerError::InternalError => "An internal error occurred. Please try again later."@,
        ServerError::WrongParameters => "Bad request parameters"@,
        ServerError::WrongResolution => "Wrong resolution"@,
        ServerError::DbQuerryError => "DB error"@,
        ServerError::DbPoolError => "Error getting connection"@,
        ServerError::RawMarketNotFound => "Raw market not found"@,
        ServerError::SymbolNotFound => "Request symbol not found"@,
    }
}

impl ServerError {
    /// The HTTP status code of the error response.
    pub fn status_code(&self) -> (code: u16)
        ensures
            code == error_status(*self),
    {
        match *self {
            ServerError::InternalError => 500,
            ServerError::WrongParameters => 400,
            ServerError::WrongResolution => 400,
            ServerError::DbQuerryError => 500,
            ServerError::DbPoolError => 500,
            ServerError::RawMarketNotFound => 400,
            ServerError::SymbolNotFound => 400,
        }
    }

    /// The text of the error, as the response body shows it.
    pub fn message(&self) -> (s: String)
        ensures
            s@ == error_text(*self),
    {
        match *self {
            ServerError::InternalError => String::from_str(
                "An internal error occurred. Please try again later.",
            ),
            ServerError::WrongParameters => String::from_str("Bad request parameters"),
            ServerError::WrongResolution => String::from_str("Wrong resolution"),
            ServerError::DbQuerryError => String::from_str("DB error"),
            ServerError::DbPoolError => String::from_str("Error getting connection"),
            ServerError::RawMarketNotFound => String::from_str("Raw market not found"),
            ServerError::SymbolNotFound => String::from_str("Request symbol not found"),
        }
    }
}

} // verus!
