use vstd::prelude::*;
use vstd::string::StringExecFns;

verus! {

/// The errors of the library; each carries the text that describes it.
#[derive(Debug)]
pub enum Error {
    AuthError(String),
    InvalidJSONFormat(String),
    NetworkError(String),
    StoreError,
    InvalidFormat(String),
    CredentialsError(String),
    InvalidRequestError(String),
}

/// An [`Error`] with its texts taken as sequences of characters.
pub enum ErrorModel {
    AuthError(Seq<char>),
    InvalidJSONFormat(Seq<char>),
    NetworkError(Seq<char>),
    StoreError,
    InvalidFormat(Seq<char>),
    CredentialsError(Seq<char>),
    InvalidRequestError(Seq<char>),
}

impl View for Error {
    type V = ErrorModel;

    open spec fn view(&self) -> ErrorModel {
        match self {
            Error::AuthError(s) => ErrorModel::AuthError(s@),
            Error::InvalidJSONFormat(s) => ErrorModel::InvalidJSONFormat(s@),
            Error::NetworkError(s) => ErrorModel::NetworkError(s@),
            Error::StoreError => ErrorModel::StoreError,
            Error::InvalidFormat(s) => ErrorModel::InvalidFormat(s@),
            Error::CredentialsError(s) => ErrorModel::CredentialsError(s@),
            Error::InvalidRequestError(s) => ErrorModel::InvalidRequestError(s@),
        }
    }
}

/// A result that carries a text, taken as sequences of characters.
pub open spec fn text_result(r: Result<String, Error>) -> Result<Seq<char>, ErrorModel> {
    match r {
        Ok(s) => Ok(s@),
        Err(e) => Err(e@),
    }
}

/// A result without a value, with its error taken as a model.
pub open spec fn unit_result(r: Result<(), Error>) -> Result<(), ErrorModel> {
    match r {
        Ok(()) => Ok(()),
        Err(e) => Err(e@),
    }
}

/// The human-readable description of an error.
pub open spec fn spec_message(e: ErrorModel) -> Seq<char> {
    match e {
        ErrorModel::AuthError(s) => "invalid login: "@ + s,
        ErrorModel::InvalidJSONFormat(s) => s,
        ErrorModel::NetworkError(s) => s,
        ErrorModel::StoreError => "encountered a store error"@,
        ErrorModel::InvalidFormat(s) => "invalid format received: "@ + s,
        ErrorModel::CredentialsError(s) => "error fetching credentials: "@ + s,
        ErrorModel::InvalidRequestError(s) => "invalid request error: "@ + s,
    }
}

/// The tag under which an error is reported to the user interface.
pub open spec fn spec_kind(e: ErrorModel) -> Seq<char> {
    match e {
        ErrorModel::AuthError(_) => "authError"@,
        ErrorModel::InvalidJSONFormat(_) => "invalidJSONFormat"@,
        ErrorModel::NetworkError(_) => "networkError"@,
        ErrorModel::StoreError => "storeError"@,
        ErrorModel::InvalidFormat(_) => "invalidFormat"@,
        ErrorModel::CredentialsError(_) => "credentialsError"@,
        ErrorModel::InvalidRequestError(_) => "invalidRequestError"@,
    }
}

impl Error {
    /// The human-readable description of the error.
    pub fn message(&self) -> (m: String)
        ensures
            m@ == spec_message(self@),
    {
        match self {
            Error::AuthError(s) => String::from_str("invalid login: ").concat(s.as_str()),
            Error::InvalidJSONFormat(s) => s.clone(),
            Error::NetworkError(s) => s.clone(),
            Error::StoreError => String::from_str("encountered a store error"),
            Error::InvalidFormat(s) => String::from_str("invalid format received: ").concat(
                s.as_str(),
            ),
            Error::CredentialsError(s) => String::from_str("error fetching credentials: ").concat(
                s.as_str(),
            ),
            Error::InvalidRequestError(s) => String::from_str("invalid request error: ").concat(
                s.as_str(),
            ),
        }
    }

    /// The tag under which the error is reported to the user interface.
    pub fn kind(&self) -> (k: String)
        ensures
            k@ == spec_kind(self@),
    {
        match self {
            Error::AuthError(_) => String::from_str("authError"),
            Error::InvalidJSONFormat(_) => String::from_str("invalidJSONFormat"),
            Error::NetworkError(_) => String::from_str("networkError"),
            Error::StoreError => String::from_str("storeError"),
            Error::InvalidFormat(_) => String::from_str("invalidFormat"),
            Error::CredentialsError(_) => String::from_str("credentialsError"),
            Error::InvalidRequestError(_) => String::from_str("invalidRequestError"),
        }
    }
}

} // verus!
