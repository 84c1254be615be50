use vstd::prelude::*;

verus! {

#[verifier::external_type_specification]
#[verifier::external_body]
pub struct ExParseError(url::ParseError);

#[verifier::external_type_specification]
#[verifier::external_body]
pub struct ExRequestError(reqwest::Error);

/// What can go wrong when talking to the index server.
#[derive(Debug)]
pub enum KuponError {
    /// The match options ask for something the server cannot answer.
    InvalidQuery(String),
    /// The configured endpoint is not a URL.
    InvalidUrl(url::ParseError),
    /// The server answered with a failure and this hint.
    KupoError(String),
    /// The request could not be made, or its answer could not be read.
    RequestFailed(reqwest::Error),
}

/// The message that describes an error.
pub open spec fn error_message(e: KuponError) -> Seq<char> {
    match e {
        KuponError::InvalidQuery(s) => "invalid query: "@ + s@,
        KuponError::InvalidUrl(_) => "invalid url"@,
        KuponError::KupoError(s) => "error from kupo: "@ + s@,
        KuponError::RequestFailed(_) => "request failed"@,
    }
}

impl KuponError {
    /// The message that describes this error; it is never empty.
    pub fn message(&self) -> (r: String)
        ensures
            r@ == error_message(*self),
            r@.len() > 0,
    {
        proof {
            reveal_strlit("invalid query: ");
            reveal_strlit("invalid url");
            reveal_strlit("error from kupo: ");
            reveal_strlit("request failed");
        }
        match self {
            KuponError::InvalidQuery(s) => {
                let mut r = String::from_str("invalid query: ");
                r.append(s.as_str());
                r
            },
            KuponError::InvalidUrl(_) => String::from_str("invalid url"),
            KuponError::KupoError(s) => {
                let mut r = String::from_str("error from kupo: ");
                r.append(s.as_str());
                r
            },
            KuponError::RequestFailed(_) => String::from_str("request failed"),
        }
    }
}

} // verus!
