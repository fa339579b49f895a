use vstd::prelude::*;

verus! {

/// A required piece of configuration that the caller did not give.
pub enum UserInputError {
    MissingArgument { arg: String },
}

impl UserInputError {
    /// The human-readable message of this error.
    pub fn message(&self) -> (r: String)
        ensures
            match self {
                UserInputError::MissingArgument { arg } => r@ == "Missing required argument: --"@
                    + arg@,
            },
    {
        match self {
            UserInputError::MissingArgument { arg } => {
                let s = String::from_str("Missing required argument: --");
                s.concat(arg.as_str())
            },
        }
    }
}

/// A failure of a mandatory step of the crawl.
#[derive(PartialEq, Eq, Structural, Debug, Clone, Copy)]
pub enum FetchError {
    /// The landing page holds no CSRF token.
    TokenNotFound,
    /// The login request was answered with a non-success status.
    LoginFailure,
    /// The team listing request was answered with a non-success status.
    ListingFailure,
}

} // verus!
