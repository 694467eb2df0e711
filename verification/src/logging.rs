//! Reporting errors.
use vstd::prelude::*;

verus! {

/// A generic error of the service, carrying its report.
pub struct AppError {
    message: String,
}

impl AppError {
    /// The report of this error.
    pub closed spec fn spec_message(&self) -> Seq<char> {
        self.message@
    }

    /// The report of this error.
    pub fn message(&self) -> (res: &str)
        ensures
            res@ == self.spec_message(),
    {
        self.message.as_str()
    }
}

/// Handles a generic error, given its pretty-printed debug form (`{:#?}`): the
/// error that reports exactly that text.
pub fn handle_err(debug_text: &str) -> (res: AppError)
    ensures
        res.spec_message() == debug_text@,
{
    AppError { message: String::from_str(debug_text) }
}

/// The message that an opaque field error shows GraphQL clients for an error
/// whose pretty-printed debug form is `debug_text`: a fixed text, so that
/// nothing of the error leaks (its report goes to the log only).
pub fn opaque_field_message(debug_text: &str) -> (res: String)
    ensures
        res@ == "internal error"@,
{
    String::from_str("internal error")
}

} // verus!
