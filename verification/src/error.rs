use vstd::prelude::*;

verus! {

/// The classified failures of a service check.
///
/// `AccessUrlNotDefined` and `FindSelectorNotDefined` reject an invalid
/// configuration before any check runs; the other three classify the
/// outcome of one check: navigation failed, the configured cookie was
/// not echoed back by the target, or the expected element was absent.
#[derive(Clone, Copy, Debug, PartialEq, Eq, Structural)]
pub enum CustomError {
    AccessUrlNotDefined,
    FindSelectorNotDefined,
    AccessUrlError,
    CookieError,
    FindSelectorError,
}

impl CustomError {
    /// The user-facing message carried in an alert for this failure.
    pub open spec fn spec_message(self) -> Seq<char> {
        match self {
            CustomError::AccessUrlNotDefined => "The access URL is not specified."@,
            CustomError::FindSelectorNotDefined => "The selector to find is not specified."@,
            CustomError::AccessUrlError => "The specified URL could not be accessed."@,
            CustomError::CookieError => "An invalid cookie was specified."@,
            CustomError::FindSelectorError => "The specified selector was not found."@,
        }
    }

    /// Render the user-facing message of this failure.
    pub fn message(&self) -> (r: String)
        ensures
            r@ == self.spec_message(),
    {
        match self {
            CustomError::AccessUrlNotDefined => "The access URL is not specified.".to_owned(),
            CustomError::FindSelectorNotDefined => "The selector to find is not specified.".to_owned(),
            CustomError::AccessUrlError => "The specified URL could not be accessed.".to_owned(),
            CustomError::CookieError => "An invalid cookie was specified.".to_owned(),
            CustomError::FindSelectorError => "The specified selector was not found.".to_owned(),
        }
    }
}

} // verus!
