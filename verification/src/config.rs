use vstd::prelude::*;
use crate::error::CustomError;

verus! {

/// A cookie to inject into the browser session before the check:
/// mirrors the optional `[cookie]` section of a service definition.
#[derive(Clone, Debug, PartialEq, Eq)]
pub struct CookieConf {
    pub name: String,
    pub value: String,
}

/// One monitored service: where to navigate, which element must be
/// present, and optionally which cookie authenticates the session.
#[derive(Clone, Debug, PartialEq, Eq)]
pub struct ServiceConf {
    pub access_url: String,
    pub find_selector: String,
    pub cookie: Option<CookieConf>,
}

/// The webhook channel that alerts are delivered to.
#[derive(Clone, Debug, PartialEq, Eq)]
pub struct WebhookConf {
    pub webhook_url: String,
    pub alert_message: String,
}

/// The mathematical value of a cookie: name and value as character
/// sequences.
pub struct CookieConfView {
    pub name: Seq<char>,
    pub value: Seq<char>,
}

impl View for CookieConf {
    type V = CookieConfView;

    open spec fn view(&self) -> CookieConfView {
        CookieConfView { name: self.name@, value: self.value@ }
    }
}

/// The mathematical value of a service definition.
pub struct ServiceConfView {
    pub access_url: Seq<char>,
    pub find_selector: Seq<char>,
    pub cookie: Option<CookieConfView>,
}

impl View for ServiceConf {
    type V = ServiceConfView;

    open spec fn view(&self) -> ServiceConfView {
        ServiceConfView {
            access_url: self.access_url@,
            find_selector: self.find_selector@,
            cookie: match self.cookie {
                Some(c) => Some(c@),
                None => None,
            },
        }
    }
}

impl ServiceConf {
    /// A service definition is valid when both required fields are non-empty.
    pub open spec fn spec_valid(self) -> bool {
        self.access_url@.len() > 0 && self.find_selector@.len() > 0
    }

    /// Which error an invalid definition is rejected with: a missing
    /// access URL is reported before a missing selector.
    pub open spec fn spec_validate(self) -> Result<(), CustomError> {
        if self.access_url@.len() == 0 {
            Err(CustomError::AccessUrlNotDefined)
        } else if self.find_selector@.len() == 0 {
            Err(CustomError::FindSelectorNotDefined)
        } else {
            Ok(())
        }
    }

    /// Reject a service definition whose required fields are empty.
    pub fn validate(&self) -> (r: Result<(), CustomError>)
        ensures
            r == self.spec_validate(),
            r is Ok <==> self.spec_valid(),
    {
        if self.access_url.as_str().is_empty() {
            Err(CustomError::AccessUrlNotDefined)
        } else if self.find_selector.as_str().is_empty() {
            Err(CustomError::FindSelectorNotDefined)
        } else {
            Ok(())
        }
    }
}

} // verus!
