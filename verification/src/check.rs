use vstd::prelude::*;
use crate::config::{CookieConf, ServiceConf};
use crate::error::CustomError;

verus! {

/// The result of one service check: success, or one classified failure.
#[derive(Clone, Copy, Debug, PartialEq, Eq, Structural)]
pub enum CheckOutcome {
    Success,
    Failure(CustomError),
}

/// What one run of the browser against a stable target observes, reduced
/// to plain values: whether navigation (and awaiting it) succeeded, which
/// cookies the session reports after the cookie was set and the page
/// reloaded, and whether the configured selector was found in the
/// rendered page. Fields after a failed step carry no meaning: the
/// outcome never depends on them.
#[derive(Clone, Debug, PartialEq, Eq)]
pub struct TargetResponse {
    pub navigated: bool,
    pub cookies: Vec<CookieConf>,
    pub selector_found: bool,
}

/// Whether `cookies` holds a cookie with exactly this name and value.
pub open spec fn has_cookie(cookies: Seq<CookieConf>, name: Seq<char>, value: Seq<char>) -> bool {
    exists|i: int|
        0 <= i < cookies.len() && cookies[i].name@ == name && cookies[i].value@ == value
}

/// Whether the authentication step passes: vacuously when no cookie is
/// configured, otherwise the configured cookie must be echoed back by
/// the session.
pub open spec fn cookie_ok(conf: ServiceConf, cookies: Seq<CookieConf>) -> bool {
    match conf.cookie {
        Some(c) => has_cookie(cookies, c.name@, c.value@),
        None => true,
    }
}

/// The outcome of one check, as a function of the configuration and of
/// what the browser observed. Each step's failure short-circuits the
/// later steps: navigation, then cookie verification (only if a cookie
/// is configured), then the selector search.
pub open spec fn spec_outcome(conf: ServiceConf, resp: TargetResponse) -> CheckOutcome {
    if !resp.navigated {
        CheckOutcome::Failure(CustomError::AccessUrlError)
    } else if !cookie_ok(conf, resp.cookies@) {
        CheckOutcome::Failure(CustomError::CookieError)
    } else if !resp.selector_found {
        CheckOutcome::Failure(CustomError::FindSelectorError)
    } else {
        CheckOutcome::Success
    }
}

/// Whether an outcome is a success or one of the three failures that a
/// check can be classified into.
pub open spec fn classified_outcome(o: CheckOutcome) -> bool {
    match o {
        CheckOutcome::Success => true,
        CheckOutcome::Failure(e) => e == CustomError::AccessUrlError
            || e == CustomError::CookieError || e == CustomError::FindSelectorError,
    }
}

/// Search the session's cookies for one with the given name and value,
/// as the authentication step does after setting the cookie and
/// reloading.
pub fn contains_cookie(cookies: &Vec<CookieConf>, name: &String, value: &String) -> (r: bool)
    ensures
        r == has_cookie(cookies@, name@, value@),
{
    let mut i: usize = 0;
    while i < cookies.len()
        invariant
            i <= cookies@.len(),
            forall|j: int|
                0 <= j < i ==> !(cookies@[j].name@ == name@ && cookies@[j].value@ == value@),
        decreases cookies@.len() - i,
    {
        if cookies[i].name == *name && cookies[i].value == *value {
            return true;
        }
        i += 1;
    }
    false
}

/// What the check engine waits for next while a check is in flight. Each
/// non-finished step names the browser action the caller performs for
/// it: `Navigate` is navigating to the access URL and awaiting it;
/// `VerifyCookie` is injecting the configured cookie, reloading,
/// awaiting, and reading the session's cookies back; `FindSelector` is
/// waiting for the configured element.
#[derive(Clone, Copy, Debug, PartialEq, Eq, Structural)]
pub enum CheckStep {
    Navigate,
    VerifyCookie,
    FindSelector,
    Finished(CheckOutcome),
}

/// What the browser reports back after performing the action of a step.
#[derive(Clone, Debug, PartialEq, Eq)]
pub enum BrowserEvent {
    Navigated(bool),
    CookiesRead(Vec<CookieConf>),
    ElementSearched(bool),
}

/// Whether an event answers the action of a step.
pub open spec fn step_expects(step: CheckStep, event: BrowserEvent) -> bool {
    match step {
        CheckStep::Navigate => event is Navigated,
        CheckStep::VerifyCookie => event is CookiesRead,
        CheckStep::FindSelector => event is ElementSearched,
        CheckStep::Finished(_) => false,
    }
}

/// The engine only waits for a cookie to verify when one is configured.
pub open spec fn step_inv(conf: ServiceConf, step: CheckStep) -> bool {
    step is VerifyCookie ==> conf.cookie is Some
}

/// The transition of the check engine: how one event moves the check
/// from the step that awaited it to the next step or to its outcome.
pub open spec fn spec_step(conf: ServiceConf, step: CheckStep, event: BrowserEvent) -> CheckStep {
    match (step, event) {
        (CheckStep::Navigate, BrowserEvent::Navigated(ok)) => {
            if !ok {
                CheckStep::Finished(CheckOutcome::Failure(CustomError::AccessUrlError))
            } else if conf.cookie is Some {
                CheckStep::VerifyCookie
            } else {
                CheckStep::FindSelector
            }
        },
        (CheckStep::VerifyCookie, BrowserEvent::CookiesRead(cookies)) => {
            if cookie_ok(conf, cookies@) {
                CheckStep::FindSelector
            } else {
                CheckStep::Finished(CheckOutcome::Failure(CustomError::CookieError))
            }
        },
        (CheckStep::FindSelector, BrowserEvent::ElementSearched(found)) => {
            if found {
                CheckStep::Finished(CheckOutcome::Success)
            } else {
                CheckStep::Finished(CheckOutcome::Failure(CustomError::FindSelectorError))
            }
        },
        _ => step,
    }
}

/// Advance one in-flight check by one observed event.
///
/// The caller performs the action named by `step`, hands the event back,
/// and loops until the returned step is `Finished`.
pub fn check_step(conf: &ServiceConf, step: CheckStep, event: BrowserEvent) -> (r: CheckStep)
    requires
        step_inv(*conf, step),
        step_expects(step, event),
    ensures
        r == spec_step(*conf, step, event),
        step_inv(*conf, r),
{
    match (step, event) {
        (CheckStep::Navigate, BrowserEvent::Navigated(ok)) => {
            if !ok {
                CheckStep::Finished(CheckOutcome::Failure(CustomError::AccessUrlError))
            } else if conf.cookie.is_some() {
                CheckStep::VerifyCookie
            } else {
                CheckStep::FindSelector
            }
        },
        (CheckStep::VerifyCookie, BrowserEvent::CookiesRead(cookies)) => {
            let verified = match &conf.cookie {
                Some(c) => contains_cookie(&cookies, &c.name, &c.value),
                None => true,
            };
            if verified {
                CheckStep::FindSelector
            } else {
                CheckStep::Finished(CheckOutcome::Failure(CustomError::CookieError))
            }
        },
        (CheckStep::FindSelector, BrowserEvent::ElementSearched(found)) => {
            if found {
                CheckStep::Finished(CheckOutcome::Success)
            } else {
                CheckStep::Finished(CheckOutcome::Failure(CustomError::FindSelectorError))
            }
        },
        (s, _) => s,
    }
}

/// The steps a whole check takes against a stable target, at the
/// specification level: navigate first, then, on the steps that are
/// still in flight, verify the cookie and search for the selector.
pub open spec fn spec_run_steps(conf: ServiceConf, resp: TargetResponse) -> CheckStep {
    let s1 = spec_step(conf, CheckStep::Navigate, BrowserEvent::Navigated(resp.navigated));
    let s2 = if s1 is VerifyCookie {
        spec_step(conf, s1, BrowserEvent::CookiesRead(resp.cookies))
    } else {
        s1
    };
    if s2 is FindSelector {
        spec_step(conf, s2, BrowserEvent::ElementSearched(resp.selector_found))
    } else {
        s2
    }
}

/// Law: driving the step machine from `Navigate` through the events one
/// stable target produces finishes, and finishes with exactly the
/// outcome that `spec_outcome` assigns to that target.
pub proof fn lemma_steps_match_outcome(conf: ServiceConf, resp: TargetResponse)
    ensures
        spec_run_steps(conf, resp) == CheckStep::Finished(spec_outcome(conf, resp)),
{
}

/// Run one service check, given what the browser observed of the target.
///
/// The outcome is exactly `spec_outcome`, and is always one of the three
/// classified failures or success.
pub fn run_check(conf: &ServiceConf, resp: &TargetResponse) -> (r: CheckOutcome)
    ensures
        r == spec_outcome(*conf, *resp),
        classified_outcome(r),
{
    if !resp.navigated {
        return CheckOutcome::Failure(CustomError::AccessUrlError);
    }
    if let Some(c) = &conf.cookie {
        if !contains_cookie(&resp.cookies, &c.name, &c.value) {
            return CheckOutcome::Failure(CustomError::CookieError);
        }
    }
    if !resp.selector_found {
        return CheckOutcome::Failure(CustomError::FindSelectorError);
    }
    CheckOutcome::Success
}

/// Law: a check whose navigation succeeded, whose configured cookie (if
/// any) was echoed back, and whose selector was found, succeeds.
pub proof fn lemma_check_success(conf: ServiceConf, resp: TargetResponse)
    requires
        resp.navigated,
        cookie_ok(conf, resp.cookies@),
        resp.selector_found,
    ensures
        spec_outcome(conf, resp) == CheckOutcome::Success,
{
}

/// Law: when navigation fails, the check fails with `AccessUrlError`,
/// whatever else was (or was not) observed.
pub proof fn lemma_navigation_failure(conf: ServiceConf, resp: TargetResponse)
    requires
        !resp.navigated,
    ensures
        spec_outcome(conf, resp) == CheckOutcome::Failure(CustomError::AccessUrlError),
{
}

/// Law: when a cookie is configured, navigation succeeded, and the
/// target does not echo the cookie back, the check fails with
/// `CookieError`.
pub proof fn lemma_cookie_failure(conf: ServiceConf, resp: TargetResponse)
    requires
        resp.navigated,
        conf.cookie is Some,
        !cookie_ok(conf, resp.cookies@),
    ensures
        spec_outcome(conf, resp) == CheckOutcome::Failure(CustomError::CookieError),
{
}

/// Law: a check without a configured cookie never fails with
/// `CookieError`, whatever the target does.
pub proof fn lemma_no_cookie_no_cookie_error(conf: ServiceConf, resp: TargetResponse)
    requires
        conf.cookie is None,
    ensures
        spec_outcome(conf, resp) != CheckOutcome::Failure(CustomError::CookieError),
{
}

/// Law: when navigation and (if configured) cookie verification
/// succeeded but the selector is absent from the rendered page, the
/// check fails with `FindSelectorError`.
pub proof fn lemma_selector_failure(conf: ServiceConf, resp: TargetResponse)
    requires
        resp.navigated,
        cookie_ok(conf, resp.cookies@),
        !resp.selector_found,
    ensures
        spec_outcome(conf, resp) == CheckOutcome::Failure(CustomError::FindSelectorError),
{
}

/// Law: every outcome a check can produce is either success or one of
/// the three classified failures.
pub proof fn lemma_outcome_classified(conf: ServiceConf, resp: TargetResponse)
    ensures
        classified_outcome(spec_outcome(conf, resp)),
{
}

/// Law: the outcome tells exactly how far the check got. `AccessUrlError`
/// holds if and only if navigation failed; `CookieError` if and only if
/// navigation succeeded, a cookie was configured, and the target did not
/// echo it back; `FindSelectorError` if and only if navigation and (if
/// configured) cookie verification succeeded but the selector was
/// absent; success if and only if every step passed.
pub proof fn lemma_outcome_characterizes_steps(conf: ServiceConf, resp: TargetResponse)
    ensures
        (spec_outcome(conf, resp) == CheckOutcome::Failure(CustomError::AccessUrlError))
            <==> !resp.navigated,
        (spec_outcome(conf, resp) == CheckOutcome::Failure(CustomError::CookieError)) <==> (
        resp.navigated && conf.cookie is Some && !cookie_ok(conf, resp.cookies@)),
        (spec_outcome(conf, resp) == CheckOutcome::Failure(CustomError::FindSelectorError)) <==> (
        resp.navigated && cookie_ok(conf, resp.cookies@) && !resp.selector_found),
        (spec_outcome(conf, resp) == CheckOutcome::Success) <==> (resp.navigated && cookie_ok(
            conf,
            resp.cookies@,
        ) && resp.selector_found),
{
    if conf.cookie is None {
        assert(cookie_ok(conf, resp.cookies@));
    }
}

/// Law: the outcome of a check is a function of the configuration and of
/// what the target shows. Repeating a check against an unchanged, stable
/// target - two observations that agree on navigation, on the cookies
/// echoed back, and on the selector - yields the same outcome.
pub proof fn lemma_check_idempotent(conf: ServiceConf, r1: TargetResponse, r2: TargetResponse)
    requires
        r1.navigated == r2.navigated,
        r1.selector_found == r2.selector_found,
        r1.cookies@.len() == r2.cookies@.len(),
        forall|i: int|
            0 <= i < r1.cookies@.len() ==> r1.cookies@[i].name@ == r2.cookies@[i].name@
                && r1.cookies@[i].value@ == r2.cookies@[i].value@,
    ensures
        spec_outcome(conf, r1) == spec_outcome(conf, r2),
{
    match conf.cookie {
        Some(c) => {
            if has_cookie(r1.cookies@, c.name@, c.value@) {
                let i = choose|i: int|
                    0 <= i < r1.cookies@.len() && r1.cookies@[i].name@ == c.name@
                        && r1.cookies@[i].value@ == c.value@;
                assert(r2.cookies@[i].name@ == c.name@ && r2.cookies@[i].value@ == c.value@);
                assert(has_cookie(r2.cookies@, c.name@, c.value@));
            }
            if has_cookie(r2.cookies@, c.name@, c.value@) {
                let i = choose|i: int|
                    0 <= i < r2.cookies@.len() && r2.cookies@[i].name@ == c.name@
                        && r2.cookies@[i].value@ == c.value@;
                assert(r1.cookies@[i].name@ == c.name@ && r1.cookies@[i].value@ == c.value@);
                assert(has_cookie(r1.cookies@, c.name@, c.value@));
            }
        },
        None => {},
    }
}

} // verus!
