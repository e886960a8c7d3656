use vstd::prelude::*;
use vstd::string::StringExecFns;
use crate::error::CustomError;

verus! {

/// The JSON body of one alert: `{"text": "<service URL>\n<message>"}`,
/// where the message is the user-facing text of the failure.
pub open spec fn spec_alert_payload(service_url: Seq<char>, message: Seq<char>) -> Seq<char> {
    "{\"text\": \""@ + service_url + "\n"@ + message + "\"}"@
}

/// Build the alert body to POST to the webhook for one failed check.
pub fn build_alert_payload(service_url: &str, error: &CustomError) -> (r: String)
    ensures
        r@ == spec_alert_payload(service_url@, error.spec_message()),
{
    let mut r = String::from_str("{\"text\": \"");
    r.append(service_url);
    r.append("\n");
    let msg = error.message();
    r.append(msg.as_str());
    r.append("\"}");
    r
}

} // verus!
