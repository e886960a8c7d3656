use vstd::prelude::*;
use crate::check::CheckOutcome;
use crate::notify::{build_alert_payload, spec_alert_payload};

verus! {

/// One finished check: the URL of the service that was checked, and the
/// outcome its check was classified into.
#[derive(Clone, Debug, PartialEq, Eq)]
pub struct CheckReport {
    pub service_url: String,
    pub outcome: CheckOutcome,
}

/// The dispatcher alerts on every outcome that is not a success.
pub open spec fn spec_should_notify(o: CheckOutcome) -> bool {
    !(o is Success)
}

/// Decide whether one outcome is alerted on.
pub fn should_notify(o: &CheckOutcome) -> (r: bool)
    ensures
        r == spec_should_notify(*o),
{
    match o {
        CheckOutcome::Success => false,
        CheckOutcome::Failure(_) => true,
    }
}

/// The alert bodies owed for a sequence of reports: one payload per
/// failure, in report order; successes produce nothing.
pub open spec fn spec_alerts(reports: Seq<CheckReport>) -> Seq<Seq<char>>
    decreases reports.len(),
{
    if reports.len() == 0 {
        Seq::empty()
    } else {
        let prefix = spec_alerts(reports.drop_last());
        let last = reports.last();
        match last.outcome {
            CheckOutcome::Success => prefix,
            CheckOutcome::Failure(e) => prefix.push(
                spec_alert_payload(last.service_url@, e.spec_message()),
            ),
        }
    }
}

/// Build the alert bodies for a whole run: exactly one payload per
/// non-success report, in order, each formatted for that report's
/// service URL and failure.
pub fn alerts_for_reports(reports: &Vec<CheckReport>) -> (r: Vec<String>)
    ensures
        r@.map_values(|s: String| s@) == spec_alerts(reports@),
{
    let mut out: Vec<String> = Vec::new();
    let mut i: usize = 0;
    while i < reports.len()
        invariant
            i <= reports@.len(),
            out@.map_values(|s: String| s@) =~= spec_alerts(reports@.subrange(0, i as int)),
        decreases reports@.len() - i,
    {
        let rep = &reports[i];
        match &rep.outcome {
            CheckOutcome::Success => {},
            CheckOutcome::Failure(e) => {
                let p = build_alert_payload(rep.service_url.as_str(), e);
                out.push(p);
            },
        }
        proof {
            assert(reports@.subrange(0, i as int + 1).drop_last() =~= reports@.subrange(
                0,
                i as int,
            ));
            assert(out@.map_values(|s: String| s@) =~= spec_alerts(
                reports@.subrange(0, i as int + 1),
            ));
        }
        i += 1;
    }
    proof {
        assert(reports@.subrange(0, reports@.len() as int) =~= reports@);
    }
    out
}

} // verus!
