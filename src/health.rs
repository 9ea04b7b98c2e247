use vstd::prelude::*;
use vstd::string::StringExecFns;

verus! {

/// The answer to a liveness probe.
#[derive(Debug)]
pub struct HealthReport {
    pub status: String,
    pub service: String,
}

/// The name this executor reports for itself.
pub open spec fn service_name() -> Seq<char> {
    "rust-executor"@
}

/// The liveness answer: status `ok` and this executor's name.
pub fn health_report() -> (r: HealthReport)
    ensures
        r.status@ == "ok"@,
        r.service@ == service_name(),
{
    HealthReport { status: String::from_str("ok"), service: String::from_str("rust-executor") }
}

} // verus!
