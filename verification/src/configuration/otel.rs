use vstd::prelude::*;

verus! {

/// Where and as whom traces are exported.
#[derive(Clone, Debug)]
pub struct OtelConfiguration {
    pub otlp_endpoint: String,
    pub otlp_protocol: String,
    pub honeycomb_team: String,
    pub service_name: String,
}

} // verus!
