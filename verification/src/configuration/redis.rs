use vstd::prelude::*;

verus! {

/// Where the cache is reached.
#[derive(Clone, Debug)]
pub struct RedisConfiguration {
    pub url: String,
    pub port: u16,
}

} // verus!
