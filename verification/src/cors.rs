//! The CORS stage's policy: an origin is either on the configured allow-list
//! and echoed back, or the request is rejected. Pre-flight short-circuiting
//! lives in the pipeline, which consults this policy.

use vstd::prelude::*;

use crate::http::str_eq;

verus! {

/// The configured cross-origin allow-list.
pub struct CorsConfig {
    pub allowed_origins: Vec<String>,
}

/// Is the `i`th entry of the allow-list exactly the given origin?
pub open spec fn allowed_at(allow: Seq<String>, i: int, o: Seq<char>) -> bool {
    &&& 0 <= i < allow.len()
    &&& allow[i]@ == o
}

/// Is the origin on the allow-list?
pub open spec fn origin_allowed(allow: Seq<String>, o: Seq<char>) -> bool {
    exists|i: int| allowed_at(allow, i, o)
}

impl CorsConfig {
    /// Check an origin against the allow-list.
    pub fn is_allowed(&self, o: &str) -> (r: bool)
        ensures
            r == origin_allowed(self.allowed_origins@, o@),
    {
        let mut i: usize = 0;
        while i < self.allowed_origins.len()
            invariant
                0 <= i <= self.allowed_origins@.len(),
                forall|j: int| 0 <= j < i ==> !allowed_at(self.allowed_origins@, j, o@),
            decreases self.allowed_origins@.len() - i,
        {
            if str_eq(self.allowed_origins[i].as_str(), o) {
                assert(allowed_at(self.allowed_origins@, i as int, o@));
                return true;
            }
            i = i + 1;
        }
        false
    }
}

} // verus!
