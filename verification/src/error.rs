//! The one domain-specific failure of the library: a requested artifact name
//! that matches nothing in a build.

use vstd::prelude::*;
use vstd::string::*;
use crate::text::{decimal_chars, push_decimal};

verus! {

/// Raised when an artifact filter matches no artifact of a build.
#[derive(Clone, Debug)]
pub struct ArtifactNotFound {
    pub build_id: u64,
    pub art_name: String,
}

impl ArtifactNotFound {
    pub fn new(build_id: u64, art_name: &str) -> (e: ArtifactNotFound)
        ensures
            e.build_id == build_id,
            e.art_name@ == art_name@,
    {
        ArtifactNotFound { build_id, art_name: art_name.to_owned() }
    }

    /// A human-readable description of the failure.
    pub fn message(&self) -> (r: String)
        ensures
            r@ == "Artifact "@ + self.art_name@ + " not found in build #"@ + decimal_chars(
                self.build_id,
            ),
    {
        let mut s = "Artifact ".to_owned();
        s.append(self.art_name.as_str());
        s.append(" not found in build #");
        push_decimal(&mut s, self.build_id);
        proof {
            assert(s@ =~= "Artifact "@ + self.art_name@ + " not found in build #"@
                + decimal_chars(self.build_id));
        }
        s
    }
}

} // verus!
