//! Choice of the delivery channel from the name of what triggered the build.

use crate::opt_view;
use vstd::prelude::*;

verus! {

/// The channel configured for each trigger name.
pub struct Source {
    pub integration: String,
    pub production: String,
    pub staging: String,
    pub hotfix: String,
}

/// The channel that `branch` selects in `source`: empty (the platform's
/// default channel) for an absent or unrecognised name.
pub open spec fn spec_channel(branch: Option<Seq<char>>, source: &Source) -> Seq<char> {
    match branch {
        Some(b) => if b == "integration"@ {
            source.integration@
        } else if b == "production"@ {
            source.production@
        } else if b == "staging"@ {
            source.staging@
        } else if b == "hotfix"@ {
            source.hotfix@
        } else {
            Seq::empty()
        },
        None => Seq::empty(),
    }
}

/// Looks up the channel configured for the trigger name `branch`; an absent or
/// unrecognised name yields the empty channel, never a failure.
pub fn find_channel(branch: Option<String>, source: &Source) -> (r: String)
    ensures
        r@ == spec_channel(opt_view(branch), source),
{
    match branch {
        Some(b) => {
            if b == String::from_str("integration") {
                source.integration.clone()
            } else if b == String::from_str("production") {
                source.production.clone()
            } else if b == String::from_str("staging") {
                source.staging.clone()
            } else if b == String::from_str("hotfix") {
                source.hotfix.clone()
            } else {
                String::new()
            }
        },
        None => String::new(),
    }
}

} // verus!
