//! What the deployments poll reports.

use crate::model::Deployment;
use vstd::prelude::*;

verus! {

/// One deployments poll: the deployments in flight. A failed poll reports none.
#[derive(Debug)]
pub struct VercelUpdate {
    pub deployments: Vec<Deployment>,
}

} // verus!
