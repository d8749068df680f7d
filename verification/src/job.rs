//! The shared unit of work.  One producer replaces the template and bumps the
//! version; many workers take owned snapshots.  Version identity, not content
//! identity, is the staleness signal: the version moves by exactly one on
//! every publication, even when the new template is byte-identical.

use vstd::prelude::*;

use crate::daemon_rpc::GetBlockTemplateResult;
use crate::daemon_rpc::is_sentinel;

verus! {

/// The current job template together with its version.  Version 0 means
/// "no work yet" and is never hashed.
#[derive(Debug)]
pub struct Job {
    pub ijob: GetBlockTemplateResult,
    pub count: u64,
}

impl Job {
    /// The initial store: version 0 and the sentinel template.
    pub fn initial() -> (r: Job)
        ensures
            r.count == 0,
            is_sentinel(r.ijob),
    {
        Job { ijob: GetBlockTemplateResult::empty(), count: 0 }
    }

    /// Replace the template and move the version up by exactly one, even for
    /// a template identical to the old one.
    pub fn publish(&mut self, template: GetBlockTemplateResult)
        requires
            old(self).count < u64::MAX,
        ensures
            final(self).count == old(self).count + 1,
            final(self).ijob == template,
    {
        self.ijob = template;
        self.count = self.count + 1;
    }

    /// An owned copy of the current template and version, never a reference
    /// into the live job.
    pub fn snapshot(&self) -> (r: Job)
        ensures
            r == *self,
    {
        Job { ijob: self.ijob.clone(), count: self.count }
    }

    /// The version alone: the cheap check run between hash attempts.
    pub fn version(&self) -> (r: u64)
        ensures
            r == self.count,
    {
        self.count
    }
}

} // verus!
