//! Switching a partition's default placement rules on and off.
use vstd::prelude::*;

use crate::errors::PartitionError;
use crate::text::join_text;

verus! {

/// A rule by which a partition takes a default value when none is set.
#[derive(Clone, Copy, Debug, PartialEq, Eq, Structural)]
pub enum DefaultRule {
    /// Use the first free partition number.
    FirstFreeNumber,
    /// Start at the first free sector.
    FirstFreeStartingSector,
    /// End at the last free sector, taking all the free space.
    LastFreeEndingSector,
}

impl DefaultRule {
    /// What the rule makes the partition do, as failure messages name it.
    pub open spec fn purpose(self) -> Seq<char> {
        match self {
            DefaultRule::FirstFreeNumber => "use first free partition number"@,
            DefaultRule::FirstFreeStartingSector => "use first available free sector as starting sector"@,
            DefaultRule::LastFreeEndingSector => "use all free space for partition"@,
        }
    }

    /// The message reported when switching this rule on or off fails.
    pub open spec fn failure_text(self, enable: bool) -> Seq<char> {
        "failed to "@ + (if enable {
            "enable"@
        } else {
            "disable"@
        }) + " partition to "@ + self.purpose()
    }

    /// Interprets the status returned after switching this rule on or off: `0` is a success,
    /// anything else a configuration error.
    pub fn outcome(self, enable: bool, status: i32) -> (r: Result<(), PartitionError>)
        ensures
            r is Ok <==> status == 0,
            r matches Err(e) ==> e matches PartitionError::Config(m) && m@ == self.failure_text(
                enable,
            ),
    {
        if status == 0 {
            Ok(())
        } else {
            let op = if enable {
                "enable"
            } else {
                "disable"
            };
            let purpose = match self {
                DefaultRule::FirstFreeNumber => "use first free partition number",
                DefaultRule::FirstFreeStartingSector => "use first available free sector as starting sector",
                DefaultRule::LastFreeEndingSector => "use all free space for partition",
            };
            let mut m = join_text("failed to ", op);
            m.append(" partition to ");
            m.append(purpose);
            Err(PartitionError::Config(m))
        }
    }
}

} // verus!
