//! Partition table extensions specific to `DOS` and `GPT` partition tables.
use vstd::prelude::*;

use crate::errors::PartitionTableError;
use crate::sealed::Sealed;
use crate::text::join_text;

verus! {

/// `DOS`-specific functions for a partition table.
pub trait PartitionTableDOSExt: Sealed {
    /// Enables DOS-compatible mode.
    fn dos_enable_compatible_mode(&mut self) -> core::result::Result<(), PartitionTableError>;

    /// Disables DOS-compatible mode.
    fn dos_disable_compatible_mode(&mut self) -> core::result::Result<(), PartitionTableError>;

    /// Returns `true` when DOS-compatible mode is enabled.
    fn is_dos_compatible(&self) -> bool;
}

/// `GPT`-specific functions for a partition table.
pub trait PartitionTableGPTExt: Sealed {
    /// Enables automatic relocation of the backup header to the end of the device.
    fn gpt_enable_backup_header_relocation(&mut self);

    /// Disables automatic relocation of the backup header to the end of the device.
    fn gpt_disable_backup_header_relocation(&mut self);

    /// Puts the backup header right after the last partition.
    fn gpt_enable_minimize_footprint(&mut self);

    /// Puts the backup header at the end of the device.
    fn gpt_disable_minimize_footprint(&mut self);
}

/// The integer flag that `libfdisk` takes to switch a mode on (`1`) or off (`0`).
pub fn mode_flag(enable: bool) -> (f: i32)
    ensures
        f == (if enable {
            1i32
        } else {
            0i32
        }),
{
    if enable {
        1
    } else {
        0
    }
}

/// The message reported when switching DOS-compatible mode on or off fails.
pub open spec fn dos_mode_failure_text(enable: bool) -> Seq<char> {
    "failed to "@ + (if enable {
        "enable"@
    } else {
        "disable"@
    }) + " DOS compatible mode"@
}

/// Interprets the status that `libfdisk` returns after switching DOS-compatible mode: `0` is a
/// success, anything else a configuration error.
pub fn dos_mode_outcome(enable: bool, status: i32) -> (r: core::result::Result<
    (),
    PartitionTableError,
>)
    ensures
        r is Ok <==> status == 0,
        r matches Err(e) ==> e matches PartitionTableError::Config(m) && m@
            == dos_mode_failure_text(enable),
{
    if status == 0 {
        Ok(())
    } else {
        let op = if enable {
            "enable"
        } else {
            "disable"
        };
        let mut m = join_text("failed to ", op);
        m.append(" DOS compatible mode");
        Err(PartitionTableError::Config(m))
    }
}

} // verus!
