//! A description of the OpenCL device that inference runs on.
use vstd::prelude::*;
use crate::digits::{decimal, decimal_text};

verus! {

/// What the OpenCL runtime reports about a device.
#[derive(Clone, Debug)]
pub struct DeviceInfo {
    pub name: String,
    pub vendor: String,
    pub version: String,
    pub opencl_c_version: String,
    pub compute_units: u32,
    pub max_work_group_size: usize,
    pub global_mem_bytes: u64,
    pub max_alloc_bytes: u64,
    pub local_mem_bytes: u64,
    pub fp16: bool,
}

pub open spec fn bool_text(b: bool) -> Seq<char> {
    if b {
        "true"@
    } else {
        "false"@
    }
}

/// One line: names, versions, compute units, work-group size, memory in MiB
/// (local memory in KiB, each rounded down) and half-precision support.
pub open spec fn spec_describe(d: DeviceInfo) -> Seq<char> {
    d.name@ + " ("@ + d.vendor@ + ") | "@ + d.version@ + " | "@ + d.opencl_c_version@ + " | CUs="@
        + decimal(d.compute_units as nat) + " WG="@ + decimal(d.max_work_group_size as nat)
        + " global="@ + decimal((d.global_mem_bytes / 1048576) as nat) + "MiB alloc="@ + decimal(
        (d.max_alloc_bytes / 1048576) as nat,
    ) + "MiB local="@ + decimal((d.local_mem_bytes / 1024) as nat) + "KiB fp16="@ + bool_text(
        d.fp16,
    )
}

impl DeviceInfo {
    /// The one-line description of the device.
    pub fn describe(&self) -> (r: String)
        ensures
            r@ == spec_describe(*self),
    {
        let flag = if self.fp16 {
            "true"
        } else {
            "false"
        };
        let s = String::from_str(self.name.as_str()).concat(" (").concat(self.vendor.as_str()).concat(
            ") | ",
        ).concat(self.version.as_str()).concat(" | ").concat(self.opencl_c_version.as_str()).concat(
            " | CUs=",
        );
        let s = s.concat(decimal_text(self.compute_units as u64).as_str()).concat(" WG=").concat(
            decimal_text(self.max_work_group_size as u64).as_str(),
        ).concat(" global=").concat(decimal_text(self.global_mem_bytes / 1048576).as_str());
        let s = s.concat("MiB alloc=").concat(decimal_text(self.max_alloc_bytes / 1048576).as_str()).concat(
            "MiB local=",
        ).concat(decimal_text(self.local_mem_bytes / 1024).as_str()).concat("KiB fp16=").concat(flag);
        s
    }
}

} // verus!
