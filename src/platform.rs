//! Platform identification: CPU vendor, architecture and hypervisor, read
//! from the identification values the host exposes (CPUID leaves).

use vstd::prelude::*;

use crate::error::CocoError;

verus! {

/// CPU vendor of the guest.
#[derive(Debug, Clone, Copy, PartialEq, Eq, Structural)]
pub enum CpuVendor {
    Intel,
    Amd,
    Arm,
    Unknown,
}

/// Instruction-set architecture of the guest.
#[derive(Debug, Clone, Copy, PartialEq, Eq, Structural)]
pub enum CpuArchitecture {
    X86_64,
    Aarch64,
    Unknown,
}

/// Hypervisor the guest runs under.
#[derive(Debug, Clone, Copy, PartialEq, Eq, Structural)]
pub enum Hypervisor {
    /// No hypervisor: bare metal.
    BareMetal,
    Kvm,
    HyperV,
    Vmware,
    Xen,
}

/// Isolation technology that Hyper-V reports for a guest.
#[derive(Debug, Clone, Copy, PartialEq, Eq, Structural)]
pub enum HypervIsolationType {
    NoIsolation,
    Vbs,
    Snp,
    Tdx,
    Unknown,
}

/// CPUID leaf 0 vendor words (EBX, EDX, ECX) of "GenuineIntel".
pub const INTEL_VENDOR_ID: (u32, u32, u32) = (0x756e6547, 0x49656e69, 0x6c65746e);

/// CPUID leaf 0 vendor words (EBX, EDX, ECX) of "AuthenticAMD".
pub const AMD_VENDOR_ID: (u32, u32, u32) = (0x68747541, 0x69746e65, 0x444d4163);

/// The vendor that an architecture and, on x86-64, the CPUID leaf 0 vendor
/// words (EBX, EDX, ECX) name.
pub open spec fn vendor_of(arch: CpuArchitecture, id: (u32, u32, u32)) -> CpuVendor {
    match arch {
        CpuArchitecture::Aarch64 => CpuVendor::Arm,
        CpuArchitecture::X86_64 => if id == INTEL_VENDOR_ID {
            CpuVendor::Intel
        } else if id == AMD_VENDOR_ID {
            CpuVendor::Amd
        } else {
            CpuVendor::Unknown
        },
        CpuArchitecture::Unknown => CpuVendor::Unknown,
    }
}

/// Determines the CPU vendor.
pub fn detect_vendor(arch: CpuArchitecture, id: (u32, u32, u32)) -> (r: CpuVendor)
    ensures
        r == vendor_of(arch, id),
{
    match arch {
        CpuArchitecture::Aarch64 => CpuVendor::Arm,
        CpuArchitecture::X86_64 => {
            if id.0 == INTEL_VENDOR_ID.0 && id.1 == INTEL_VENDOR_ID.1 && id.2 == INTEL_VENDOR_ID.2 {
                CpuVendor::Intel
            } else if id.0 == AMD_VENDOR_ID.0 && id.1 == AMD_VENDOR_ID.1 && id.2 == AMD_VENDOR_ID.2 {
                CpuVendor::Amd
            } else {
                CpuVendor::Unknown
            }
        },
        CpuArchitecture::Unknown => CpuVendor::Unknown,
    }
}

/// The hypervisor that the CPUID hypervisor leaf (0x40000000) vendor words
/// (EBX, ECX, EDX) name, where the hypervisor-present bit is set.
pub open spec fn hypervisor_of(present: bool, id: (u32, u32, u32)) -> Option<Hypervisor> {
    if !present {
        Some(Hypervisor::BareMetal)
    } else if id == (0x4b4d564bu32, 0x564b4d56u32, 0x0000004du32) {
        Some(Hypervisor::Kvm)
    } else if id == (0x7263694du32, 0x666f736fu32, 0x76482074u32) {
        Some(Hypervisor::HyperV)
    } else if id == (0x61774d56u32, 0x4d566572u32, 0x65726177u32) {
        Some(Hypervisor::Vmware)
    } else if id == (0x566e6558u32, 0x65584d4du32, 0x4d4d566eu32) {
        Some(Hypervisor::Xen)
    } else {
        None
    }
}

/// Determines the hypervisor; an unrecognised one is an error.
pub fn detect_hypervisor(present: bool, id: (u32, u32, u32)) -> (r: Result<Hypervisor, CocoError>)
    ensures
        match hypervisor_of(present, id) {
            Some(h) => r == Ok::<Hypervisor, CocoError>(h),
            None => r matches Err(CocoError::Firmware(_)),
        },
{
    if !present {
        Ok(Hypervisor::BareMetal)
    } else if id.0 == 0x4b4d564b && id.1 == 0x564b4d56 && id.2 == 0x0000004d {
        Ok(Hypervisor::Kvm)
    } else if id.0 == 0x7263694d && id.1 == 0x666f736f && id.2 == 0x76482074 {
        Ok(Hypervisor::HyperV)
    } else if id.0 == 0x61774d56 && id.1 == 0x4d566572 && id.2 == 0x65726177 {
        Ok(Hypervisor::Vmware)
    } else if id.0 == 0x566e6558 && id.1 == 0x65584d4d && id.2 == 0x4d4d566e {
        Ok(Hypervisor::Xen)
    } else {
        Err(CocoError::Firmware("Unknown hypervisor".to_string()))
    }
}

/// The isolation type that Hyper-V reports: none unless the isolation
/// privilege (bit 22 of EBX of leaf 0x40000003) is set, else the low four
/// bits of EBX of leaf 0x4000000C.
pub open spec fn isolation_type_of(features_ebx: u32, isolation_ebx: u32) -> HypervIsolationType {
    if (features_ebx / 0x400000) % 2 == 0 {
        HypervIsolationType::NoIsolation
    } else if isolation_ebx % 16 == 0 {
        HypervIsolationType::NoIsolation
    } else if isolation_ebx % 16 == 1 {
        HypervIsolationType::Vbs
    } else if isolation_ebx % 16 == 2 {
        HypervIsolationType::Snp
    } else if isolation_ebx % 16 == 3 {
        HypervIsolationType::Tdx
    } else {
        HypervIsolationType::Unknown
    }
}

/// Reads the Hyper-V isolation type from its CPUID words.
pub fn hyperv_isolation_type(features_ebx: u32, isolation_ebx: u32) -> (r: HypervIsolationType)
    ensures
        r == isolation_type_of(features_ebx, isolation_ebx),
{
    if (features_ebx / 0x400000) % 2 == 0 {
        return HypervIsolationType::NoIsolation;
    }
    let kind = isolation_ebx % 16;
    if kind == 0 {
        HypervIsolationType::NoIsolation
    } else if kind == 1 {
        HypervIsolationType::Vbs
    } else if kind == 2 {
        HypervIsolationType::Snp
    } else if kind == 3 {
        HypervIsolationType::Tdx
    } else {
        HypervIsolationType::Unknown
    }
}

/// Fails closed unless Hyper-V reports exactly the expected isolation.
pub fn hyperv_extra_isolation_checks(expected: &HypervIsolationType, reported: &HypervIsolationType) -> (r: Result<(), CocoError>)
    ensures
        *expected == *reported ==> r is Ok,
        *expected != *reported ==> r matches Err(CocoError::Firmware(_)),
{
    if *expected == *reported {
        Ok(())
    } else {
        Err(CocoError::Firmware("Hyper-V does not report the expected isolation type".to_string()))
    }
}

/// Whether CPUID leaf 0x21 carries the TDX signature "IntelTDX    " in
/// EBX, EDX, ECX, where the highest basic leaf reaches it.
pub open spec fn tdx_signature_present(max_leaf: u32, sig: (u32, u32, u32)) -> bool {
    max_leaf >= 0x21 && sig == (0x65746e49u32, 0x5844546cu32, 0x20202020u32)
}

/// Fails unless TDX is enabled.
pub fn check_tdx_enabled(max_leaf: u32, sig: (u32, u32, u32)) -> (r: Result<(), CocoError>)
    ensures
        tdx_signature_present(max_leaf, sig) ==> r is Ok,
        !tdx_signature_present(max_leaf, sig) ==> r matches Err(CocoError::Firmware(_)),
{
    if max_leaf >= 0x21 && sig.0 == 0x65746e49 && sig.1 == 0x5844546c && sig.2 == 0x20202020 {
        Ok(())
    } else {
        Err(CocoError::Firmware("TDX is not enabled".to_string()))
    }
}

/// What the platform must show before a device is opened: on Intel, TDX
/// isolation under Hyper-V, else TDX enabled; on AMD under Hyper-V, SNP
/// isolation.
pub open spec fn platform_ready(vendor: CpuVendor, hypervisor: Hypervisor, isolation: HypervIsolationType, tdx_enabled: bool) -> bool {
    match vendor {
        CpuVendor::Intel => if hypervisor == Hypervisor::HyperV {
            isolation == HypervIsolationType::Tdx
        } else {
            tdx_enabled
        },
        CpuVendor::Amd => hypervisor != Hypervisor::HyperV || isolation == HypervIsolationType::Snp,
        _ => true,
    }
}

/// Runs the vendor- and hypervisor-specific checks.
pub fn check_platform(vendor: CpuVendor, hypervisor: Hypervisor, isolation: HypervIsolationType, tdx_enabled: bool) -> (r: Result<(), CocoError>)
    ensures
        platform_ready(vendor, hypervisor, isolation, tdx_enabled) ==> r is Ok,
        !platform_ready(vendor, hypervisor, isolation, tdx_enabled) ==> r matches Err(CocoError::Firmware(_)),
{
    match vendor {
        CpuVendor::Intel => {
            if hypervisor == Hypervisor::HyperV {
                hyperv_extra_isolation_checks(&HypervIsolationType::Tdx, &isolation)
            } else if tdx_enabled {
                Ok(())
            } else {
                Err(CocoError::Firmware("TDX is not enabled".to_string()))
            }
        },
        CpuVendor::Amd => {
            if hypervisor == Hypervisor::HyperV {
                hyperv_extra_isolation_checks(&HypervIsolationType::Snp, &isolation)
            } else {
                Ok(())
            }
        },
        _ => Ok(()),
    }
}

} // verus!
