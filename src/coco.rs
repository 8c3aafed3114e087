//! Report requests and responses shared by the backends, and the choice of
//! backend.

use vstd::prelude::*;

use crate::error::CocoError;
use crate::configfs::ConfigFs;
use crate::platform::{CpuArchitecture, CpuVendor, Hypervisor};

verus! {

/// Where the unified (configfs TSM) report interface lives.
pub const CONFIGFS_BASE_PATH: &'static str = "/sys/kernel/config/tsm/report";

/// The legacy SEV-SNP guest device.
pub const SEV_LEGACY_PATH: &'static str = "/dev/sev-guest";

/// The TPM device nodes, either of which makes a TPM usable.
pub const TPM_PATHS: [&'static str; 2] = ["/dev/tpm0", "/dev/tpmrm0"];

/// The channel through which a report is obtained.
#[derive(Debug, Clone, Copy, PartialEq, Eq, Structural)]
pub enum CocoDeviceType {
    /// The unified configfs TSM report interface.
    ConfigFs,
    /// The legacy vendor device (AMD `/dev/sev-guest`).
    Legacy,
    /// A TPM, as on Azure confidential VMs.
    Tpm,
}

/// A request for a report.
#[derive(Debug, Clone, Copy)]
pub struct ReportRequest {
    /// Nonce to bind into the report.
    pub report_data: Option<[u8; 64]>,
    /// Privilege level (0 to 3, SEV-SNP only).
    pub vmpl: Option<u32>,
    /// Whether to fetch the certificates as well (AMD only).
    pub get_certs: Option<bool>,
}

/// A report, and the certificates where they were asked for and provided.
#[derive(Debug, Clone, PartialEq, Eq)]
pub struct ReportResponse {
    pub certs: Option<Vec<u8>>,
    pub report: Vec<u8>,
}

/// What a look at the host found, in the order the prober asks.
#[derive(Debug, Clone, Copy, PartialEq, Eq, Structural)]
pub struct HostDevices {
    /// The configfs base path exists and a trial report slot could be made
    /// and removed there.
    pub configfs_usable: bool,
    /// The legacy SEV-SNP device exists.
    pub sev_legacy_present: bool,
    /// One of the TPM device nodes exists.
    pub tpm_present: bool,
}

/// The device type that probing selects, first match wins: none on Arm,
/// and none where no channel is present.
pub open spec fn device_type_for(vendor: CpuVendor, host: HostDevices) -> Option<CocoDeviceType> {
    if vendor == CpuVendor::Arm {
        None
    } else if host.configfs_usable {
        Some(CocoDeviceType::ConfigFs)
    } else if vendor == CpuVendor::Amd && host.sev_legacy_present {
        Some(CocoDeviceType::Legacy)
    } else if host.tpm_present {
        Some(CocoDeviceType::Tpm)
    } else {
        None
    }
}

/// Whether probing may start: Arm is refused from the vendor alone, before
/// any path is looked at or any trial slot is made.
pub fn check_vendor_supported(vendor: &CpuVendor) -> (r: Result<(), CocoError>)
    ensures
        *vendor == CpuVendor::Arm ==> r matches Err(CocoError::Firmware(_)),
        *vendor != CpuVendor::Arm ==> r is Ok,
{
    if *vendor == CpuVendor::Arm {
        return Err(CocoError::Firmware("Arm CoCo is not supported yet. Maybe next time.".to_string()));
    }
    Ok(())
}

/// Selects the report channel, in strict priority order: Arm is refused;
/// then the unified interface; then, on AMD, the legacy device; then a TPM.
pub fn get_device_type(vendor: &CpuVendor, host: &HostDevices) -> (r: Result<CocoDeviceType, CocoError>)
    ensures
        match device_type_for(*vendor, *host) {
            Some(t) => r == Ok::<CocoDeviceType, CocoError>(t),
            None => r matches Err(CocoError::Firmware(_)),
        },
{
    check_vendor_supported(vendor)?;
    // Prefer configfs: it is the unified standard that all providers are moving to.
    if host.configfs_usable {
        return Ok(CocoDeviceType::ConfigFs);
    }
    if *vendor == CpuVendor::Amd && host.sev_legacy_present {
        return Ok(CocoDeviceType::Legacy);
    }
    if host.tpm_present {
        return Ok(CocoDeviceType::Tpm);
    }
    Err(CocoError::Firmware("No CoCo device found".to_string()))
}

/// Probing is a function of the vendor and of what the host offers: an
/// unchanged host gives the same device type each time.
pub proof fn lemma_probe_idempotent(vendor: CpuVendor, first: HostDevices, second: HostDevices)
    requires
        first == second,
    ensures
        device_type_for(vendor, first) == device_type_for(vendor, second),
{
}

/// Where the unified interface is usable it is chosen, whatever legacy
/// device or TPM is present as well.
pub proof fn lemma_unified_interface_first(vendor: CpuVendor, host: HostDevices)
    requires
        vendor != CpuVendor::Arm,
        host.configfs_usable,
    ensures
        device_type_for(vendor, host) == Some(CocoDeviceType::ConfigFs),
{
}

/// The TPM backend. The TPM supplies its own platform-bound report data,
/// so a request may not bring a nonce.
pub struct Tpm {
    pub cpu_vendor: CpuVendor,
    pub hypervisor: Hypervisor,
}

impl Tpm {
    pub fn new(cpu_vendor: CpuVendor, hypervisor: Hypervisor) -> (r: Self)
        ensures
            r.cpu_vendor == cpu_vendor,
            r.hypervisor == hypervisor,
    {
        Tpm { cpu_vendor, hypervisor }
    }

    /// Accepts a request before any device access: one that brings a nonce
    /// is a `ConfigOptions` error.
    pub fn check_request(&self, req: &ReportRequest) -> (r: Result<(), CocoError>)
        ensures
            req.report_data is None ==> r is Ok,
            req.report_data is Some ==> r matches Err(CocoError::ConfigOptions(_)),
    {
        if req.report_data.is_some() {
            return Err(CocoError::ConfigOptions("report_data cannot be provided for TPM!".to_string()));
        }
        Ok(())
    }

    /// The response for the report read from the TPM: no certificates.
    pub fn report_response(&self, report: Vec<u8>) -> (r: ReportResponse)
        ensures
            r.certs is None,
            r.report@ == report@,
    {
        ReportResponse { certs: None, report }
    }
}

/// The one backend that a provider owns for its whole lifetime.
pub enum CocoDevice {
    ConfigFs(ConfigFs),
    Tpm(Tpm),
}

/// All that is known of the confidential-computing platform, and its
/// report channel.
pub struct CocoProvider {
    /// VM architecture.
    pub arch: CpuArchitecture,
    /// VM hypervisor.
    pub hypervisor: Hypervisor,
    /// CPU vendor.
    pub cpu_vendor: CpuVendor,
    /// CPU model.
    pub cpu_model: String,
    /// Type of the device exposed to the VM.
    pub device_type: CocoDeviceType,
    /// The backend.
    pub device: CocoDevice,
}

/// Device access needs root: any other user id is a `Permission` error.
pub fn check_privilege(uid: u32) -> (r: Result<(), CocoError>)
    ensures
        uid == 0 ==> r is Ok,
        uid != 0 ==> r matches Err(CocoError::Permission(_)),
{
    if uid != 0 {
        return Err(CocoError::Permission("Please run this program as root to access CoCo device!".to_string()));
    }
    Ok(())
}

/// Builds the provider for the selected device type. A configfs provider
/// takes the backend that the caller opened on a fresh slot, and only it
/// does: a backend given for another type, or none given for configfs, is
/// an error. The legacy device has no backend here and is refused.
pub fn construct_coco_provider(
    device_type: CocoDeviceType,
    arch: CpuArchitecture,
    hypervisor: Hypervisor,
    cpu_vendor: CpuVendor,
    cpu_model: String,
    configfs: Option<ConfigFs>,
) -> (r: Result<CocoProvider, CocoError>)
    ensures
        device_type == CocoDeviceType::Legacy ==> r matches Err(CocoError::Firmware(_)),
        (device_type == CocoDeviceType::ConfigFs) != configfs is Some ==> r matches Err(CocoError::Firmware(_)),
        device_type != CocoDeviceType::Legacy && (device_type == CocoDeviceType::ConfigFs) == configfs is Some ==> (r matches Ok(p) && {
            &&& p.arch == arch
            &&& p.hypervisor == hypervisor
            &&& p.cpu_vendor == cpu_vendor
            &&& p.cpu_model@ == cpu_model@
            &&& p.device_type == device_type
            &&& device_type == CocoDeviceType::ConfigFs ==> p.device == CocoDevice::ConfigFs(configfs.unwrap())
            &&& device_type == CocoDeviceType::Tpm ==> p.device == CocoDevice::Tpm((Tpm { cpu_vendor, hypervisor }))
        }),
{
    match device_type {
        CocoDeviceType::ConfigFs => {
            let device = match configfs {
                Some(c) => c,
                None => return Err(CocoError::Firmware("ConfigFS slot not opened".to_string())),
            };
            Ok(CocoProvider { arch, hypervisor, cpu_vendor, cpu_model, device_type, device: CocoDevice::ConfigFs(device) })
        },
        CocoDeviceType::Tpm => {
            if configfs.is_some() {
                return Err(CocoError::Firmware("ConfigFS slot given for a TPM device".to_string()));
            }
            let device = Tpm::new(cpu_vendor, hypervisor);
            Ok(CocoProvider { arch, hypervisor, cpu_vendor, cpu_model, device_type, device: CocoDevice::Tpm(device) })
        },
        CocoDeviceType::Legacy => Err(CocoError::Firmware("Device type not supported".to_string())),
    }
}

} // verus!
