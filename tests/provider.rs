use coco_attest::coco::{
    check_privilege, check_vendor_supported, construct_coco_provider, get_device_type, CocoDevice, CocoDeviceType, HostDevices,
    ReportRequest, Tpm,
};
use coco_attest::configfs::{ConfigFs, ConfigFsClient, TsmOp, TsmReportAttribute};
use coco_attest::device::{imds_request_body, quote_from_imds, Device, DeviceOptions, RawReport, ReportStart};
use coco_attest::error::{CocoError, TdxError};
use coco_attest::platform::{
    check_platform, check_tdx_enabled, detect_hypervisor, detect_vendor, hyperv_extra_isolation_checks,
    hyperv_isolation_type, CpuArchitecture, CpuVendor, Hypervisor, HypervIsolationType,
};

fn session_backend(generation: &[u8]) -> ConfigFs {
    ConfigFs::new(ConfigFsClient::new("/tmp/slot".to_string()), generation).unwrap()
}

fn host(configfs: bool, legacy: bool, tpm: bool) -> HostDevices {
    HostDevices { configfs_usable: configfs, sev_legacy_present: legacy, tpm_present: tpm }
}

#[test]
fn out_of_range_privilege_level_is_skipped() {
    let req = ReportRequest { report_data: Some([0u8; 64]), vmpl: Some(5), get_certs: None };
    let plan = ConfigFs::report_plan(&req, [1u8; 64]);
    assert_eq!(plan.len(), 2);
    match &plan[0] {
        TsmOp::Write(TsmReportAttribute::InBlob, data) => assert_eq!(data, &vec![0u8; 64]),
        other => panic!("unexpected first step {:?}", other),
    }
    assert!(matches!(plan[1], TsmOp::Read(TsmReportAttribute::OutBlob)));
}

#[test]
fn full_plan_with_privilege_and_certs() {
    let req = ReportRequest { report_data: None, vmpl: Some(2), get_certs: Some(true) };
    let plan = ConfigFs::report_plan(&req, [3u8; 64]);
    assert_eq!(plan.len(), 4);
    assert!(matches!(&plan[0], TsmOp::Write(TsmReportAttribute::InBlob, d) if d == &vec![3u8; 64]));
    assert!(matches!(&plan[1], TsmOp::Write(TsmReportAttribute::PrivLevel, d) if d == &b"2".to_vec()));
    assert!(matches!(plan[2], TsmOp::Read(TsmReportAttribute::AuxBlob)));
    assert!(matches!(plan[3], TsmOp::Read(TsmReportAttribute::OutBlob)));
}

#[test]
fn session_reads_only_outblob_and_returns_report() {
    let mut backend = session_backend(b"7\n");
    let req = ReportRequest { report_data: Some([0u8; 64]), vmpl: Some(5), get_certs: None };
    let mut session = backend.begin_report(&req);
    assert!(matches!(session.next_op(), Some(TsmOp::Write(TsmReportAttribute::InBlob, _))));
    backend.record_write(&mut session);
    assert_eq!(backend.expected_generation(), 8);
    assert!(matches!(session.next_op(), Some(TsmOp::Read(TsmReportAttribute::OutBlob))));
    backend.record_read(&mut session, vec![0xaa, 0xbb], b"8\n").unwrap();
    assert!(session.next_op().is_none());
    let response = session.into_response().unwrap();
    assert_eq!(response.report, vec![0xaa, 0xbb]);
    assert_eq!(response.certs, None);
}

#[test]
fn session_with_certs() {
    let mut backend = session_backend(b"0");
    let req = ReportRequest { report_data: Some([5u8; 64]), vmpl: Some(0), get_certs: Some(true) };
    let mut session = backend.begin_report(&req);
    backend.record_write(&mut session);
    backend.record_write(&mut session);
    backend.record_read(&mut session, vec![1], b"2").unwrap();
    backend.record_read(&mut session, vec![2], b"2\n").unwrap();
    let response = session.into_response().unwrap();
    assert_eq!(response.certs, Some(vec![1]));
    assert_eq!(response.report, vec![2]);
}

#[test]
fn tampered_generation_fails_without_report() {
    let mut backend = session_backend(b"10\n");
    let req = ReportRequest { report_data: Some([0u8; 64]), vmpl: None, get_certs: None };
    let mut session = backend.begin_report(&req);
    backend.record_write(&mut session);
    let r = backend.record_read(&mut session, vec![0xde, 0xad], b"12\n");
    assert!(matches!(r, Err(CocoError::Firmware(_))));
    assert!(matches!(session.next_op(), Some(TsmOp::Read(TsmReportAttribute::OutBlob))));
    assert!(session.into_response().is_none());
}

#[test]
fn unreadable_generation_is_io_error() {
    let mut backend = session_backend(b"1");
    let req = ReportRequest { report_data: Some([0u8; 64]), vmpl: None, get_certs: None };
    let mut session = backend.begin_report(&req);
    backend.record_write(&mut session);
    let r = backend.record_read(&mut session, vec![1], b"two");
    assert!(matches!(r, Err(CocoError::IO(_))));
}

#[test]
fn random_nonce_when_none_given() {
    let backend = session_backend(b"0");
    let req = ReportRequest { report_data: None, vmpl: None, get_certs: None };
    let session = backend.begin_report(&req);
    assert!(matches!(session.next_op(), Some(TsmOp::Write(TsmReportAttribute::InBlob, d)) if d.len() == 64));
}

#[test]
fn generation_counter_wraps() {
    let mut backend = session_backend(b"4294967295");
    let req = ReportRequest { report_data: Some([0u8; 64]), vmpl: None, get_certs: None };
    let mut session = backend.begin_report(&req);
    backend.record_write(&mut session);
    assert_eq!(backend.expected_generation(), 0);
}

#[test]
fn generation_text_parsing() {
    let client = ConfigFsClient::new("/tmp/slot".to_string());
    assert_eq!(client.read_attribute_u32(b"17\n"), Ok(17));
    assert_eq!(client.read_attribute_u32(b"+5"), Ok(5));
    assert_eq!(client.read_attribute_u32(b"4294967295"), Ok(4294967295));
    assert!(matches!(client.read_attribute_u32(b"4294967296"), Err(CocoError::IO(_))));
    assert!(matches!(client.read_attribute_u32(b""), Err(CocoError::IO(_))));
    assert!(matches!(client.read_attribute_u32(b"+"), Err(CocoError::IO(_))));
    assert!(matches!(client.read_attribute_u32(b"-1"), Err(CocoError::IO(_))));
    assert!(matches!(ConfigFs::new(client, b"x"), Err(CocoError::IO(_))));
}

#[test]
fn attribute_text() {
    let client = ConfigFsClient::new("/tmp/slot".to_string());
    assert_eq!(client.read_attribute_string(b"tdx_guest\n".to_vec()), Ok("tdx_guest\n".to_string()));
    assert!(matches!(client.read_attribute_string(vec![0xff, 0xfe]), Err(CocoError::IO(_))));
    let backend = session_backend(b"0");
    assert_eq!(backend.get_provider(b"sev_guest".to_vec()), Ok("sev_guest".to_string()));
}

#[test]
fn attribute_paths() {
    let client = ConfigFsClient::new("/tmp/slot".to_string());
    assert_eq!(client.attribute_path(&TsmReportAttribute::OutBlob), "/tmp/slot/outblob");
    assert_eq!(client.attribute_path(&TsmReportAttribute::PrivLevelFloor), "/tmp/slot/privlevelfloor");
    assert_eq!(TsmReportAttribute::AuxBlob.to_string(), "auxblob");
    assert_eq!(TsmReportAttribute::Generation.name(), "generation");
    assert_eq!(ConfigFsClient::slot_path(42), "/sys/kernel/config/tsm/report/report-42");
    assert_eq!(ConfigFsClient::slot_path(0), "/sys/kernel/config/tsm/report/report-0");
    assert_eq!(
        ConfigFsClient::slot_path(18446744073709551615),
        "/sys/kernel/config/tsm/report/report-18446744073709551615"
    );
    assert!(ConfigFsClient::new_slot_path().starts_with("/sys/kernel/config/tsm/report/report-"));
}

#[test]
fn probe_priority() {
    assert_eq!(get_device_type(&CpuVendor::Amd, &host(true, true, true)), Ok(CocoDeviceType::ConfigFs));
    assert_eq!(get_device_type(&CpuVendor::Amd, &host(false, true, true)), Ok(CocoDeviceType::Legacy));
    assert_eq!(get_device_type(&CpuVendor::Intel, &host(false, true, true)), Ok(CocoDeviceType::Tpm));
    assert_eq!(get_device_type(&CpuVendor::Intel, &host(false, false, true)), Ok(CocoDeviceType::Tpm));
    assert!(matches!(get_device_type(&CpuVendor::Intel, &host(false, true, false)), Err(CocoError::Firmware(_))));
    assert!(matches!(get_device_type(&CpuVendor::Arm, &host(true, true, true)), Err(CocoError::Firmware(_))));
}

#[test]
fn probe_is_repeatable() {
    let h = host(false, true, true);
    assert_eq!(get_device_type(&CpuVendor::Amd, &h), get_device_type(&CpuVendor::Amd, &h));
}

#[test]
fn tpm_refuses_nonce() {
    let tpm = Tpm::new(CpuVendor::Intel, Hypervisor::HyperV);
    let req = ReportRequest { report_data: Some([1u8; 64]), vmpl: None, get_certs: None };
    assert!(matches!(tpm.check_request(&req), Err(CocoError::ConfigOptions(_))));
    let req = ReportRequest { report_data: None, vmpl: None, get_certs: None };
    assert_eq!(tpm.check_request(&req), Ok(()));
    let response = tpm.report_response(vec![4, 5]);
    assert_eq!((response.certs, response.report), (None, vec![4, 5]));
}

fn tpm_provider() -> coco_attest::coco::CocoProvider {
    construct_coco_provider(
        CocoDeviceType::Tpm,
        CpuArchitecture::X86_64,
        Hypervisor::HyperV,
        CpuVendor::Intel,
        "model".to_string(),
        None,
    )
    .unwrap()
}

#[test]
fn device_on_tpm_rejects_nonce_option() {
    let device = Device::new(DeviceOptions { report_data: Some([0u8; 64]) }, tpm_provider());
    assert!(matches!(device.report_request(), Err(TdxError::ConfigOptions(_))));
    let device = Device::default(tpm_provider());
    let req = device.report_request().unwrap();
    assert!(req.report_data.is_none() && req.vmpl.is_none() && req.get_certs.is_none());
}

#[test]
fn device_on_configfs_passes_nonce() {
    let provider = construct_coco_provider(
        CocoDeviceType::ConfigFs,
        CpuArchitecture::X86_64,
        Hypervisor::Kvm,
        CpuVendor::Intel,
        "model".to_string(),
        Some(session_backend(b"0")),
    )
    .unwrap();
    assert!(matches!(provider.device, CocoDevice::ConfigFs(_)));
    let device = Device::new(DeviceOptions { report_data: Some([9u8; 64]) }, provider);
    let req = device.report_request().unwrap();
    assert_eq!(req.report_data, Some([9u8; 64]));
    let response = coco_attest::coco::ReportResponse { certs: None, report: vec![1, 2] };
    assert!(matches!(device.finish_report(response), RawReport::Quote(q) if q == vec![1, 2]));
}

#[test]
fn tpm_report_goes_to_imds() {
    let device = Device::default(tpm_provider());
    let response = coco_attest::coco::ReportResponse { certs: None, report: b"abc".to_vec() };
    match device.finish_report(response) {
        RawReport::ExchangeWithImds(body) => assert_eq!(body, "{\"report\":\"YWJj\"}"),
        RawReport::Quote(_) => panic!("a TPM report must be exchanged"),
    }
}

#[test]
fn imds_exchange_encoding() {
    assert_eq!(imds_request_body(&[0xfb, 0xff]), "{\"report\":\"-_8\"}");
    assert_eq!(quote_from_imds("YWJj"), Ok(b"abc".to_vec()));
    assert!(matches!(quote_from_imds("***"), Err(TdxError::IO(_))));
}

#[test]
fn legacy_provider_is_refused() {
    let r = construct_coco_provider(
        CocoDeviceType::Legacy,
        CpuArchitecture::X86_64,
        Hypervisor::Kvm,
        CpuVendor::Amd,
        "model".to_string(),
        None,
    );
    assert!(matches!(r, Err(CocoError::Firmware(_))));
}

#[test]
fn privilege_check() {
    assert_eq!(check_privilege(0), Ok(()));
    assert!(matches!(check_privilege(1000), Err(CocoError::Permission(_))));
}

#[test]
fn platform_identification() {
    assert_eq!(detect_vendor(CpuArchitecture::X86_64, (0x756e6547, 0x49656e69, 0x6c65746e)), CpuVendor::Intel);
    assert_eq!(detect_vendor(CpuArchitecture::X86_64, (0x68747541, 0x69746e65, 0x444d4163)), CpuVendor::Amd);
    assert_eq!(detect_vendor(CpuArchitecture::X86_64, (1, 2, 3)), CpuVendor::Unknown);
    assert_eq!(detect_vendor(CpuArchitecture::Aarch64, (0, 0, 0)), CpuVendor::Arm);
    assert_eq!(detect_hypervisor(false, (0, 0, 0)), Ok(Hypervisor::BareMetal));
    assert_eq!(detect_hypervisor(true, (0x4b4d564b, 0x564b4d56, 0x4d)), Ok(Hypervisor::Kvm));
    assert_eq!(detect_hypervisor(true, (0x7263694d, 0x666f736f, 0x76482074)), Ok(Hypervisor::HyperV));
    assert!(matches!(detect_hypervisor(true, (1, 1, 1)), Err(CocoError::Firmware(_))));
}

#[test]
fn hyperv_isolation() {
    assert_eq!(hyperv_isolation_type(1 << 22, 3), HypervIsolationType::Tdx);
    assert_eq!(hyperv_isolation_type(1 << 22, 0x22), HypervIsolationType::Snp);
    assert_eq!(hyperv_isolation_type(0, 3), HypervIsolationType::NoIsolation);
    assert_eq!(hyperv_isolation_type(1 << 22, 9), HypervIsolationType::Unknown);
    assert_eq!(hyperv_extra_isolation_checks(&HypervIsolationType::Tdx, &HypervIsolationType::Tdx), Ok(()));
    assert!(matches!(
        hyperv_extra_isolation_checks(&HypervIsolationType::Snp, &HypervIsolationType::Unknown),
        Err(CocoError::Firmware(_))
    ));
}

#[test]
fn platform_checks() {
    assert_eq!(check_tdx_enabled(0x23, (0x65746e49, 0x5844546c, 0x20202020)), Ok(()));
    assert!(matches!(check_tdx_enabled(0x20, (0x65746e49, 0x5844546c, 0x20202020)), Err(CocoError::Firmware(_))));
    assert_eq!(check_platform(CpuVendor::Intel, Hypervisor::Kvm, HypervIsolationType::NoIsolation, true), Ok(()));
    assert!(matches!(
        check_platform(CpuVendor::Intel, Hypervisor::Kvm, HypervIsolationType::NoIsolation, false),
        Err(CocoError::Firmware(_))
    ));
    assert_eq!(check_platform(CpuVendor::Amd, Hypervisor::HyperV, HypervIsolationType::Snp, false), Ok(()));
    assert!(matches!(
        check_platform(CpuVendor::Intel, Hypervisor::HyperV, HypervIsolationType::Snp, true),
        Err(CocoError::Firmware(_))
    ));
}

#[test]
fn start_report_on_tpm_refuses_nonce_before_device_access() {
    let device = Device::new(DeviceOptions { report_data: Some([0u8; 64]) }, tpm_provider());
    assert!(matches!(device.start_report(), Err(TdxError::ConfigOptions(_))));
    let device = Device::default(tpm_provider());
    assert!(matches!(device.start_report(), Ok(ReportStart::ReadTpm)));
}

#[test]
fn start_report_on_configfs_plans_session() {
    let provider = construct_coco_provider(
        CocoDeviceType::ConfigFs,
        CpuArchitecture::X86_64,
        Hypervisor::Kvm,
        CpuVendor::Intel,
        "model".to_string(),
        Some(session_backend(b"3")),
    )
    .unwrap();
    let device = Device::new(DeviceOptions { report_data: Some([4u8; 64]) }, provider);
    match device.start_report() {
        Ok(ReportStart::ConfigFs(session)) => {
            assert!(matches!(session.next_op(), Some(TsmOp::Write(TsmReportAttribute::InBlob, d)) if d == &vec![4u8; 64]));
        }
        _ => panic!("a configfs provider must start a session"),
    }
}

#[test]
fn arm_is_refused_before_probing() {
    assert!(matches!(check_vendor_supported(&CpuVendor::Arm), Err(CocoError::Firmware(_))));
    assert_eq!(check_vendor_supported(&CpuVendor::Amd), Ok(()));
    assert_eq!(check_vendor_supported(&CpuVendor::Unknown), Ok(()));
}

#[test]
fn provider_backend_must_match_device_type() {
    let r = construct_coco_provider(
        CocoDeviceType::ConfigFs,
        CpuArchitecture::X86_64,
        Hypervisor::Kvm,
        CpuVendor::Intel,
        "model".to_string(),
        None,
    );
    assert!(matches!(r, Err(CocoError::Firmware(_))));
    let r = construct_coco_provider(
        CocoDeviceType::Tpm,
        CpuArchitecture::X86_64,
        Hypervisor::HyperV,
        CpuVendor::Intel,
        "model".to_string(),
        Some(session_backend(b"0")),
    );
    assert!(matches!(r, Err(CocoError::Firmware(_))));
}

#[test]
fn tamper_check_on_its_own() {
    let backend = session_backend(b"5\n");
    assert_eq!(backend.check_tampering(b"5"), Ok(()));
    assert!(matches!(backend.check_tampering(b"6"), Err(CocoError::Firmware(_))));
    assert!(matches!(backend.check_tampering(b"x"), Err(CocoError::IO(_))));
    assert_eq!(backend.read_attribute(vec![1, 2], b"5\n"), Ok(vec![1, 2]));
    assert!(matches!(backend.read_attribute(vec![1, 2], b"4"), Err(CocoError::Firmware(_))));
}
