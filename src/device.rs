//! The attestation front end: builds the report request for the provider's
//! backend and turns the backend's response into a quote.

use vstd::prelude::*;

use crate::coco::{CocoDevice, CocoDeviceType, CocoProvider, ReportRequest, ReportResponse};
use crate::configfs::{report_plan_of, ReportSession};
use crate::error::CocoError;
use crate::encoding::{base64url_decode, base64url_decoded, base64url_encode, base64url_of};
use crate::error::TdxError;
use crate::random::random_report_data;

verus! {

/// Where a TPM report is exchanged for a signed quote (Azure IMDS).
pub const IMDS_QUOTE_URL: &'static str = "http://169.254.169.254/acc/tdquote";

/// Options of a report request.
pub struct DeviceOptions {
    /// 64 bytes to bind into the report, a nonce. Only for configfs and
    /// legacy devices: on a TPM the platform provides the data. Random
    /// bytes are drawn where none are given.
    pub report_data: Option<[u8; 64]>,
}

/// A provider, and the options to request reports with.
pub struct Device {
    pub options: DeviceOptions,
    pub provider: CocoProvider,
}

/// What is left to do once the backend has answered.
pub enum RawReport {
    /// The quote itself.
    Quote(Vec<u8>),
    /// A TPM report, to be posted to the IMDS with this JSON body; the quote
    /// is in its answer.
    ExchangeWithImds(String),
}

/// The first step of a report request, decided before any device access.
pub enum ReportStart {
    /// Run this session on the configfs slot.
    ConfigFs(ReportSession),
    /// Read the TPM-resident report.
    ReadTpm,
}

/// JSON body that asks the IMDS for the quote of a TD report.
pub open spec fn imds_body_of(td_report: Seq<u8>) -> Seq<char> {
    "{\"report\":\""@ + base64url_of(td_report) + "\"}"@
}

impl Device {
    /// A device with default options.
    pub fn default(provider: CocoProvider) -> (r: Self)
        ensures
            r.options.report_data is None,
            r.provider == provider,
    {
        Device { options: DeviceOptions { report_data: None }, provider }
    }

    pub fn new(options: DeviceOptions, provider: CocoProvider) -> (r: Self)
        ensures
            r.options == options,
            r.provider == provider,
    {
        Device { options, provider }
    }

    /// The request to send to the backend. A TPM takes no nonce: one given
    /// in the options is a `ConfigOptions` error. Other backends get the
    /// given nonce, else 64 random bytes.
    pub fn report_request(&self) -> (r: Result<ReportRequest, TdxError>)
        ensures
            self.provider.device_type == CocoDeviceType::Tpm ==> {
                &&& self.options.report_data is Some ==> (r matches Err(TdxError::ConfigOptions(_)))
                &&& self.options.report_data is None ==> r == Ok::<ReportRequest, TdxError>(
                    ReportRequest { report_data: None, vmpl: None, get_certs: None },
                )
            },
            self.provider.device_type != CocoDeviceType::Tpm ==> (r matches Ok(req) && {
                &&& req.report_data is Some
                &&& self.options.report_data is Some ==> req.report_data == self.options.report_data
                &&& req.vmpl is None
                &&& req.get_certs is None
            }),
    {
        let report_data = match self.provider.device_type {
            CocoDeviceType::Tpm => {
                if self.options.report_data.is_some() {
                    return Err(TdxError::ConfigOptions("report_data cannot be provided for TPM!".to_string()));
                }
                None
            },
            _ => match self.options.report_data {
                Some(d) => Some(d),
                None => Some(random_report_data()),
            },
        };
        Ok(ReportRequest { report_data, vmpl: None, get_certs: None })
    }

    /// Builds and checks the request and decides the first step of the
    /// report, before any device access: a nonce on a TPM fails here with
    /// `ConfigOptions`, so no device is touched.
    pub fn start_report(&self) -> (r: Result<ReportStart, TdxError>)
        ensures
            self.provider.device is Tpm && self.options.report_data is Some ==> (r matches Err(
                TdxError::ConfigOptions(_),
            )),
            self.provider.device_type == CocoDeviceType::Tpm && self.options.report_data is Some ==> (r matches Err(
                TdxError::ConfigOptions(_),
            )),
            self.provider.device is Tpm && self.provider.device_type == CocoDeviceType::Tpm
                && self.options.report_data is None ==> r matches Ok(ReportStart::ReadTpm),
            self.provider.device is ConfigFs && self.provider.device_type != CocoDeviceType::Tpm ==> (r matches Ok(
                ReportStart::ConfigFs(s),
            ) && {
                &&& s.wf()
                &&& s.position() == 0
                &&& s.certs() is None
                &&& s.report() is None
                &&& exists|fresh: [u8; 64]|
                    s.ops() == report_plan_of(
                        ReportRequest { report_data: Some(fresh), vmpl: None, get_certs: None },
                        fresh@,
                    )
                &&& self.options.report_data matches Some(d) ==> s.ops() == report_plan_of(
                    ReportRequest { report_data: Some(d), vmpl: None, get_certs: None },
                    d@,
                )
            }),
            r matches Ok(ReportStart::ReadTpm) ==> self.provider.device is Tpm,
            r matches Ok(ReportStart::ConfigFs(_)) ==> self.provider.device is ConfigFs,
    {
        let req = self.report_request()?;
        match &self.provider.device {
            CocoDevice::ConfigFs(backend) => {
                let session = backend.begin_report(&req);
                Ok(ReportStart::ConfigFs(session))
            },
            CocoDevice::Tpm(tpm) => match tpm.check_request(&req) {
                Ok(()) => Ok(ReportStart::ReadTpm),
                Err(CocoError::ConfigOptions(m)) => Err(TdxError::ConfigOptions(m)),
                Err(_) => Err(TdxError::Unknown),
            },
        }
    }

    /// What the backend's response leaves to do: a TPM report still has to
    /// be exchanged for a signed quote; any other report is the quote.
    pub fn finish_report(&self, response: ReportResponse) -> (r: RawReport)
        ensures
            self.provider.device_type == CocoDeviceType::Tpm ==> (r matches RawReport::ExchangeWithImds(body)
                && body@ == imds_body_of(response.report@)),
            self.provider.device_type != CocoDeviceType::Tpm ==> (r matches RawReport::Quote(q) && q@ == response.report@),
    {
        match self.provider.device_type {
            CocoDeviceType::Tpm => RawReport::ExchangeWithImds(imds_request_body(&response.report)),
            _ => RawReport::Quote(response.report),
        }
    }
}

/// The JSON body `{"report":"<base64url of the TD report>"}`.
pub fn imds_request_body(td_report: &[u8]) -> (r: String)
    ensures
        r@ == imds_body_of(td_report@),
{
    let encoded = base64url_encode(td_report);
    "{\"report\":\"".to_string().concat(encoded.as_str()).concat("\"}")
}

/// The quote from the `quote` field of the IMDS answer (base64url).
pub fn quote_from_imds(quote: &str) -> (r: Result<Vec<u8>, TdxError>)
    ensures
        match base64url_decoded(quote@) {
            Some(b) => r matches Ok(v) && v@ == b,
            None => r matches Err(TdxError::IO(_)),
        },
{
    match base64url_decode(quote) {
        Ok(v) => Ok(v),
        Err(_) => Err(TdxError::IO("quote is not valid base64url".to_string())),
    }
}

} // verus!
