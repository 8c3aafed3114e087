//! The unified (configfs TSM) report interface: a report slot whose
//! attributes are files, guarded by the kernel's generation counter.
//!
//! The file I/O stays with the caller. A [`ConfigFs`] says which attribute to
//! write or read next, and is told what each step did; it counts every write
//! and refuses any read after which the kernel's generation is not the one
//! its own writes account for.

use vstd::prelude::*;

use crate::coco::{ReportRequest, ReportResponse, CONFIGFS_BASE_PATH};
use crate::error::CocoError;
use crate::random::{random_report_data, random_u64};
use crate::text::{decimal_of, decimal_string, parse_u32, strip_newlines, u32_of_text, utf8_string, without_newlines};
use vstd::utf8::{decode_utf8, valid_utf8};

verus! {

/// An attribute of a report slot.
#[derive(Debug, Clone, Copy, PartialEq, Eq, Structural)]
pub enum TsmReportAttribute {
    /// Read only. Only for AMD. Holds certs.
    AuxBlob,
    /// Write only.
    InBlob,
    /// Read only.
    OutBlob,
    /// Read only.
    Generation,
    /// Write only. Only for AMD.
    PrivLevel,
    /// Read only.
    PrivLevelFloor,
    /// Read only.
    Provider,
}

/// The file name of an attribute: its name in lower case.
pub open spec fn attribute_name(a: TsmReportAttribute) -> Seq<char> {
    match a {
        TsmReportAttribute::AuxBlob => "auxblob"@,
        TsmReportAttribute::InBlob => "inblob"@,
        TsmReportAttribute::OutBlob => "outblob"@,
        TsmReportAttribute::Generation => "generation"@,
        TsmReportAttribute::PrivLevel => "privlevel"@,
        TsmReportAttribute::PrivLevelFloor => "privlevelfloor"@,
        TsmReportAttribute::Provider => "provider"@,
    }
}

impl TsmReportAttribute {
    /// The attribute's file name.
    pub fn name(&self) -> (r: &'static str)
        ensures
            r@ == attribute_name(*self),
    {
        match self {
            TsmReportAttribute::AuxBlob => "auxblob",
            TsmReportAttribute::InBlob => "inblob",
            TsmReportAttribute::OutBlob => "outblob",
            TsmReportAttribute::Generation => "generation",
            TsmReportAttribute::PrivLevel => "privlevel",
            TsmReportAttribute::PrivLevelFloor => "privlevelfloor",
            TsmReportAttribute::Provider => "provider",
        }
    }

    /// The attribute's file name, owned.
    pub fn to_string(&self) -> (r: String)
        ensures
            r@ == attribute_name(*self),
    {
        self.name().to_string()
    }
}

/// The value that a generation attribute's text stands for: a decimal `u32`
/// once newlines are taken out.
pub open spec fn generation_value(text: Seq<u8>) -> Option<u32> {
    u32_of_text(without_newlines(text))
}

/// The path of the report slot with suffix `n`.
pub open spec fn slot_path_of(n: u64) -> Seq<char> {
    "/sys/kernel/config/tsm/report"@ + "/report-"@ + decimal_of(n as nat)
}

/// The path of one report slot (a directory under the configfs base).
pub struct ConfigFsClient {
    device_path: String,
}

impl ConfigFsClient {
    pub closed spec fn path(&self) -> Seq<char> {
        self.device_path@
    }

    /// A client of the slot at `device_path`; the caller creates the
    /// directory.
    pub fn new(device_path: String) -> (r: Self)
        ensures
            r.path() == device_path@,
    {
        ConfigFsClient { device_path }
    }

    /// The path of a fresh slot: the base path and a random suffix.
    pub fn new_slot_path() -> (r: String)
        ensures
            exists|n: u64| r@ == slot_path_of(n),
    {
        Self::slot_path(random_u64())
    }

    /// The path of the slot with suffix `n`.
    pub fn slot_path(n: u64) -> (r: String)
        ensures
            r@ == slot_path_of(n),
    {
        let s = CONFIGFS_BASE_PATH.to_string().concat("/report-").concat(decimal_string(n).as_str());
        proof {
            reveal_strlit("/sys/kernel/config/tsm/report");
        }
        assert(CONFIGFS_BASE_PATH@ == "/sys/kernel/config/tsm/report"@);
        s
    }

    /// The slot's directory.
    pub fn device_path(&self) -> (r: &str)
        ensures
            r@ == self.path(),
    {
        self.device_path.as_str()
    }

    /// The file of an attribute: `<slot>/<name>`.
    pub fn attribute_path(&self, attribute: &TsmReportAttribute) -> (r: String)
        ensures
            r@ == self.path() + "/"@ + attribute_name(*attribute),
    {
        self.device_path.clone().concat("/").concat(attribute.name())
    }

    /// Reads the contents of an attribute as text.
    pub fn read_attribute_string(&self, contents: Vec<u8>) -> (r: Result<String, CocoError>)
        ensures
            valid_utf8(contents@) ==> (r matches Ok(s) && s@ == decode_utf8(contents@)),
            !valid_utf8(contents@) ==> r matches Err(CocoError::IO(_)),
    {
        match utf8_string(contents) {
            Ok(s) => Ok(s),
            Err(_) => Err(CocoError::IO("attribute is not valid UTF-8".to_string())),
        }
    }

    /// Reads the contents of an attribute as a decimal `u32`, newlines
    /// ignored; any other text is an I/O error.
    pub fn read_attribute_u32(&self, contents: &[u8]) -> (r: Result<u32, CocoError>)
        ensures
            match generation_value(contents@) {
                Some(n) => r == Ok::<u32, CocoError>(n),
                None => r matches Err(CocoError::IO(_)),
            },
    {
        let digits = strip_newlines(contents);
        match parse_u32(digits.as_slice()) {
            Some(n) => Ok(n),
            None => Err(CocoError::IO("attribute is not a decimal u32".to_string())),
        }
    }
}

/// One step of a report request on a slot.
#[derive(Debug)]
pub enum TsmOp {
    /// Write these bytes to the attribute.
    Write(TsmReportAttribute, Vec<u8>),
    /// Read the attribute, then the generation attribute.
    Read(TsmReportAttribute),
}

/// A step as a value.
pub enum TsmOpView {
    Write(TsmReportAttribute, Seq<u8>),
    Read(TsmReportAttribute),
}

impl View for TsmOp {
    type V = TsmOpView;

    open spec fn view(&self) -> TsmOpView {
        match self {
            TsmOp::Write(a, d) => TsmOpView::Write(*a, d@),
            TsmOp::Read(a) => TsmOpView::Read(*a),
        }
    }
}

/// Whether a request asks for the privilege level to be written: only a
/// level from 0 to 3; any other is skipped.
pub open spec fn writes_priv_level(req: ReportRequest) -> bool {
    match req.vmpl {
        Some(v) => v <= 3,
        None => false,
    }
}

/// The steps of a request, in order: the nonce (the request's own, else
/// `fresh`) into `inblob`; the privilege level as decimal text, where it is
/// from 0 to 3; `auxblob` where certificates are asked for; `outblob`.
pub open spec fn report_plan_of(req: ReportRequest, fresh: Seq<u8>) -> Seq<TsmOpView> {
    let nonce = match req.report_data {
        Some(d) => d@,
        None => fresh,
    };
    seq![TsmOpView::Write(TsmReportAttribute::InBlob, nonce)] + (if writes_priv_level(req) {
        seq![TsmOpView::Write(TsmReportAttribute::PrivLevel, seq![(48 + req.vmpl.unwrap()) as u8])]
    } else {
        seq![]
    }) + (if req.get_certs == Some(true) {
        seq![TsmOpView::Read(TsmReportAttribute::AuxBlob)]
    } else {
        seq![]
    }) + seq![TsmOpView::Read(TsmReportAttribute::OutBlob)]
}

/// The generation after one more write: the kernel's counter is 32 bits
/// wide and wraps.
pub open spec fn next_generation(g: u32) -> u32 {
    if g == u32::MAX {
        0
    } else {
        (g + 1) as u32
    }
}

/// The output blob is read last, and only then.
pub open spec fn outblob_last(ops: Seq<TsmOpView>) -> bool {
    &&& ops.len() >= 1
    &&& ops.last() == TsmOpView::Read(TsmReportAttribute::OutBlob)
    &&& forall|i: int| 0 <= i < ops.len() - 1 ==> #[trigger] ops[i] != TsmOpView::Read(TsmReportAttribute::OutBlob)
}

/// A report request in progress: its steps, how many are done, and the
/// blobs read so far.
pub struct ReportSession {
    plan: Vec<TsmOp>,
    next: usize,
    certs: Option<Vec<u8>>,
    report: Option<Vec<u8>>,
}

pub open spec fn blob_view(b: Option<Vec<u8>>) -> Option<Seq<u8>> {
    match b {
        Some(v) => Some(v@),
        None => None,
    }
}

impl ReportSession {
    pub closed spec fn ops(&self) -> Seq<TsmOpView> {
        self.plan@.map_values(|o: TsmOp| o@)
    }

    /// How many steps are done.
    pub closed spec fn position(&self) -> nat {
        self.next as nat
    }

    pub closed spec fn certs(&self) -> Option<Seq<u8>> {
        blob_view(self.certs)
    }

    pub closed spec fn report(&self) -> Option<Seq<u8>> {
        blob_view(self.report)
    }

    /// The steps end with the output blob, and the report is there only
    /// once every step is done.
    pub closed spec fn wf(&self) -> bool {
        &&& self.next <= self.plan@.len() <= 4
        &&& outblob_last(self.ops())
        &&& self.report is Some ==> self.next == self.plan@.len()
    }

    /// The next step, or none once all are done.
    pub fn next_op(&self) -> (r: Option<&TsmOp>)
        requires
            self.wf(),
        ensures
            self.position() < self.ops().len() ==> (r matches Some(o) && o@ == self.ops()[self.position() as int]),
            self.position() >= self.ops().len() ==> r is None,
    {
        if self.next < self.plan.len() {
            Some(&self.plan[self.next])
        } else {
            None
        }
    }

    /// The response, once the report has been read.
    pub fn into_response(self) -> (r: Option<ReportResponse>)
        ensures
            match self.report() {
                Some(rep) => r matches Some(x) && x.report@ == rep && blob_view(x.certs) == self.certs(),
                None => r is None,
            },
    {
        match self.report {
            Some(report) => Some(ReportResponse { certs: self.certs, report }),
            None => None,
        }
    }
}

/// The unified-interface backend: a report slot, and the generation that
/// the kernel must report if nobody but this backend wrote to the slot.
pub struct ConfigFs {
    client: ConfigFsClient,
    /// Expected generation number, counted up on every write.
    expected_generation: u32,
}

impl ConfigFs {
    pub closed spec fn expected(&self) -> u32 {
        self.expected_generation
    }

    pub closed spec fn slot(&self) -> Seq<char> {
        self.client.path()
    }

    /// The backend for a slot that the caller created, with the generation
    /// text read from it right after.
    pub fn new(client: ConfigFsClient, generation: &[u8]) -> (r: Result<Self, CocoError>)
        ensures
            match generation_value(generation@) {
                Some(g) => r matches Ok(c) && c.expected() == g && c.slot() == client.path(),
                None => r matches Err(CocoError::IO(_)),
            },
    {
        let expected_generation = client.read_attribute_u32(generation)?;
        Ok(ConfigFs { client, expected_generation })
    }

    /// The slot.
    pub fn client(&self) -> (r: &ConfigFsClient)
        ensures
            r.path() == self.slot(),
    {
        &self.client
    }

    /// The generation the next read must see.
    pub fn expected_generation(&self) -> (r: u32)
        ensures
            r == self.expected(),
    {
        self.expected_generation
    }

    /// The provider of the report (`tdx_guest`, `sev_guest`, ...), from the
    /// contents of the `provider` attribute.
    pub fn get_provider(&self, contents: Vec<u8>) -> (r: Result<String, CocoError>)
        ensures
            valid_utf8(contents@) ==> (r matches Ok(s) && s@ == decode_utf8(contents@)),
            !valid_utf8(contents@) ==> r matches Err(CocoError::IO(_)),
    {
        self.client.read_attribute_string(contents)
    }

    /// Counts a successful write.
    fn write_attribute(&mut self)
        ensures
            final(self).expected() == next_generation(old(self).expected()),
            final(self).slot() == old(self).slot(),
    {
        if self.expected_generation == u32::MAX {
            self.expected_generation = 0;
        } else {
            self.expected_generation = self.expected_generation + 1;
        }
    }

    /// Compares the generation text read from the slot with the expected
    /// generation: a mismatch means that someone else wrote to the slot.
    pub fn check_tampering(&self, generation: &[u8]) -> (r: Result<(), CocoError>)
        ensures
            generation_value(generation@) == Some(self.expected()) ==> r is Ok,
            generation_value(generation@) is None ==> r matches Err(CocoError::IO(_)),
            (generation_value(generation@) matches Some(g) && g != self.expected()) ==> r matches Err(CocoError::Firmware(_)),
    {
        let gen = self.client.read_attribute_u32(generation)?;
        if self.expected_generation != gen {
            return Err(CocoError::Firmware("Generation number mismatch".to_string()));
        }
        Ok(())
    }

    /// The contents of a read, trusted only where the generation read right
    /// after it is the expected one.
    pub fn read_attribute(&self, contents: Vec<u8>, generation: &[u8]) -> (r: Result<Vec<u8>, CocoError>)
        ensures
            generation_value(generation@) == Some(self.expected()) ==> (r matches Ok(v) && v@ == contents@),
            generation_value(generation@) is None ==> r matches Err(CocoError::IO(_)),
            (generation_value(generation@) matches Some(g) && g != self.expected()) ==> r matches Err(CocoError::Firmware(_)),
    {
        self.check_tampering(generation)?;
        Ok(contents)
    }

    /// The steps of a request, with `fresh` as the nonce where the request
    /// brings none.
    pub fn report_plan(req: &ReportRequest, fresh: [u8; 64]) -> (r: Vec<TsmOp>)
        ensures
            r@.map_values(|o: TsmOp| o@) == report_plan_of(*req, fresh@),
            r@.len() <= 4,
            outblob_last(report_plan_of(*req, fresh@)),
    {
        let nonce: [u8; 64] = match req.report_data {
            Some(d) => d,
            None => fresh,
        };
        let mut plan: Vec<TsmOp> = Vec::new();
        plan.push(TsmOp::Write(TsmReportAttribute::InBlob, vstd::slice::slice_to_vec(&nonce)));
        let ghost mut expect = seq![TsmOpView::Write(TsmReportAttribute::InBlob, nonce@)];
        assert(plan@.map_values(|o: TsmOp| o@) =~= expect);
        if let Some(level) = req.vmpl {
            if level <= 3 {
                let mut text: Vec<u8> = Vec::new();
                text.push((48 + level) as u8);
                plan.push(TsmOp::Write(TsmReportAttribute::PrivLevel, text));
                proof {
                    expect = expect.push(TsmOpView::Write(TsmReportAttribute::PrivLevel, seq![(48 + level) as u8]));
                }
                assert(plan@.map_values(|o: TsmOp| o@) =~= expect);
            }
        }
        if let Some(true) = req.get_certs {
            plan.push(TsmOp::Read(TsmReportAttribute::AuxBlob));
            proof {
                expect = expect.push(TsmOpView::Read(TsmReportAttribute::AuxBlob));
            }
            assert(plan@.map_values(|o: TsmOp| o@) =~= expect);
        }
        plan.push(TsmOp::Read(TsmReportAttribute::OutBlob));
        proof {
            expect = expect.push(TsmOpView::Read(TsmReportAttribute::OutBlob));
        }
        assert(plan@.map_values(|o: TsmOp| o@) =~= expect);
        assert(expect =~= report_plan_of(*req, fresh@));
        assert(outblob_last(expect));
        plan
    }

    /// Starts a report request: the nonce is the request's, else 64 random
    /// bytes.
    pub fn begin_report(&self, req: &ReportRequest) -> (r: ReportSession)
        ensures
            r.wf(),
            r.position() == 0,
            r.certs() is None,
            r.report() is None,
            exists|fresh: [u8; 64]| r.ops() == report_plan_of(*req, fresh@),
    {
        let fresh = match req.report_data {
            Some(d) => d,
            None => random_report_data(),
        };
        let plan = Self::report_plan(req, fresh);
        ReportSession { plan, next: 0, certs: None, report: None }
    }

    /// Records that the pending write succeeded.
    pub fn record_write(&mut self, session: &mut ReportSession)
        requires
            old(session).wf(),
            old(session).position() < old(session).ops().len(),
            old(session).ops()[old(session).position() as int] is Write,
        ensures
            final(self).expected() == next_generation(old(self).expected()),
            final(self).slot() == old(self).slot(),
            final(session).wf(),
            final(session).ops() == old(session).ops(),
            final(session).position() == old(session).position() + 1,
            final(session).certs() == old(session).certs(),
            final(session).report() == old(session).report(),
    {
        self.write_attribute();
        session.next = session.next + 1;
    }

    /// Records the pending read: the attribute's contents and the generation
    /// text read right after. Where the generation is not the expected one the
    /// read fails, and the session keeps nothing of it.
    pub fn record_read(&self, session: &mut ReportSession, contents: Vec<u8>, generation: &[u8]) -> (r: Result<(), CocoError>)
        requires
            old(session).wf(),
            old(session).position() < old(session).ops().len(),
            old(session).ops()[old(session).position() as int] is Read,
        ensures
            generation_value(generation@) is None ==> r matches Err(CocoError::IO(_)),
            (generation_value(generation@) matches Some(g) && g != self.expected()) ==> r matches Err(CocoError::Firmware(_)),
            r is Err ==> *final(session) == *old(session),
            r is Err ==> final(session).report() is None,
            generation_value(generation@) == Some(self.expected()) ==> {
                &&& r is Ok
                &&& final(session).wf()
                &&& final(session).ops() == old(session).ops()
                &&& final(session).position() == old(session).position() + 1
                &&& match old(session).ops()[old(session).position() as int] {
                    TsmOpView::Read(TsmReportAttribute::AuxBlob) => final(session).certs() == Some(contents@)
                        && final(session).report() == old(session).report(),
                    TsmOpView::Read(TsmReportAttribute::OutBlob) => final(session).report() == Some(contents@)
                        && final(session).certs() == old(session).certs(),
                    _ => final(session).certs() == old(session).certs()
                        && final(session).report() == old(session).report(),
                }
            },
    {
        let ghost op = session.ops()[session.position() as int];
        let attribute = match &session.plan[session.next] {
            TsmOp::Read(a) => *a,
            TsmOp::Write(a, _) => *a,
        };
        assert(op == session.plan@[session.next as int]@);
        let blob = self.read_attribute(contents, generation)?;
        match attribute {
            TsmReportAttribute::AuxBlob => {
                session.certs = Some(blob);
            },
            TsmReportAttribute::OutBlob => {
                session.report = Some(blob);
            },
            _ => {},
        }
        session.next = session.next + 1;
        Ok(())
    }
}

} // verus!
