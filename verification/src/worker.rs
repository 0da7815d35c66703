//! The worker's protocol session: its options, the framing of input lines,
//! the request envelope, the hello handshake, and the slots of the
//! filesystem work it runs.
use vstd::prelude::*;
use vstd::utf8::{decode_utf8, encode_scalar, encode_utf8, valid_utf8};
use vstd::string::StringSliceAdditionalSpecFns;
use crate::failure::{failure, str_equals, string_from, DetailValue, DetailView, FailureView, ProtocolFailure};
use crate::text::{trim_chars, chars_of, trim_spec};
use crate::validate::{option_view, MAXIMUM_FRAME_BYTES, PROTOCOL_VERSION};

verus! {

/// I/O errors of the standard library.
#[verifier::external_type_specification]
#[verifier::external_body]
pub struct ExIoError(std::io::Error);

/// Why the worker stopped serving its input.
#[derive(Debug)]
pub enum WorkerError {
    Io(std::io::Error),
    FatalProtocol(String),
    Startup(String),
}

/// The text every I/O error's message starts with.
pub open spec fn io_error_prefix() -> Seq<char> {
    "I/O error: "@
}

impl WorkerError {
    /// The error's text, as the worker reports it.
    pub fn message(&self) -> (r: String)
        ensures
            self matches WorkerError::FatalProtocol(m) ==> r@ == m@,
            self matches WorkerError::Startup(m) ==> r@ == m@,
            self is Io ==> io_error_prefix().is_prefix_of(r@),
    {
        match self {
            WorkerError::Io(e) => {
                let mut text = string_from("I/O error: ");
                let description = io_error_text(e);
                text.append(description.as_str());
                proof {
                    reveal_strlit("I/O error: ");
                }
                text
            },
            WorkerError::FatalProtocol(m) => m.clone(),
            WorkerError::Startup(m) => m.clone(),
        }
    }
}

/// The `Display` text of an `io::Error`: the operating system's
/// description of it, which is not stated.
#[verifier::external_body]
fn io_error_text(e: &std::io::Error) -> String {
    e.to_string()
}

/// What `Path::parent` gives for a path: the path without its last
/// component, or `None` for a root or an empty path.
pub uninterp spec fn path_parent(path: Seq<char>) -> Option<Seq<char>>;

/// `Path::parent` of a path held as text.
#[verifier::external_body]
pub(crate) fn parent_of(path: &str) -> (r: Option<String>)
    ensures
        option_view(r) == path_parent(path@),
{
    match std::path::Path::new(path).parent() {
        Some(p) => Some(p.to_string_lossy().into_owned()),
        None => None,
    }
}

/// What `Path::join` gives for a base path and a path to append.
pub uninterp spec fn path_join(base: Seq<char>, rest: Seq<char>) -> Seq<char>;

/// `Path::join` of paths held as text.
#[verifier::external_body]
pub(crate) fn join_path(base: &str, rest: &str) -> (r: String)
    ensures
        r@ == path_join(base@, rest@),
{
    std::path::Path::new(base).join(rest).to_string_lossy().into_owned()
}

/// Where the worker keeps its product database, its scan-status database
/// and, optionally, its diagnostic log.
#[derive(Debug, Clone)]
pub struct WorkerOptions {
    pub database_path: String,
    pub status_database_path: String,
    pub diagnostic_log_path: Option<String>,
}

/// The status database sits beside the product database: in its parent
/// directory, or in `.` when the path has none.
pub open spec fn default_status_path(database_path: Seq<char>) -> Seq<char> {
    path_join(
        match path_parent(database_path) {
            Some(p) => p,
            None => "."@,
        },
        "scan_status.db"@,
    )
}

impl WorkerOptions {
    /// Options for a product database, with the status database beside it
    /// and no diagnostic log.
    pub fn new(database_path: &str) -> (r: WorkerOptions)
        ensures
            r.database_path@ == database_path@,
            r.status_database_path@ == default_status_path(database_path@),
            r.diagnostic_log_path is None,
    {
        let directory = match parent_of(database_path) {
            Some(p) => p,
            None => string_from("."),
        };
        let status_database_path = join_path(directory.as_str(), "scan_status.db");
        WorkerOptions { database_path: string_from(database_path), status_database_path, diagnostic_log_path: None }
    }

    /// The same options with another status database.
    pub fn with_status_database_path(self, path: &str) -> (r: WorkerOptions)
        ensures
            r.database_path == self.database_path,
            r.status_database_path@ == path@,
            r.diagnostic_log_path == self.diagnostic_log_path,
    {
        WorkerOptions { status_database_path: string_from(path), ..self }
    }

    /// The same options with a diagnostic log.
    pub fn with_diagnostic_log_path(self, path: &str) -> (r: WorkerOptions)
        ensures
            r.database_path == self.database_path,
            r.status_database_path == self.status_database_path,
            option_view(r.diagnostic_log_path) == Some(path@),
    {
        WorkerOptions { diagnostic_log_path: Some(string_from(path)), ..self }
    }
}

/// What `str::from_utf8` reports for bytes that are not UTF-8.
pub uninterp spec fn utf8_error_text(bytes: Seq<u8>) -> Seq<char>;

/// `std::str::from_utf8`: the text the bytes encode when they are valid
/// UTF-8, else the error's description.
#[verifier::external_body]
fn text_from_utf8(bytes: &[u8]) -> (r: Result<String, String>)
    ensures
        r is Ok <==> valid_utf8(bytes@),
        r matches Ok(t) ==> t@ == decode_utf8(bytes@),
        r matches Err(e) ==> e@ == utf8_error_text(bytes@),
{
    match std::str::from_utf8(bytes) {
        Ok(t) => Ok(t.to_owned()),
        Err(e) => Err(e.to_string()),
    }
}

/// The bytes of a line without its `\n` terminator and a `\r` before it.
pub open spec fn frame_body(bytes: Seq<u8>) -> Seq<u8> {
    if bytes.len() > 0 && bytes.last() == 10 {
        let b = bytes.drop_last();
        if b.len() > 0 && b.last() == 13 {
            b.drop_last()
        } else {
            b
        }
    } else {
        bytes
    }
}

pub open spec fn fatal(e: WorkerError, message: Seq<char>) -> bool {
    e matches WorkerError::FatalProtocol(m) && m@ == message
}

/// Reads one protocol frame out of the bytes read up to and including the
/// next `\n` (at most the frame limit and two bytes more): no bytes mean the
/// input ended; a frame must end in `\n` (a `\r` before it is dropped), fit
/// the frame limit, and be UTF-8.
pub fn decode_frame(bytes: Vec<u8>) -> (r: Result<Option<String>, WorkerError>)
    ensures
        bytes@.len() == 0 ==> r matches Ok(None),
        bytes@.len() > 0 ==> {
            let body = frame_body(bytes@);
            let terminated = bytes@.last() == 10;
            if body.len() > MAXIMUM_FRAME_BYTES {
                r matches Err(e) && fatal(e, "input frame exceeds 1048576 bytes"@)
            } else if !terminated {
                r matches Err(e) && fatal(e, "input ended with a partial protocol frame"@)
            } else if !valid_utf8(body) {
                r matches Err(e) && fatal(e, "input frame is not valid UTF-8: "@ + utf8_error_text(body))
            } else {
                r matches Ok(Some(line)) && line@ == decode_utf8(body)
            }
        },
{
    if bytes.len() == 0 {
        return Ok(None);
    }
    let mut frame = bytes;
    let ghost received = frame@;
    let terminated = frame[frame.len() - 1] == 10u8;
    if terminated {
        frame.pop();
        if frame.len() > 0 && frame[frame.len() - 1] == 13u8 {
            frame.pop();
        }
    }
    assert(frame@ =~= frame_body(received));
    if frame.len() > MAXIMUM_FRAME_BYTES {
        return Err(WorkerError::FatalProtocol(string_from("input frame exceeds 1048576 bytes")));
    }
    if !terminated {
        return Err(WorkerError::FatalProtocol(string_from("input ended with a partial protocol frame")));
    }
    match text_from_utf8(frame.as_slice()) {
        Ok(line) => Ok(Some(line)),
        Err(e) => {
            let mut message = string_from("input frame is not valid UTF-8: ");
            message.append(e.as_str());
            Err(WorkerError::FatalProtocol(message))
        },
    }
}

/// A line handed to the session must hold something and fit the frame
/// limit, counted in bytes.
pub fn check_frame(line: &str) -> (r: Result<(), WorkerError>)
    ensures
        line@.len() == 0 ==> (r matches Err(e) && fatal(e, "received an empty protocol frame"@)),
        line@.len() > 0 && encode_utf8(line@).len() > MAXIMUM_FRAME_BYTES ==> (r matches Err(e) && fatal(
            e,
            "input frame exceeds 1048576 bytes"@,
        )),
        line@.len() > 0 && encode_utf8(line@).len() <= MAXIMUM_FRAME_BYTES ==> r is Ok,
{
    assert(line.spec_bytes() == encode_utf8(line@));
    if line.is_empty() {
        return Err(WorkerError::FatalProtocol(string_from("received an empty protocol frame")));
    }
    if line.as_bytes().len() > MAXIMUM_FRAME_BYTES {
        return Err(WorkerError::FatalProtocol(string_from("input frame exceeds 1048576 bytes")));
    }
    Ok(())
}

/// The fields of a request envelope that the session checks.
#[derive(Debug, Clone)]
pub struct RequestEnvelope {
    pub message_type: String,
    pub id: String,
    pub method: String,
    pub params_is_object: bool,
}

pub open spec fn envelope_acceptable(e: RequestEnvelope) -> bool {
    e.message_type@ == "request"@ && e.id@.len() > 0 && e.method@.len() > 0 && e.params_is_object
}

pub open spec fn envelope_failure() -> FailureView {
    failure("invalid_request"@, "Expected a request with non-empty id/method and object params"@, seq![])
}

/// A request names itself `request`, has an id and a method, and carries
/// its parameters as an object.
pub fn validate_envelope(e: &RequestEnvelope) -> (r: Result<(), ProtocolFailure>)
    ensures
        r is Ok <==> envelope_acceptable(*e),
        r matches Err(f) ==> f@ =~~= envelope_failure(),
{
    if !str_equals(e.message_type.as_str(), "request") || e.id.as_str().is_empty() || e.method.as_str().is_empty()
        || !e.params_is_object {
        return Err(ProtocolFailure::new("invalid_request", "Expected a request with non-empty id/method and object params"));
    }
    Ok(())
}

/// The client's side of the handshake.
#[derive(Debug, Clone)]
pub struct HelloParameters {
    pub protocol_versions: Vec<u32>,
    pub client_name: String,
    pub client_version: String,
}

pub open spec fn hello_acceptable(p: HelloParameters) -> bool {
    &&& p.protocol_versions@.len() > 0
    &&& !p.protocol_versions@.contains(0u32)
    &&& trim_spec(p.client_name@).len() > 0
    &&& trim_spec(p.client_version@).len() > 0
}

pub open spec fn hello_state_failure() -> FailureView {
    failure("invalid_state"@, "hello has already completed"@, seq![])
}

pub open spec fn hello_request_failure() -> FailureView {
    failure("invalid_request"@, "hello requires positive protocolVersions and non-empty client name/version"@, seq![])
}

pub open spec fn unsupported_protocol_failure() -> FailureView {
    failure(
        "unsupported_protocol"@,
        "No mutually supported protocol version"@,
        seq![("workerProtocolVersions"@, DetailView::Integers(seq![PROTOCOL_VERSION as int]))],
    )
}

pub open spec fn handshake_required_failure() -> FailureView {
    failure("handshake_required"@, "hello must succeed before other requests"@, seq![])
}

/// The outcome of a hello on a session in state `negotiated`, given the
/// parsed parameters or the failure to parse them.
pub open spec fn hello_outcome(negotiated: Option<u32>, parameters: Result<HelloParameters, ProtocolFailure>) -> Result<
    u32,
    FailureView,
> {
    if negotiated is Some {
        Err(hello_state_failure())
    } else {
        match parameters {
            Err(f) => Err(f@),
            Ok(p) => if !hello_acceptable(p) {
                Err(hello_request_failure())
            } else if !p.protocol_versions@.contains(PROTOCOL_VERSION) {
                Err(unsupported_protocol_failure())
            } else {
                Ok(PROTOCOL_VERSION)
            },
        }
    }
}

/// Where the session sends a request.
#[derive(Debug, Clone)]
pub enum Route {
    /// The handshake itself.
    Hello,
    /// Refused: the handshake has not completed.
    Refused(ProtocolFailure),
    /// Served by the method's handler.
    Dispatch,
}

/// The protocol state of one client connection.
#[derive(Debug)]
pub struct WorkerSession {
    negotiated_protocol: Option<u32>,
}

impl View for WorkerSession {
    type V = Option<u32>;

    closed spec fn view(&self) -> Option<u32> {
        self.negotiated_protocol
    }
}

fn contains_version(versions: &Vec<u32>, v: u32) -> (r: bool)
    ensures
        r == versions@.contains(v),
{
    let mut i: usize = 0;
    while i < versions.len()
        invariant
            i <= versions@.len(),
            forall|k: int| 0 <= k < i ==> versions@[k] != v,
        decreases versions.len() - i,
    {
        if versions[i] == v {
            assert(versions@[i as int] == v);
            return true;
        }
        i = i + 1;
    }
    false
}

impl WorkerSession {
    /// A session before its handshake.
    pub fn new() -> (r: WorkerSession)
        ensures
            r@ is None,
    {
        WorkerSession { negotiated_protocol: None }
    }

    /// The protocol version agreed on by the handshake.
    pub fn negotiated_protocol(&self) -> (r: Option<u32>)
        ensures
            r == self@,
    {
        self.negotiated_protocol
    }

    /// Where a request for `method` goes: `hello` to the handshake, any
    /// other method to its handler once the handshake has completed.
    pub fn route(&self, method: &str) -> (r: Route)
        ensures
            method@ == "hello"@ ==> r is Hello,
            method@ != "hello"@ && self@ is None ==> (r matches Route::Refused(f) && f@ =~~= handshake_required_failure()),
            method@ != "hello"@ && self@ is Some ==> r is Dispatch,
    {
        if str_equals(method, "hello") {
            Route::Hello
        } else if self.negotiated_protocol.is_none() {
            Route::Refused(ProtocolFailure::new("handshake_required", "hello must succeed before other requests"))
        } else {
            Route::Dispatch
        }
    }

    /// The handshake: the first successful hello fixes the protocol version;
    /// a second hello is refused and changes nothing.
    pub fn handle_hello(&mut self, parameters: Result<HelloParameters, ProtocolFailure>) -> (r: Result<u32, ProtocolFailure>)
        ensures
            match hello_outcome(old(self)@, parameters) {
                Ok(v) => r == Ok::<u32, ProtocolFailure>(v) && final(self)@ == Some(v),
                Err(g) => r matches Err(f) && f@ =~~= g && final(self)@ == old(self)@,
            },
    {
        if self.negotiated_protocol.is_some() {
            return Err(ProtocolFailure::new("invalid_state", "hello has already completed"));
        }
        let p = match parameters {
            Ok(p) => p,
            Err(f) => return Err(f),
        };
        if p.protocol_versions.len() == 0 || contains_version(&p.protocol_versions, 0)
            || trim_chars(&chars_of(p.client_name.as_str())).len() == 0 || trim_chars(
            &chars_of(p.client_version.as_str()),
        ).len() == 0 {
            return Err(
                ProtocolFailure::new("invalid_request", "hello requires positive protocolVersions and non-empty client name/version"),
            );
        }
        if !contains_version(&p.protocol_versions, PROTOCOL_VERSION) {
            let mut versions: Vec<i64> = Vec::new();
            versions.push(PROTOCOL_VERSION as i64);
            assert(versions@.map_values(|i: i64| i as int) =~= seq![PROTOCOL_VERSION as int]);
            let f = ProtocolFailure::new("unsupported_protocol", "No mutually supported protocol version").with_detail(
                "workerProtocolVersions",
                DetailValue::Integers(versions),
            );
            assert(f@ =~~= unsupported_protocol_failure());
            return Err(f);
        }
        self.negotiated_protocol = Some(PROTOCOL_VERSION);
        Ok(PROTOCOL_VERSION)
    }
}

/// Once a hello has succeeded, every later hello is refused with
/// `invalid_state` and the agreed version stays.
pub proof fn lemma_handshake_happens_once(
    first: Result<HelloParameters, ProtocolFailure>,
    later: Result<HelloParameters, ProtocolFailure>,
)
    requires
        hello_outcome(None, first) is Ok,
    ensures
        hello_outcome(Some(hello_outcome(None, first)->Ok_0), later) == Err::<u32, FailureView>(hello_state_failure()),
        hello_outcome(None, first) == Ok::<u32, FailureView>(PROTOCOL_VERSION),
{
}

/// The filesystem work in flight: at most one scan run and at most one
/// preflight, each known by its ID.
#[derive(Debug, Clone, Copy)]
pub struct ActiveWork {
    active_run: Option<i64>,
    active_preflight: Option<i64>,
}

pub struct ActiveWorkView {
    pub run: Option<i64>,
    pub preflight: Option<i64>,
}

impl View for ActiveWork {
    type V = ActiveWorkView;

    closed spec fn view(&self) -> ActiveWorkView {
        ActiveWorkView { run: self.active_run, preflight: self.active_preflight }
    }
}

pub open spec fn scan_busy_run_failure(run_id: i64) -> FailureView {
    FailureView {
        code: "scan_busy"@,
        message: "A scan is already running"@,
        retryable: true,
        details: seq![("activeRunId"@, DetailView::Integer(run_id as int))],
    }
}

pub open spec fn scan_busy_preflight_failure(preflight_id: i64) -> FailureView {
    FailureView {
        code: "scan_busy"@,
        message: "A preflight is already using the filesystem"@,
        retryable: true,
        details: seq![("activePreflightId"@, DetailView::Integer(preflight_id as int))],
    }
}

/// A scan run and a preflight never hold the filesystem together.
pub open spec fn exclusive(w: ActiveWorkView) -> bool {
    !(w.run is Some && w.preflight is Some)
}

pub open spec fn preflight_running_failure(preflight_id: i64) -> FailureView {
    FailureView {
        code: "preflight_busy"@,
        message: "A preflight is already running"@,
        retryable: true,
        details: seq![("activePreflightId"@, DetailView::Integer(preflight_id as int))],
    }
}

pub open spec fn preflight_busy_failure(run_id: i64) -> FailureView {
    FailureView {
        code: "preflight_busy"@,
        message: "A scan is already using the filesystem"@,
        retryable: true,
        details: seq![("activeRunId"@, DetailView::Integer(run_id as int))],
    }
}

fn busy(code: &str, message: &str, key: &str, id: i64) -> (r: ProtocolFailure)
    ensures
        r@ =~~= (FailureView {
            code: code@,
            message: message@,
            retryable: true,
            details: seq![(key@, DetailView::Integer(id as int))],
        }),
{
    let f = ProtocolFailure::new(code, message).with_detail(key, DetailValue::Integer(id));
    ProtocolFailure { retryable: true, ..f }
}

impl ActiveWork {
    /// Nothing in flight.
    pub fn new() -> (r: ActiveWork)
        ensures
            r@.run is None,
            r@.preflight is None,
    {
        ActiveWork { active_run: None, active_preflight: None }
    }

    /// The scan run in flight.
    pub fn active_run_id(&self) -> (r: Option<i64>)
        ensures
            r == self@.run,
    {
        self.active_run
    }

    /// The preflight in flight.
    pub fn active_preflight_id(&self) -> (r: Option<i64>)
        ensures
            r == self@.preflight,
    {
        self.active_preflight
    }

    /// Whether a scan run may claim the filesystem: not while a preflight or
    /// another run holds it.
    pub fn check_run_slot(&self) -> (r: Result<(), ProtocolFailure>)
        ensures
            self@.preflight matches Some(p) ==> r matches Err(f) && f@ =~~= scan_busy_preflight_failure(p),
            self@.preflight is None ==> (self@.run matches Some(current) ==> (r matches Err(f) && f@
                =~~= scan_busy_run_failure(current))),
            r is Ok <==> self@.preflight is None && self@.run is None,
    {
        if let Some(p) = self.active_preflight {
            return Err(busy("scan_busy", "A preflight is already using the filesystem", "activePreflightId", p));
        }
        if let Some(current) = self.active_run {
            return Err(busy("scan_busy", "A scan is already running", "activeRunId", current));
        }
        Ok(())
    }

    /// Whether a preflight may claim the filesystem: not while a scan or
    /// another preflight holds it.
    pub fn check_preflight_slot(&self) -> (r: Result<(), ProtocolFailure>)
        ensures
            self@.run matches Some(current) ==> r matches Err(f) && f@ =~~= preflight_busy_failure(current),
            self@.run is None ==> (self@.preflight matches Some(p) ==> (r matches Err(f) && f@
                =~~= preflight_running_failure(p))),
            r is Ok <==> self@.preflight is None && self@.run is None,
    {
        if let Some(current) = self.active_run {
            return Err(busy("preflight_busy", "A scan is already using the filesystem", "activeRunId", current));
        }
        if let Some(p) = self.active_preflight {
            return Err(busy("preflight_busy", "A preflight is already running", "activePreflightId", p));
        }
        Ok(())
    }

    /// Hands the free filesystem to a scan run.
    pub fn occupy_run(&mut self, run_id: i64)
        requires
            old(self)@.run is None,
            old(self)@.preflight is None,
        ensures
            final(self)@ == (ActiveWorkView { run: Some(run_id), preflight: None }),
            exclusive(final(self)@),
    {
        self.active_run = Some(run_id);
    }

    /// Hands the free filesystem to a preflight.
    pub fn occupy_preflight(&mut self, preflight_id: i64)
        requires
            old(self)@.run is None,
            old(self)@.preflight is None,
        ensures
            final(self)@ == (ActiveWorkView { run: None, preflight: Some(preflight_id) }),
            exclusive(final(self)@),
    {
        self.active_preflight = Some(preflight_id);
    }

    /// Releases the run slot if `run_id` holds it; another run's finish
    /// leaves it alone. Returns whether the slot was released.
    pub fn finish_active(&mut self, run_id: i64) -> (r: bool)
        ensures
            r == (old(self)@.run == Some(run_id)),
            final(self)@.run == (if r {
                None
            } else {
                old(self)@.run
            }),
            final(self)@.preflight == old(self)@.preflight,
            exclusive(old(self)@) ==> exclusive(final(self)@),
    {
        if self.active_run == Some(run_id) {
            self.active_run = None;
            true
        } else {
            false
        }
    }

    /// Releases the preflight slot if `preflight_id` holds it.
    pub fn finish_active_preflight(&mut self, preflight_id: i64) -> (r: bool)
        ensures
            r == (old(self)@.preflight == Some(preflight_id)),
            final(self)@.preflight == (if r {
                None
            } else {
                old(self)@.preflight
            }),
            final(self)@.run == old(self)@.run,
            exclusive(old(self)@) ==> exclusive(final(self)@),
    {
        if self.active_preflight == Some(preflight_id) {
            self.active_preflight = None;
            true
        } else {
            false
        }
    }
}


/// A frame as written to the output: the line's UTF-8 bytes and `\n`.
pub fn encode_frame(line: &str) -> (r: Vec<u8>)
    ensures
        r@ == encode_utf8(line@).push(10u8),
{
    assert(line.spec_bytes() == encode_utf8(line@));
    let mut bytes = vstd::slice::slice_to_vec(line.as_bytes());
    bytes.push(10u8);
    bytes
}

/// The bytes of one character: a newline byte only for `\n`, and a last
/// byte of `\r` only for `\r`.
proof fn lemma_scalar_bytes(c: char)
    ensures
        forall|i: int| 0 <= i < encode_scalar(c as u32).len() ==> (#[trigger] encode_scalar(c as u32)[i] == 10u8 ==> c
            == '\n'),
        encode_scalar(c as u32).len() > 0,
        encode_scalar(c as u32).last() == 13u8 ==> c == '\r',
{
    let v = c as u32;
    vstd::utf8::char_is_scalar(c);
    if v <= 0x7F {
        assert((v & 0x7F) as u8 == v) by (bit_vector)
            requires
                v <= 0x7F,
        ;
    } else {
        assert(forall|x: u32| #![auto] (0x80u8 | (x & 0x3F) as u8) >= 0x80u8) by (bit_vector);
        assert(forall|x: u32| #![auto] (0x80u8 | ((x >> 6) & 0x3F) as u8) >= 0x80u8) by (bit_vector);
        assert(forall|x: u32| #![auto] (0x80u8 | ((x >> 12) & 0x3F) as u8) >= 0x80u8) by (bit_vector);
        assert(forall|x: u32| #![auto] (0xC0u8 | ((x >> 6) & 0x1F) as u8) >= 0x80u8) by (bit_vector);
        assert(forall|x: u32| #![auto] (0xE0u8 | ((x >> 12) & 0x0F) as u8) >= 0x80u8) by (bit_vector);
        assert(forall|x: u32| #![auto] (0xF0u8 | ((x >> 18) & 0x7) as u8) >= 0x80u8) by (bit_vector);
    }
}

/// The encoding of a line holds a newline byte only where the line holds
/// `\n`, and ends in `\r` only when the line does.
proof fn lemma_line_bytes(line: Seq<char>)
    ensures
        !line.contains('\n') ==> forall|i: int| 0 <= i < encode_utf8(line).len() ==> #[trigger] encode_utf8(line)[i] != 10u8,
        line.len() > 0 ==> encode_utf8(line).len() > 0,
        line.len() > 0 && encode_utf8(line).last() == 13u8 ==> line.last() == '\r',
    decreases line.len(),
{
    if line.len() > 0 {
        let head = encode_scalar(line[0] as u32);
        let rest = line.drop_first();
        lemma_scalar_bytes(line[0]);
        lemma_line_bytes(rest);
        let all = encode_utf8(line);
        assert(all == head + encode_utf8(rest));
        if !line.contains('\n') {
            assert(line[0] != '\n');
            assert(!rest.contains('\n')) by {
                if rest.contains('\n') {
                    let k = choose|k: int| 0 <= k < rest.len() && rest[k] == '\n';
                    assert(line[k + 1] == '\n');
                }
            }
            assert forall|i: int| 0 <= i < all.len() implies #[trigger] all[i] != 10u8 by {
                if i < head.len() {
                    assert(all[i] == head[i]);
                } else {
                    assert(all[i] == encode_utf8(rest)[i - head.len()]);
                }
            }
        }
        if rest.len() > 0 {
            assert(all.last() == encode_utf8(rest).last());
            assert(rest.last() == line.last());
        } else {
            assert(rest =~= Seq::<char>::empty());
            assert(all =~= head);
        }
    }
}

/// What a frame gives back of a line written to it: a line without `\n`,
/// not ending in `\r`, and within the frame limit, is read back unchanged;
/// its frame holds exactly one newline, at the end, so the reader stops
/// there.
pub proof fn lemma_frame_round_trip(line: Seq<char>)
    requires
        !line.contains('\n'),
        !(line.len() > 0 && line.last() == '\r'),
        encode_utf8(line).len() <= MAXIMUM_FRAME_BYTES,
    ensures
        forall|i: int| 0 <= i < encode_utf8(line).len() ==> #[trigger] encode_utf8(line).push(10u8)[i] != 10u8,
        frame_body(encode_utf8(line).push(10u8)) == encode_utf8(line),
        valid_utf8(encode_utf8(line)),
        decode_utf8(encode_utf8(line)) == line,
{
    lemma_line_bytes(line);
    vstd::utf8::encode_utf8_valid_utf8(line);
    vstd::utf8::encode_utf8_decode_utf8(line);
    let b = encode_utf8(line);
    assert(b.push(10u8).drop_last() =~= b);
    assert forall|i: int| 0 <= i < b.len() implies #[trigger] b.push(10u8)[i] != 10u8 by {
        assert(b.push(10u8)[i] == b[i]);
    }
}

/// The failure that replaces a success response too large for one frame.
pub open spec fn oversized_response_failure_spec() -> FailureView {
    FailureView {
        code: "invalid_request"@,
        message: "The response exceeds the protocol frame limit; request a smaller page"@,
        retryable: true,
        details: seq![("maximumFrameBytes"@, DetailView::Integer(MAXIMUM_FRAME_BYTES as int))],
    }
}

pub fn oversized_response_failure() -> (r: ProtocolFailure)
    ensures
        r@ =~~= oversized_response_failure_spec(),
{
    busy(
        "invalid_request",
        "The response exceeds the protocol frame limit; request a smaller page",
        "maximumFrameBytes",
        MAXIMUM_FRAME_BYTES as i64,
    )
}

/// Whether a serialized frame fits the frame limit, counted in bytes.
pub fn frame_fits(frame: &str) -> (r: bool)
    ensures
        r == (encode_utf8(frame@).len() <= MAXIMUM_FRAME_BYTES),
{
    assert(frame.spec_bytes() == encode_utf8(frame@));
    frame.as_bytes().len() <= MAXIMUM_FRAME_BYTES
}

/// What becomes of a serialized success response.
#[derive(Debug)]
pub enum SuccessFrame {
    /// It fits one frame and is sent as it is.
    Send(String),
    /// It is too large; this failure is answered instead.
    Replace(ProtocolFailure),
}

/// A serialized success response is sent when it fits one frame; a larger
/// one is replaced by the failure that asks for a smaller page.
pub fn check_success_frame(frame: String) -> (r: SuccessFrame)
    ensures
        encode_utf8(frame@).len() <= MAXIMUM_FRAME_BYTES ==> (r matches SuccessFrame::Send(s) && s@ == frame@),
        encode_utf8(frame@).len() > MAXIMUM_FRAME_BYTES ==> (r matches SuccessFrame::Replace(f) && f@ =~~= oversized_response_failure_spec()),
{
    if frame_fits(frame.as_str()) {
        SuccessFrame::Send(frame)
    } else {
        SuccessFrame::Replace(oversized_response_failure())
    }
}

/// A serialized failure response must fit one frame; otherwise the session
/// cannot report it and stops.
pub fn check_failure_frame(frame: &str) -> (r: Result<(), WorkerError>)
    ensures
        encode_utf8(frame@).len() <= MAXIMUM_FRAME_BYTES ==> r is Ok,
        encode_utf8(frame@).len() > MAXIMUM_FRAME_BYTES ==> (r matches Err(e) && fatal(
            e,
            "structured error exceeds the protocol frame limit"@,
        )),
{
    if frame_fits(frame) {
        Ok(())
    } else {
        Err(WorkerError::FatalProtocol(string_from("structured error exceeds the protocol frame limit")))
    }
}

/// A request frame must carry a non-empty string `id` to be answered.
pub fn check_request_id(id: Option<&str>) -> (r: Result<(), WorkerError>)
    ensures
        r is Ok <==> (id matches Some(s) && s@.len() > 0),
        r matches Err(e) ==> fatal(e, "request frame has no correlatable id"@),
{
    match id {
        Some(s) => if !s.is_empty() {
            return Ok(());
        },
        None => {},
    }
    Err(WorkerError::FatalProtocol(string_from("request frame has no correlatable id")))
}

/// The failure for a method the worker does not serve.
pub fn unknown_method(method: &str) -> (r: ProtocolFailure)
    ensures
        r@ =~~= failure("method_not_found"@, "Unknown method: "@ + method@, seq![]),
{
    let mut message = string_from("Unknown method: ");
    message.append(method);
    let r = ProtocolFailure { code: string_from("method_not_found"), message, retryable: false, details: Vec::new() };
    assert(r@.details =~= Seq::<(Seq<char>, DetailView)>::empty());
    r
}

} // verus!
