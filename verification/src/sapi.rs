//! Builder for the host's SAPI module descriptor.
//!
//! The host reads the descriptor directly by memory layout and treats an
//! absent callback as "feature disabled", never as "uninitialized", so the
//! builder front-loads all the shaping: every field of the finished record
//! is populated, string fields become owned host strings, and callback
//! fields resolve to the caller's handler, a host-mandated default, or a
//! deliberate no-op stand-in.

use vstd::prelude::*;

use crate::Error;
use crate::allocator::OwnedHostString;
use crate::has_nul;

verus! {

/// One callback slot of a host record.
///
/// The host stores a function pointer per slot; the bridge models the
/// pointer by what it designates: nothing (feature disabled), one of the
/// host's documented defaults, the deliberate no-op header hook, or a
/// caller-supplied handler named by a token the embedder assigned.
#[derive(Clone, Copy, Debug, PartialEq, Eq, Structural)]
pub enum HostCallback {
    /// A null function pointer: the host treats the feature as disabled.
    Absent,
    /// The host's standard error-reporting routine.
    DefaultErrorReporter,
    /// The host's default request-body reader.
    DefaultPostReader,
    /// The host's default form-data handler.
    DefaultTreatData,
    /// The host's default input filter.
    DefaultInputFilter,
    /// The deliberate no-op stand-in for the response-header hook, used so
    /// the host never dereferences an unset function pointer.
    NoOpSendHeader,
    /// A caller-supplied function pointer, named by the embedder's token.
    Handler(u64),
}

/// The finished SAPI module descriptor, fully populated and ready for the
/// host.  The record offers no mutating operations: it is written once by
/// [`SapiBuilder::build`] and then owned by the host.
#[derive(Debug, PartialEq)]
pub struct SapiModule {
    /// Short name of the SAPI, as an owned host string.
    pub name: OwnedHostString,
    /// Human-readable name of the SAPI, as an owned host string.
    pub pretty_name: OwnedHostString,
    /// Called when the host starts the SAPI.
    pub startup: HostCallback,
    /// Called when the host stops the SAPI.
    pub shutdown: HostCallback,
    /// Called when the host activates the SAPI for a request.
    pub activate: HostCallback,
    /// Called when the host deactivates the SAPI after a request.
    pub deactivate: HostCallback,
    /// Called when the host writes to the output buffer.
    pub ub_write: HostCallback,
    /// Called when the host flushes the output buffer.
    pub flush: HostCallback,
    /// Called when the host stats the script file.
    pub get_stat: HostCallback,
    /// Called when the host reads an environment variable.
    pub getenv: HostCallback,
    /// Called when the host reports an error.
    pub sapi_error: HostCallback,
    /// Called when the host processes one header.
    pub header_handler: HostCallback,
    /// Called when the host sends the collected headers.
    pub send_headers: HostCallback,
    /// Called when the host sends a single header line.
    pub send_header: HostCallback,
    /// Called when the host reads the request body.
    pub read_post: HostCallback,
    /// Called when the host reads the request cookies.
    pub read_cookies: HostCallback,
    /// Called when the host registers server variables.
    pub register_server_variables: HostCallback,
    /// Called when the host logs a message.
    pub log_message: HostCallback,
    /// Called when the host asks for the request time.
    pub get_request_time: HostCallback,
    /// Called when the host terminates the process.
    pub terminate_process: HostCallback,
    /// Path that overrides the host's configuration file lookup, if any.
    pub php_ini_path_override: Option<OwnedHostString>,
    /// Default reader for the request body.
    pub default_post_reader: HostCallback,
    /// Default handler for form data.
    pub treat_data: HostCallback,
    /// Location of the embedding executable, if any.
    pub executable_location: Option<OwnedHostString>,
    /// Whether the host skips loading its configuration file.
    pub php_ini_ignore: i32,
    /// Whether the host skips configuration lookup in the working directory.
    pub php_ini_ignore_cwd: i32,
    /// Called when the host asks for the request's file descriptor.
    pub get_fd: HostCallback,
    /// Called when the host decides whether to force HTTP 1.0.
    pub force_http_10: HostCallback,
    /// Called when the host asks for the target user id.
    pub get_target_uid: HostCallback,
    /// Called when the host asks for the target group id.
    pub get_target_gid: HostCallback,
    /// Default input filter.
    pub input_filter: HostCallback,
    /// Called when the host collects configuration defaults.
    pub ini_defaults: HostCallback,
    /// Whether the host renders diagnostics as plain text.
    pub phpinfo_as_text: i32,
    /// Extra configuration entries handed to the host, if any.
    pub ini_entries: Option<OwnedHostString>,
    /// Initializer for the input filter.
    pub input_filter_init: HostCallback,
}

/// Builds a SAPI module descriptor for the host.
///
/// Construction seeds the host-mandated defaults: the standard error
/// reporter and the default request-body handlers are pre-wired, so the
/// record is usable even if the embedder customizes nothing.  Setters
/// stage values without validating them; `build` converts the staged
/// strings and resolves every callback slot.
pub struct SapiBuilder {
    name: Vec<u8>,
    pretty_name: Vec<u8>,
    startup: HostCallback,
    shutdown: HostCallback,
    activate: HostCallback,
    deactivate: HostCallback,
    ub_write: HostCallback,
    flush: HostCallback,
    getenv: HostCallback,
    send_header: HostCallback,
    read_post: HostCallback,
    read_cookies: HostCallback,
    register_server_variables: HostCallback,
    log_message: HostCallback,
    get_request_time: HostCallback,
    terminate_process: HostCallback,
    get_target_uid: HostCallback,
    get_target_gid: HostCallback,
    php_ini_path_override: Option<Vec<u8>>,
    php_ini_ignore: i32,
    php_ini_ignore_cwd: i32,
    executable_location: Option<Vec<u8>>,
}

/// How a staged optional string finishes: absent stays absent, present
/// bytes become an owned host string.
pub open spec fn finished_opt_string(staged: Option<Seq<u8>>, out: Option<OwnedHostString>) -> bool {
    match staged {
        Option::None => out is None,
        Option::Some(bytes) => out matches Option::Some(s) && s.wf() && s.raw() == bytes.push(
            0u8,
        ),
    }
}

/// Whether a staged optional string can be converted at all.
pub open spec fn opt_string_convertible(staged: Option<Seq<u8>>) -> bool {
    match staged {
        Option::None => true,
        Option::Some(bytes) => !has_nul(bytes),
    }
}

/// Position of the `startup` slot in a builder's staged callbacks.
pub const SLOT_STARTUP: usize = 0;
/// Position of the `shutdown` slot in a builder's staged callbacks.
pub const SLOT_SHUTDOWN: usize = 1;
/// Position of the `activate` slot in a builder's staged callbacks.
pub const SLOT_ACTIVATE: usize = 2;
/// Position of the `deactivate` slot in a builder's staged callbacks.
pub const SLOT_DEACTIVATE: usize = 3;
/// Position of the `ub_write` slot in a builder's staged callbacks.
pub const SLOT_UB_WRITE: usize = 4;
/// Position of the `flush` slot in a builder's staged callbacks.
pub const SLOT_FLUSH: usize = 5;
/// Position of the `getenv` slot in a builder's staged callbacks.
pub const SLOT_GETENV: usize = 6;
/// Position of the `send_header` slot in a builder's staged callbacks.
pub const SLOT_SEND_HEADER: usize = 7;
/// Position of the `read_post` slot in a builder's staged callbacks.
pub const SLOT_READ_POST: usize = 8;
/// Position of the `read_cookies` slot in a builder's staged callbacks.
pub const SLOT_READ_COOKIES: usize = 9;
/// Position of the `register_server_variables` slot in a builder's staged callbacks.
pub const SLOT_REGISTER_SERVER_VARIABLES: usize = 10;
/// Position of the `log_message` slot in a builder's staged callbacks.
pub const SLOT_LOG_MESSAGE: usize = 11;
/// Position of the `get_request_time` slot in a builder's staged callbacks.
pub const SLOT_GET_REQUEST_TIME: usize = 12;
/// Position of the `terminate_process` slot in a builder's staged callbacks.
pub const SLOT_TERMINATE_PROCESS: usize = 13;
/// Position of the `get_target_uid` slot in a builder's staged callbacks.
pub const SLOT_GET_TARGET_UID: usize = 14;
/// Position of the `get_target_gid` slot in a builder's staged callbacks.
pub const SLOT_GET_TARGET_GID: usize = 15;

/// How the header-line slot resolves at `build` time: a slot the caller
/// left alone becomes the deliberate no-op stand-in, so the host never
/// dereferences an unset function pointer.
pub open spec fn resolved_send_header(cb: HostCallback) -> HostCallback {
    if cb is Absent {
        HostCallback::NoOpSendHeader
    } else {
        cb
    }
}

/// The caller-settable callback slots of a finished record, in the same
/// order a builder stages them.
pub open spec fn record_callbacks(m: SapiModule) -> Seq<HostCallback> {
    seq![
        m.startup,
        m.shutdown,
        m.activate,
        m.deactivate,
        m.ub_write,
        m.flush,
        m.getenv,
        m.send_header,
        m.read_post,
        m.read_cookies,
        m.register_server_variables,
        m.log_message,
        m.get_request_time,
        m.terminate_process,
        m.get_target_uid,
        m.get_target_gid,
    ]
}

/// A setter staged one callback: builder `b` equals builder `a` with slot
/// `i` holding `cb` and every other staged value unchanged.
pub open spec fn callback_staged(a: SapiBuilder, b: SapiBuilder, i: int, cb: HostCallback) -> bool {
    &&& b.spec_name() == a.spec_name()
    &&& b.spec_pretty_name() == a.spec_pretty_name()
    &&& b.spec_ini_path_override() == a.spec_ini_path_override()
    &&& b.spec_executable_location() == a.spec_executable_location()
    &&& b.spec_ini_flags() == a.spec_ini_flags()
    &&& b.spec_callbacks() == a.spec_callbacks().update(i, cb)
}

impl SapiBuilder {
    /// Staged short name bytes.
    pub closed spec fn spec_name(self) -> Seq<u8> {
        self.name@
    }

    /// Staged human-readable name bytes.
    pub closed spec fn spec_pretty_name(self) -> Seq<u8> {
        self.pretty_name@
    }

    /// Staged configuration-path override, if any.
    pub closed spec fn spec_ini_path_override(self) -> Option<Seq<u8>> {
        match self.php_ini_path_override {
            Option::None => Option::None,
            Option::Some(v) => Option::Some(v@),
        }
    }

    /// Staged executable location, if any.
    pub closed spec fn spec_executable_location(self) -> Option<Seq<u8>> {
        match self.executable_location {
            Option::None => Option::None,
            Option::Some(v) => Option::Some(v@),
        }
    }

    /// All staged callback slots, in the descriptor's own field order.
    pub closed spec fn spec_callbacks(self) -> Seq<HostCallback> {
        seq![
            self.startup,
            self.shutdown,
            self.activate,
            self.deactivate,
            self.ub_write,
            self.flush,
            self.getenv,
            self.send_header,
            self.read_post,
            self.read_cookies,
            self.register_server_variables,
            self.log_message,
            self.get_request_time,
            self.terminate_process,
            self.get_target_uid,
            self.get_target_gid,
        ]
    }

    /// Staged configuration-skipping flags.
    pub closed spec fn spec_ini_flags(self) -> (i32, i32) {
        (self.php_ini_ignore, self.php_ini_ignore_cwd)
    }

    /// Whether every staged string is free of embedded terminators, so
    /// that `build` succeeds.
    pub open spec fn convertible(self) -> bool {
        &&& !has_nul(self.spec_name())
        &&& !has_nul(self.spec_pretty_name())
        &&& opt_string_convertible(self.spec_ini_path_override())
        &&& opt_string_convertible(self.spec_executable_location())
    }

    /// The record `build` produces from this builder: strings converted,
    /// the caller's callbacks carried over with the header slot resolved,
    /// the host-mandated defaults seeded, and the remaining descriptor
    /// fields at their neutral values.
    pub open spec fn finishes_to(self, m: SapiModule) -> bool {
        &&& m.name.wf() && m.name.raw() == self.spec_name().push(0u8)
        &&& m.pretty_name.wf() && m.pretty_name.raw() == self.spec_pretty_name().push(0u8)
        &&& finished_opt_string(self.spec_ini_path_override(), m.php_ini_path_override)
        &&& finished_opt_string(self.spec_executable_location(), m.executable_location)
        &&& record_callbacks(m) == self.spec_callbacks().update(
            SLOT_SEND_HEADER as int,
            resolved_send_header(self.spec_callbacks()[SLOT_SEND_HEADER as int]),
        )
        &&& m.sapi_error == HostCallback::DefaultErrorReporter
        &&& m.default_post_reader == HostCallback::DefaultPostReader
        &&& m.treat_data == HostCallback::DefaultTreatData
        &&& m.input_filter == HostCallback::DefaultInputFilter
        &&& m.get_stat == HostCallback::Absent
        &&& m.header_handler == HostCallback::Absent
        &&& m.send_headers == HostCallback::Absent
        &&& m.get_fd == HostCallback::Absent
        &&& m.force_http_10 == HostCallback::Absent
        &&& m.ini_defaults == HostCallback::Absent
        &&& m.input_filter_init == HostCallback::Absent
        &&& m.phpinfo_as_text == 0
        &&& m.ini_entries is None
        &&& (m.php_ini_ignore, m.php_ini_ignore_cwd) == self.spec_ini_flags()
    }

    /// Creates a new SAPI builder carrying the two names, with the
    /// host-mandated defaults seeded and every other slot disabled.
    pub fn new(name: Vec<u8>, pretty_name: Vec<u8>) -> (b: SapiBuilder)
        ensures
            b.spec_name() == name@,
            b.spec_pretty_name() == pretty_name@,
            b.spec_callbacks().len() == 16,
            forall|i: int| 0 <= i < 16 ==> b.spec_callbacks()[i] == HostCallback::Absent,
            b.spec_ini_path_override() is None,
            b.spec_executable_location() is None,
            b.spec_ini_flags() == (0i32, 0i32),
    {
        let b = SapiBuilder {
            name,
            pretty_name,
            startup: HostCallback::Absent,
            shutdown: HostCallback::Absent,
            activate: HostCallback::Absent,
            deactivate: HostCallback::Absent,
            ub_write: HostCallback::Absent,
            flush: HostCallback::Absent,
            getenv: HostCallback::Absent,
            send_header: HostCallback::Absent,
            read_post: HostCallback::Absent,
            read_cookies: HostCallback::Absent,
            register_server_variables: HostCallback::Absent,
            log_message: HostCallback::Absent,
            get_request_time: HostCallback::Absent,
            terminate_process: HostCallback::Absent,
            get_target_uid: HostCallback::Absent,
            get_target_gid: HostCallback::Absent,
            php_ini_path_override: None,
            php_ini_ignore: 0,
            php_ini_ignore_cwd: 0,
            executable_location: None,
        };
        b
    }

    /// Sets the startup function for this SAPI.
    pub fn startup_function(self, func: u64) -> (b: SapiBuilder)
        ensures
            callback_staged(self, b, SLOT_STARTUP as int, HostCallback::Handler(func)),
    {
        let ghost pre = self;
        let b = SapiBuilder { startup: HostCallback::Handler(func), ..self };
        proof {
            assert(b.spec_callbacks() =~= pre.spec_callbacks().update(
                SLOT_STARTUP as int,
                HostCallback::Handler(func),
            ));
        }
        b
    }

    /// Sets the shutdown function for this SAPI.
    pub fn shutdown_function(self, func: u64) -> (b: SapiBuilder)
        ensures
            callback_staged(self, b, SLOT_SHUTDOWN as int, HostCallback::Handler(func)),
    {
        let ghost pre = self;
        let b = SapiBuilder { shutdown: HostCallback::Handler(func), ..self };
        proof {
            assert(b.spec_callbacks() =~= pre.spec_callbacks().update(
                SLOT_SHUTDOWN as int,
                HostCallback::Handler(func),
            ));
        }
        b
    }

    /// Sets the activate function for this SAPI.
    pub fn activate_function(self, func: u64) -> (b: SapiBuilder)
        ensures
            callback_staged(self, b, SLOT_ACTIVATE as int, HostCallback::Handler(func)),
    {
        let ghost pre = self;
        let b = SapiBuilder { activate: HostCallback::Handler(func), ..self };
        proof {
            assert(b.spec_callbacks() =~= pre.spec_callbacks().update(
                SLOT_ACTIVATE as int,
                HostCallback::Handler(func),
            ));
        }
        b
    }

    /// Sets the deactivate function for this SAPI.
    pub fn deactivate_function(self, func: u64) -> (b: SapiBuilder)
        ensures
            callback_staged(self, b, SLOT_DEACTIVATE as int, HostCallback::Handler(func)),
    {
        let ghost pre = self;
        let b = SapiBuilder { deactivate: HostCallback::Handler(func), ..self };
        proof {
            assert(b.spec_callbacks() =~= pre.spec_callbacks().update(
                SLOT_DEACTIVATE as int,
                HostCallback::Handler(func),
            ));
        }
        b
    }

    /// Sets the unbuffered-write function for this SAPI.
    pub fn ub_write_function(self, func: u64) -> (b: SapiBuilder)
        ensures
            callback_staged(self, b, SLOT_UB_WRITE as int, HostCallback::Handler(func)),
    {
        let ghost pre = self;
        let b = SapiBuilder { ub_write: HostCallback::Handler(func), ..self };
        proof {
            assert(b.spec_callbacks() =~= pre.spec_callbacks().update(
                SLOT_UB_WRITE as int,
                HostCallback::Handler(func),
            ));
        }
        b
    }

    /// Sets the flush function for this SAPI.
    pub fn flush_function(self, func: u64) -> (b: SapiBuilder)
        ensures
            callback_staged(self, b, SLOT_FLUSH as int, HostCallback::Handler(func)),
    {
        let ghost pre = self;
        let b = SapiBuilder { flush: HostCallback::Handler(func), ..self };
        proof {
            assert(b.spec_callbacks() =~= pre.spec_callbacks().update(
                SLOT_FLUSH as int,
                HostCallback::Handler(func),
            ));
        }
        b
    }

    /// Sets the environment-lookup function for this SAPI.
    pub fn getenv_function(self, func: u64) -> (b: SapiBuilder)
        ensures
            callback_staged(self, b, SLOT_GETENV as int, HostCallback::Handler(func)),
    {
        let ghost pre = self;
        let b = SapiBuilder { getenv: HostCallback::Handler(func), ..self };
        proof {
            assert(b.spec_callbacks() =~= pre.spec_callbacks().update(
                SLOT_GETENV as int,
                HostCallback::Handler(func),
            ));
        }
        b
    }

    /// Sets the header-line function for this SAPI.
    pub fn send_header_function(self, func: u64) -> (b: SapiBuilder)
        ensures
            callback_staged(self, b, SLOT_SEND_HEADER as int, HostCallback::Handler(func)),
    {
        let ghost pre = self;
        let b = SapiBuilder { send_header: HostCallback::Handler(func), ..self };
        proof {
            assert(b.spec_callbacks() =~= pre.spec_callbacks().update(
                SLOT_SEND_HEADER as int,
                HostCallback::Handler(func),
            ));
        }
        b
    }

    /// Sets the request-body reading function for this SAPI.
    pub fn read_post_function(self, func: u64) -> (b: SapiBuilder)
        ensures
            callback_staged(self, b, SLOT_READ_POST as int, HostCallback::Handler(func)),
    {
        let ghost pre = self;
        let b = SapiBuilder { read_post: HostCallback::Handler(func), ..self };
        proof {
            assert(b.spec_callbacks() =~= pre.spec_callbacks().update(
                SLOT_READ_POST as int,
                HostCallback::Handler(func),
            ));
        }
        b
    }

    /// Sets the cookie-reading function for this SAPI.
    pub fn read_cookies_function(self, func: u64) -> (b: SapiBuilder)
        ensures
            callback_staged(self, b, SLOT_READ_COOKIES as int, HostCallback::Handler(func)),
    {
        let ghost pre = self;
        let b = SapiBuilder { read_cookies: HostCallback::Handler(func), ..self };
        proof {
            assert(b.spec_callbacks() =~= pre.spec_callbacks().update(
                SLOT_READ_COOKIES as int,
                HostCallback::Handler(func),
            ));
        }
        b
    }

    /// Sets the server-variable registration function for this SAPI.
    pub fn register_server_variables_function(self, func: u64) -> (b: SapiBuilder)
        ensures
            callback_staged(
                self,
                b,
                SLOT_REGISTER_SERVER_VARIABLES as int,
                HostCallback::Handler(func),
            ),
    {
        let ghost pre = self;
        let b = SapiBuilder { register_server_variables: HostCallback::Handler(func), ..self };
        proof {
            assert(b.spec_callbacks() =~= pre.spec_callbacks().update(
                SLOT_REGISTER_SERVER_VARIABLES as int,
                HostCallback::Handler(func),
            ));
        }
        b
    }

    /// Sets the message-logging function for this SAPI.
    pub fn log_message_function(self, func: u64) -> (b: SapiBuilder)
        ensures
            callback_staged(self, b, SLOT_LOG_MESSAGE as int, HostCallback::Handler(func)),
    {
        let ghost pre = self;
        let b = SapiBuilder { log_message: HostCallback::Handler(func), ..self };
        proof {
            assert(b.spec_callbacks() =~= pre.spec_callbacks().update(
                SLOT_LOG_MESSAGE as int,
                HostCallback::Handler(func),
            ));
        }
        b
    }

    /// Sets the request-time function for this SAPI.
    pub fn get_request_time_function(self, func: u64) -> (b: SapiBuilder)
        ensures
            callback_staged(self, b, SLOT_GET_REQUEST_TIME as int, HostCallback::Handler(func)),
    {
        let ghost pre = self;
        let b = SapiBuilder { get_request_time: HostCallback::Handler(func), ..self };
        proof {
            assert(b.spec_callbacks() =~= pre.spec_callbacks().update(
                SLOT_GET_REQUEST_TIME as int,
                HostCallback::Handler(func),
            ));
        }
        b
    }

    /// Sets the process-termination function for this SAPI.
    pub fn terminate_process_function(self, func: u64) -> (b: SapiBuilder)
        ensures
            callback_staged(self, b, SLOT_TERMINATE_PROCESS as int, HostCallback::Handler(func)),
    {
        let ghost pre = self;
        let b = SapiBuilder { terminate_process: HostCallback::Handler(func), ..self };
        proof {
            assert(b.spec_callbacks() =~= pre.spec_callbacks().update(
                SLOT_TERMINATE_PROCESS as int,
                HostCallback::Handler(func),
            ));
        }
        b
    }

    /// Sets the target-user lookup function for this SAPI.
    pub fn get_target_uid_function(self, func: u64) -> (b: SapiBuilder)
        ensures
            callback_staged(self, b, SLOT_GET_TARGET_UID as int, HostCallback::Handler(func)),
    {
        let ghost pre = self;
        let b = SapiBuilder { get_target_uid: HostCallback::Handler(func), ..self };
        proof {
            assert(b.spec_callbacks() =~= pre.spec_callbacks().update(
                SLOT_GET_TARGET_UID as int,
                HostCallback::Handler(func),
            ));
        }
        b
    }

    /// Sets the target-group lookup function for this SAPI.
    pub fn get_target_gid_function(self, func: u64) -> (b: SapiBuilder)
        ensures
            callback_staged(self, b, SLOT_GET_TARGET_GID as int, HostCallback::Handler(func)),
    {
        let ghost pre = self;
        let b = SapiBuilder { get_target_gid: HostCallback::Handler(func), ..self };
        proof {
            assert(b.spec_callbacks() =~= pre.spec_callbacks().update(
                SLOT_GET_TARGET_GID as int,
                HostCallback::Handler(func),
            ));
        }
        b
    }

    /// Sets the configuration-path override for this SAPI.
    pub fn php_ini_path_override(self, path: Vec<u8>) -> (b: SapiBuilder)
        ensures
            b.spec_name() == self.spec_name(),
            b.spec_pretty_name() == self.spec_pretty_name(),
            b.spec_callbacks() == self.spec_callbacks(),
            b.spec_executable_location() == self.spec_executable_location(),
            b.spec_ini_flags() == self.spec_ini_flags(),
            b.spec_ini_path_override() == Option::Some(path@),
    {
        SapiBuilder { php_ini_path_override: Some(path), ..self }
    }

    /// Sets whether the host skips loading its configuration file.
    pub fn php_ini_ignore(self, ignore: i32) -> (b: SapiBuilder)
        ensures
            b.spec_name() == self.spec_name(),
            b.spec_pretty_name() == self.spec_pretty_name(),
            b.spec_callbacks() == self.spec_callbacks(),
            b.spec_ini_path_override() == self.spec_ini_path_override(),
            b.spec_executable_location() == self.spec_executable_location(),
            b.spec_ini_flags() == (ignore, self.spec_ini_flags().1),
    {
        SapiBuilder { php_ini_ignore: ignore, ..self }
    }

    /// Sets whether the host skips configuration lookup in the working
    /// directory.
    pub fn php_ini_ignore_cwd(self, ignore: i32) -> (b: SapiBuilder)
        ensures
            b.spec_name() == self.spec_name(),
            b.spec_pretty_name() == self.spec_pretty_name(),
            b.spec_callbacks() == self.spec_callbacks(),
            b.spec_ini_path_override() == self.spec_ini_path_override(),
            b.spec_executable_location() == self.spec_executable_location(),
            b.spec_ini_flags() == (self.spec_ini_flags().0, ignore),
    {
        SapiBuilder { php_ini_ignore_cwd: ignore, ..self }
    }

    /// Sets the executable location for this SAPI.
    pub fn executable_location(self, location: Vec<u8>) -> (b: SapiBuilder)
        ensures
            b.spec_name() == self.spec_name(),
            b.spec_pretty_name() == self.spec_pretty_name(),
            b.spec_callbacks() == self.spec_callbacks(),
            b.spec_ini_path_override() == self.spec_ini_path_override(),
            b.spec_ini_flags() == self.spec_ini_flags(),
            b.spec_executable_location() == Option::Some(location@),
    {
        SapiBuilder { executable_location: Some(location), ..self }
    }

    /// Consumes the builder and produces the finished descriptor.
    ///
    /// Succeeds exactly when every staged string is free of embedded
    /// terminators; on success every field of the record is populated as
    /// [`Self::finishes_to`] states.
    pub fn build(self) -> (r: Result<SapiModule, Error>)
        ensures
            r is Ok <==> self.convertible(),
            r matches Ok(m) ==> self.finishes_to(m),
            r matches Err(e) ==> e == Error::StringConversionFailure,
    {
        let name = OwnedHostString::from_bytes(self.name.as_slice())?;
        let pretty_name = OwnedHostString::from_bytes(self.pretty_name.as_slice())?;
        let php_ini_path_override = convert_optional(&self.php_ini_path_override)?;
        let executable_location = convert_optional(&self.executable_location)?;
        let send_header = match self.send_header {
            HostCallback::Absent => HostCallback::NoOpSendHeader,
            other => other,
        };
        let m = SapiModule {
            name,
            pretty_name,
            startup: self.startup,
            shutdown: self.shutdown,
            activate: self.activate,
            deactivate: self.deactivate,
            ub_write: self.ub_write,
            flush: self.flush,
            get_stat: HostCallback::Absent,
            getenv: self.getenv,
            sapi_error: HostCallback::DefaultErrorReporter,
            header_handler: HostCallback::Absent,
            send_headers: HostCallback::Absent,
            send_header,
            read_post: self.read_post,
            read_cookies: self.read_cookies,
            register_server_variables: self.register_server_variables,
            log_message: self.log_message,
            get_request_time: self.get_request_time,
            terminate_process: self.terminate_process,
            php_ini_path_override,
            default_post_reader: HostCallback::DefaultPostReader,
            treat_data: HostCallback::DefaultTreatData,
            executable_location,
            php_ini_ignore: self.php_ini_ignore,
            php_ini_ignore_cwd: self.php_ini_ignore_cwd,
            get_fd: HostCallback::Absent,
            force_http_10: HostCallback::Absent,
            get_target_uid: self.get_target_uid,
            get_target_gid: self.get_target_gid,
            input_filter: HostCallback::DefaultInputFilter,
            ini_defaults: HostCallback::Absent,
            phpinfo_as_text: 0,
            ini_entries: None,
            input_filter_init: HostCallback::Absent,
        };
        proof {
            assert(record_callbacks(m) =~= self.spec_callbacks().update(
                SLOT_SEND_HEADER as int,
                resolved_send_header(self.spec_callbacks()[SLOT_SEND_HEADER as int]),
            ));
        }
        Ok(m)
    }
}

/// Two finished records agree on every field, comparing strings by their
/// bytes.
pub open spec fn records_agree(m1: SapiModule, m2: SapiModule) -> bool {
    &&& m1.name.raw() == m2.name.raw()
    &&& m1.pretty_name.raw() == m2.pretty_name.raw()
    &&& m1.startup == m2.startup
    &&& m1.shutdown == m2.shutdown
    &&& m1.activate == m2.activate
    &&& m1.deactivate == m2.deactivate
    &&& m1.ub_write == m2.ub_write
    &&& m1.flush == m2.flush
    &&& m1.get_stat == m2.get_stat
    &&& m1.getenv == m2.getenv
    &&& m1.sapi_error == m2.sapi_error
    &&& m1.header_handler == m2.header_handler
    &&& m1.send_headers == m2.send_headers
    &&& m1.send_header == m2.send_header
    &&& m1.read_post == m2.read_post
    &&& m1.read_cookies == m2.read_cookies
    &&& m1.register_server_variables == m2.register_server_variables
    &&& m1.log_message == m2.log_message
    &&& m1.get_request_time == m2.get_request_time
    &&& m1.terminate_process == m2.terminate_process
    &&& opt_strings_agree(m1.php_ini_path_override, m2.php_ini_path_override)
    &&& m1.default_post_reader == m2.default_post_reader
    &&& m1.treat_data == m2.treat_data
    &&& opt_strings_agree(m1.executable_location, m2.executable_location)
    &&& m1.php_ini_ignore == m2.php_ini_ignore
    &&& m1.php_ini_ignore_cwd == m2.php_ini_ignore_cwd
    &&& m1.get_fd == m2.get_fd
    &&& m1.force_http_10 == m2.force_http_10
    &&& m1.get_target_uid == m2.get_target_uid
    &&& m1.get_target_gid == m2.get_target_gid
    &&& m1.input_filter == m2.input_filter
    &&& m1.ini_defaults == m2.ini_defaults
    &&& m1.phpinfo_as_text == m2.phpinfo_as_text
    &&& opt_strings_agree(m1.ini_entries, m2.ini_entries)
    &&& m1.input_filter_init == m2.input_filter_init
}

/// Two optional host strings agree: both absent, or both present with the
/// same bytes.
pub open spec fn opt_strings_agree(a: Option<OwnedHostString>, b: Option<OwnedHostString>) -> bool {
    match a {
        Option::None => b is None,
        Option::Some(s1) => b matches Option::Some(s2) && s1.raw() == s2.raw(),
    }
}

/// Finishing is deterministic in its defaulting: two builders holding
/// identical staged values finish into records that agree on every field,
/// so identical explicit setter calls always yield the same record.
pub proof fn lemma_build_deterministic(
    b1: SapiBuilder,
    b2: SapiBuilder,
    m1: SapiModule,
    m2: SapiModule,
)
    requires
        b1.spec_name() == b2.spec_name(),
        b1.spec_pretty_name() == b2.spec_pretty_name(),
        b1.spec_callbacks() == b2.spec_callbacks(),
        b1.spec_ini_path_override() == b2.spec_ini_path_override(),
        b1.spec_executable_location() == b2.spec_executable_location(),
        b1.spec_ini_flags() == b2.spec_ini_flags(),
        b1.finishes_to(m1),
        b2.finishes_to(m2),
    ensures
        records_agree(m1, m2),
{
    let cbs1 = record_callbacks(m1);
    let cbs2 = record_callbacks(m2);
    assert(cbs1 == cbs2);
    assert(m1.startup == cbs1[0] && m2.startup == cbs2[0]);
    assert(m1.shutdown == cbs1[1] && m2.shutdown == cbs2[1]);
    assert(m1.activate == cbs1[2] && m2.activate == cbs2[2]);
    assert(m1.deactivate == cbs1[3] && m2.deactivate == cbs2[3]);
    assert(m1.ub_write == cbs1[4] && m2.ub_write == cbs2[4]);
    assert(m1.flush == cbs1[5] && m2.flush == cbs2[5]);
    assert(m1.getenv == cbs1[6] && m2.getenv == cbs2[6]);
    assert(m1.send_header == cbs1[7] && m2.send_header == cbs2[7]);
    assert(m1.read_post == cbs1[8] && m2.read_post == cbs2[8]);
    assert(m1.read_cookies == cbs1[9] && m2.read_cookies == cbs2[9]);
    assert(m1.register_server_variables == cbs1[10] && m2.register_server_variables == cbs2[10]);
    assert(m1.log_message == cbs1[11] && m2.log_message == cbs2[11]);
    assert(m1.get_request_time == cbs1[12] && m2.get_request_time == cbs2[12]);
    assert(m1.terminate_process == cbs1[13] && m2.terminate_process == cbs2[13]);
    assert(m1.get_target_uid == cbs1[14] && m2.get_target_uid == cbs2[14]);
    assert(m1.get_target_gid == cbs1[15] && m2.get_target_gid == cbs2[15]);
}

/// Converts a staged optional string field for the finished record.
fn convert_optional(staged: &Option<Vec<u8>>) -> (r: Result<Option<OwnedHostString>, Error>)
    ensures
        r is Ok <==> opt_string_convertible(spec_opt_bytes(*staged)),
        r matches Ok(out) ==> finished_opt_string(spec_opt_bytes(*staged), out),
        r matches Err(e) ==> e == Error::StringConversionFailure,
{
    match staged {
        None => Ok(None),
        Some(bytes) => {
            let s = OwnedHostString::from_bytes(bytes.as_slice())?;
            Ok(Some(s))
        },
    }
}

/// The byte view of a staged optional string.
pub open spec fn spec_opt_bytes(staged: Option<Vec<u8>>) -> Option<Seq<u8>> {
    match staged {
        Option::None => Option::None,
        Option::Some(v) => Option::Some(v@),
    }
}

} // verus!
