//! Shared server state: backend URLs, the write permission gate, tool
//! exposure, the retry policy for backend requests and the size-limited
//! reading of response bodies.

use vstd::prelude::*;

use crate::error::{denied_with, io_failed_with, ok_string, rejected_with, ZoteroMcpError};
use crate::paths::{std_path_file_name, std_path_join, std_path_parent};
use crate::security::{
    cat2, cat4, decimal_string, direct_paths_disabled_message, file_name_missing_message,
    has_pdf_extension, not_pdf_message, opt_view, outside_allowed_message, parent_missing_message,
    path_allowed_spec, pdf_too_large_message, size_exceeded_message, strings_view, SecurityConfig,
};
use crate::text::{decimal_digits, eq_ignore_ascii_case_spec, str_eq, str_eq_ignore_ascii_case};

verus! {

/// Which tools the server lists.
#[derive(Clone, Copy, Debug, PartialEq, Eq, Structural)]
pub enum ToolExposureMode {
    /// Every registered tool.
    All,
    /// Every tool whose permission gate is open.
    Gated,
    /// Only the grouped routers whose permission gate is open.
    Compact,
}

/// The settings the state is read from, one field per variable, each
/// `None` when the variable is unset.
pub struct AppEnv {
    /// `ZOTERO_API_URL`.
    pub zotero_api_url: Option<String>,
    /// `BETTER_BIBTEX_URL`.
    pub better_bibtex_url: Option<String>,
    /// `BETTER_NOTES_URL`.
    pub better_notes_url: Option<String>,
    /// `CROSSREF_URL`.
    pub crossref_url: Option<String>,
    /// `SEMANTIC_SCHOLAR_URL`.
    pub semantic_scholar_url: Option<String>,
    /// `OPEN_LIBRARY_URL`.
    pub open_library_url: Option<String>,
    /// `ZOTERO_WRITE_ENABLED`.
    pub write_enabled: Option<String>,
    /// `ZOTERO_SQLITE_ACCESS`.
    pub sqlite_access: Option<String>,
    /// `ZOTERO_MCP_MODE`.
    pub tool_mode: Option<String>,
}

/// Configuration shared by every tool handler.
pub struct AppState {
    /// Base URL of the Zotero local HTTP API.
    pub zotero_api_url: String,
    /// Base URL of the Better BibTeX JSON-RPC endpoint.
    pub better_bibtex_url: String,
    /// Base URL of the Better Notes bridge.
    pub better_notes_url: String,
    /// Base URL of the Crossref works API.
    pub crossref_url: String,
    /// Base URL of the Semantic Scholar graph API.
    pub semantic_scholar_url: String,
    /// Base URL of the Open Library books API.
    pub open_library_url: String,
    /// Security profile, allowlists and size limits.
    pub security: SecurityConfig,
    /// Whether writes to the library are allowed.
    pub write_enabled: bool,
    /// Whether the local SQLite database may be searched.
    pub sqlite_access: bool,
    /// Which tools are listed.
    pub tool_mode: ToolExposureMode,
}

/// A flag setting is on when it is `1` or `true` in any ASCII case.
pub open spec fn flag_spec(v: Option<Seq<char>>) -> bool {
    match v {
        Some(s) => s == "1"@ || eq_ignore_ascii_case_spec(s, "true"@),
        None => false,
    }
}

/// Reads a flag setting (see [`flag_spec`]).
pub fn parse_flag(v: &Option<String>) -> (r: bool)
    ensures
        r == flag_spec(opt_view(*v)),
{
    match v {
        Some(s) => str_eq(s.as_str(), "1") || str_eq_ignore_ascii_case(s.as_str(), "true"),
        None => false,
    }
}

/// The exposure mode a mode name selects: `all`, `gated`, and compact for
/// anything else or an unset variable.
pub open spec fn tool_mode_spec(v: Option<Seq<char>>) -> ToolExposureMode {
    match v {
        Some(s) => if s == "all"@ {
            ToolExposureMode::All
        } else if s == "gated"@ {
            ToolExposureMode::Gated
        } else {
            ToolExposureMode::Compact
        },
        None => ToolExposureMode::Compact,
    }
}

/// Reads a tool exposure mode name (see [`tool_mode_spec`]).
pub fn parse_tool_mode(v: &Option<String>) -> (r: ToolExposureMode)
    ensures
        r == tool_mode_spec(opt_view(*v)),
{
    match v {
        Some(s) => {
            if str_eq(s.as_str(), "all") {
                ToolExposureMode::All
            } else if str_eq(s.as_str(), "gated") {
                ToolExposureMode::Gated
            } else {
                ToolExposureMode::Compact
            }
        },
        None => ToolExposureMode::Compact,
    }
}

/// The setting when set, else `default`.
pub open spec fn or_default(v: Option<Seq<char>>, default: Seq<char>) -> Seq<char> {
    match v {
        Some(s) => s,
        None => default,
    }
}

fn url_or(v: &Option<String>, default: &str) -> (r: String)
    ensures
        r@ == or_default(opt_view(*v), default@),
{
    match v {
        Some(s) => s.clone(),
        None => default.to_owned(),
    }
}

/// The message given when a write is attempted while writes are disabled.
pub open spec fn write_disabled_message() -> Seq<char> {
    "Write operation rejected: set ZOTERO_WRITE_ENABLED=1 to enable modifying Zotero library"@
}

impl AppState {
    /// Builds the state from `env` and an already read security
    /// configuration. Unset URLs take the local plugin ports or the public
    /// endpoints; writes and SQLite access are off unless their flags are
    /// on.
    pub fn from_settings(env: &AppEnv, security: SecurityConfig) -> (r: Self)
        ensures
            r.zotero_api_url@ == or_default(opt_view(env.zotero_api_url), "http://127.0.0.1:23119/api"@),
            r.better_bibtex_url@ == or_default(opt_view(env.better_bibtex_url), "http://127.0.0.1:23119/better-bibtex/json-rpc"@),
            r.better_notes_url@ == or_default(opt_view(env.better_notes_url), "http://127.0.0.1:23119/better-notes"@),
            r.crossref_url@ == or_default(opt_view(env.crossref_url), "https://api.crossref.org"@),
            r.semantic_scholar_url@ == or_default(opt_view(env.semantic_scholar_url), "https://api.semanticscholar.org"@),
            r.open_library_url@ == or_default(opt_view(env.open_library_url), "https://openlibrary.org"@),
            r.write_enabled == flag_spec(opt_view(env.write_enabled)),
            r.sqlite_access == flag_spec(opt_view(env.sqlite_access)),
            r.tool_mode == tool_mode_spec(opt_view(env.tool_mode)),
            r.security == security,
    {
        AppState {
            zotero_api_url: url_or(&env.zotero_api_url, "http://127.0.0.1:23119/api"),
            better_bibtex_url: url_or(&env.better_bibtex_url, "http://127.0.0.1:23119/better-bibtex/json-rpc"),
            better_notes_url: url_or(&env.better_notes_url, "http://127.0.0.1:23119/better-notes"),
            crossref_url: url_or(&env.crossref_url, "https://api.crossref.org"),
            semantic_scholar_url: url_or(&env.semantic_scholar_url, "https://api.semanticscholar.org"),
            open_library_url: url_or(&env.open_library_url, "https://openlibrary.org"),
            security,
            write_enabled: parse_flag(&env.write_enabled),
            sqlite_access: parse_flag(&env.sqlite_access),
            tool_mode: parse_tool_mode(&env.tool_mode),
        }
    }

    /// Refuses a write unless writes are enabled; every mutating operation
    /// calls this before touching the library.
    pub fn check_write_permission(&self) -> (r: Result<(), ZoteroMcpError>)
        ensures
            self.write_enabled ==> r is Ok,
            !self.write_enabled ==> denied_with(r, write_disabled_message()),
    {
        if self.write_enabled {
            Ok(())
        } else {
            Err(ZoteroMcpError::PermissionDenied(
                "Write operation rejected: set ZOTERO_WRITE_ENABLED=1 to enable modifying Zotero library".to_owned(),
            ))
        }
    }

    /// Refuses direct file paths unless the security configuration enables
    /// them.
    pub fn check_direct_file_paths_enabled(&self) -> (r: Result<(), ZoteroMcpError>)
        ensures
            self.security.direct_file_paths ==> r is Ok,
            !self.security.direct_file_paths ==> rejected_with(r, direct_paths_disabled_message()),
    {
        self.security.check_direct_file_paths_enabled()
    }

    /// Decides a read of an existing file (see
    /// [`SecurityConfig::check_existing_read_path`]).
    pub fn check_existing_read_path(
        &self,
        canonical: Result<String, String>,
        canonical_roots: &Vec<String>,
        purpose: &str,
    ) -> (r: Result<String, ZoteroMcpError>)
        ensures
            canonical matches Err(e) ==> io_failed_with(r, e@),
            canonical matches Ok(c) ==> (path_allowed_spec(c@, strings_view(canonical_roots@)) ==> ok_string(r, c@)),
            canonical matches Ok(c) ==> (!path_allowed_spec(c@, strings_view(canonical_roots@)) ==> rejected_with(r, outside_allowed_message(purpose@, c@))),
    {
        self.security.check_existing_read_path(canonical, canonical_roots, purpose)
    }

    /// Decides an output path (see [`SecurityConfig::check_output_path`]).
    pub fn check_output_path(
        &self,
        path: &str,
        canonical_parent: Option<String>,
        canonical_roots: &Vec<String>,
        purpose: &str,
    ) -> (r: Result<String, ZoteroMcpError>)
        ensures
            (std_path_parent(path@) is None || canonical_parent is None) ==> rejected_with(r, parent_missing_message(purpose@)),
            std_path_parent(path@) is Some ==> (canonical_parent matches Some(cp) ==> (!path_allowed_spec(cp@, strings_view(canonical_roots@)) ==> rejected_with(r, outside_allowed_message(purpose@, path@)))),
            std_path_parent(path@) is Some ==> (canonical_parent matches Some(cp) ==> (path_allowed_spec(cp@, strings_view(canonical_roots@)) ==> (std_path_file_name(path@) is None ==> rejected_with(r, file_name_missing_message(purpose@))))),
            std_path_parent(path@) is Some ==> (canonical_parent matches Some(cp) ==> (path_allowed_spec(cp@, strings_view(canonical_roots@)) ==> (std_path_file_name(path@) matches Some(f) ==> ok_string(r, std_path_join(cp@, f))))),
    {
        self.security.check_output_path(path, canonical_parent, canonical_roots, purpose)
    }

    /// Checks a PDF file (see [`SecurityConfig::check_pdf_file`]).
    pub fn check_pdf_file(&self, path: &str, len: Result<u64, String>) -> (r: Result<(), ZoteroMcpError>)
        ensures
            !has_pdf_extension(path@) ==> rejected_with(r, not_pdf_message(path@)),
            has_pdf_extension(path@) ==> (len matches Err(e) ==> io_failed_with(r, e@)),
            has_pdf_extension(path@) ==> (len matches Ok(n) ==> (n <= self.security.max_pdf_bytes ==> r is Ok)),
            has_pdf_extension(path@) ==> (len matches Ok(n) ==> (n > self.security.max_pdf_bytes ==> rejected_with(r, pdf_too_large_message(path@, self.security.max_pdf_bytes as nat)))),
    {
        self.security.check_pdf_file(path, len)
    }

    /// Size check of Markdown text (see
    /// [`SecurityConfig::check_markdown_size`]).
    pub fn check_markdown_size(&self, markdown: &str) -> (r: Result<(), ZoteroMcpError>)
        ensures
            markdown.len() <= self.security.max_markdown_bytes ==> r is Ok,
            markdown.len() > self.security.max_markdown_bytes ==> rejected_with(r, size_exceeded_message("markdown"@, self.security.max_markdown_bytes as nat)),
    {
        self.security.check_markdown_size(markdown)
    }

    /// Size check of HTML text (see [`SecurityConfig::check_html_size`]).
    pub fn check_html_size(&self, html: &str) -> (r: Result<(), ZoteroMcpError>)
        ensures
            html.len() <= self.security.max_html_bytes ==> r is Ok,
            html.len() > self.security.max_html_bytes ==> rejected_with(r, size_exceeded_message("HTML"@, self.security.max_html_bytes as nat)),
    {
        self.security.check_html_size(html)
    }

    /// Size check of a template name (see
    /// [`SecurityConfig::check_template_name_size`]).
    pub fn check_template_name_size(&self, name: &str) -> (r: Result<(), ZoteroMcpError>)
        ensures
            name.len() <= self.security.max_template_name_bytes ==> r is Ok,
            name.len() > self.security.max_template_name_bytes ==> rejected_with(r, size_exceeded_message("template name"@, self.security.max_template_name_bytes as nat)),
    {
        self.security.check_template_name_size(name)
    }
}

/// Attempts a backend request gets in all.
pub const RETRY_MAX_ATTEMPTS: u32 = 3;

/// Delay before the first retry, in milliseconds.
pub const RETRY_BASE_DELAY_MS: u64 = 200;

/// Longest delay between attempts, in milliseconds.
pub const RETRY_MAX_DELAY_MS: u64 = 5000;

/// A response status is worth retrying: a server error (5xx) or
/// "too many requests" (429).
pub open spec fn transient_status_spec(status: u16) -> bool {
    (500 <= status && status <= 599) || status == 429
}

/// Whether a response status is worth retrying.
pub fn is_transient_status(status: u16) -> (r: bool)
    ensures
        r == transient_status_spec(status),
{
    (500 <= status && status <= 599) || status == 429
}

/// Whether a transport error is worth retrying: a timeout or a failure to
/// connect.
pub fn is_transient_error(is_timeout: bool, is_connect: bool) -> (r: bool)
    ensures
        r == (is_timeout || is_connect),
{
    is_timeout || is_connect
}

/// What one attempt of a backend request gave.
#[derive(Clone, Copy, Debug, PartialEq, Eq, Structural)]
pub enum AttemptOutcome {
    /// A response with this status arrived.
    Response(u16),
    /// The transport failed; whether by timeout or connection failure.
    TransportError { timeout: bool, connect: bool },
}

/// What to do after an attempt.
#[derive(Clone, Copy, Debug, PartialEq, Eq, Structural)]
pub enum RetryAction {
    /// Hand the attempt's outcome to the caller.
    Finish,
    /// Wait this many milliseconds, then attempt again.
    RetryAfter(u64),
}

/// An attempt outcome is worth retrying.
pub open spec fn transient_outcome(o: AttemptOutcome) -> bool {
    match o {
        AttemptOutcome::Response(s) => transient_status_spec(s),
        AttemptOutcome::TransportError { timeout, connect } => timeout || connect,
    }
}

/// The retry state of one backend request: how many attempts were made
/// and the delay before the next retry.
pub struct RetryPolicy {
    /// Attempts made so far.
    pub attempts: u32,
    /// Delay before the next retry, in milliseconds.
    pub delay_ms: u64,
}

/// The delay after `d`: doubled, at most the longest delay.
pub open spec fn next_delay_spec(d: u64) -> u64 {
    if d * 2 > RETRY_MAX_DELAY_MS {
        RETRY_MAX_DELAY_MS
    } else {
        (d * 2) as u64
    }
}

impl RetryPolicy {
    /// The state of a request before its first attempt.
    pub fn new() -> (r: Self)
        ensures
            r.attempts == 0,
            r.delay_ms == RETRY_BASE_DELAY_MS,
    {
        RetryPolicy { attempts: 0, delay_ms: RETRY_BASE_DELAY_MS }
    }

    /// The retry state holds between attempts: fewer attempts than the
    /// maximum and a delay between the base and the longest delay.
    pub open spec fn wf(&self) -> bool {
        &&& self.attempts < RETRY_MAX_ATTEMPTS
        &&& RETRY_BASE_DELAY_MS <= self.delay_ms <= RETRY_MAX_DELAY_MS
    }

    /// Records an attempt's outcome and decides what follows. The last
    /// allowed attempt always finishes; a non-transient outcome finishes;
    /// a transient one waits the current delay and doubles it, capped at
    /// the longest delay. A request that cannot be repeated (`repeatable`
    /// false) finishes after its one attempt.
    pub fn after_attempt(&mut self, outcome: AttemptOutcome, repeatable: bool) -> (r: RetryAction)
        requires
            old(self).wf(),
        ensures
            final(self).attempts == old(self).attempts + 1,
            (!repeatable || !transient_outcome(outcome) || old(self).attempts + 1 >= RETRY_MAX_ATTEMPTS) ==> r == RetryAction::Finish,
            (repeatable && transient_outcome(outcome) && old(self).attempts + 1 < RETRY_MAX_ATTEMPTS) ==> (
                r == RetryAction::RetryAfter(old(self).delay_ms)
                && final(self).delay_ms == next_delay_spec(old(self).delay_ms)
                && final(self).wf()
            ),
    {
        let transient = match outcome {
            AttemptOutcome::Response(s) => is_transient_status(s),
            AttemptOutcome::TransportError { timeout, connect } => is_transient_error(timeout, connect),
        };
        self.attempts = self.attempts + 1;
        if !repeatable || !transient || self.attempts >= RETRY_MAX_ATTEMPTS {
            RetryAction::Finish
        } else {
            let d = self.delay_ms;
            let doubled = d * 2;
            self.delay_ms = if doubled > RETRY_MAX_DELAY_MS { RETRY_MAX_DELAY_MS } else { doubled };
            RetryAction::RetryAfter(d)
        }
    }
}

/// Delays between attempts never shrink and never pass the longest delay.
pub proof fn law_retry_delays_stay_bounded(d: u64)
    requires
        RETRY_BASE_DELAY_MS <= d <= RETRY_MAX_DELAY_MS,
    ensures
        d <= next_delay_spec(d) <= RETRY_MAX_DELAY_MS,
{
}

/// The decoded text of UTF-8 `bytes`, when they are valid UTF-8.
pub open spec fn utf8_text_spec(bytes: Seq<u8>) -> Option<Seq<char>> {
    if vstd::utf8::valid_utf8(bytes) {
        Some(vstd::utf8::decode_utf8(bytes))
    } else {
        None
    }
}

/// Decodes UTF-8 bytes.
///
/// Trusted: calls `String::from_utf8`, which std documents as succeeding
/// exactly on valid UTF-8 and then holding the decoded characters; the
/// claim is stated with vstd's model of UTF-8.
#[verifier::external_body]
fn string_from_utf8(bytes: Vec<u8>) -> (r: Option<String>)
    ensures
        r is None ==> utf8_text_spec(bytes@) is None,
        r matches Some(s) ==> utf8_text_spec(bytes@) == Some(s@),
{
    String::from_utf8(bytes).ok()
}

/// The message given when a body of `context` is longer than `max` bytes.
pub open spec fn body_too_large_message(context: Seq<char>, max: nat) -> Seq<char> {
    size_exceeded_message(context, max)
}

/// The message given when a body of `context` is not valid UTF-8.
pub open spec fn body_not_utf8_message(context: Seq<char>) -> Seq<char> {
    context + " is not valid UTF-8"@
}

/// A response body read chunk by chunk under a size limit.
pub struct LimitedBody {
    /// The bytes accepted so far.
    pub body: Vec<u8>,
    /// The largest body accepted, in bytes.
    pub max_bytes: usize,
}

impl LimitedBody {
    /// The body never holds more than its limit.
    pub open spec fn wf(&self) -> bool {
        self.body.len() <= self.max_bytes
    }

    /// Starts reading a body of `context`; a declared length above the
    /// limit is refused before any byte is read.
    pub fn start(max_bytes: usize, content_length: Option<u64>, context: &str) -> (r: Result<Self, ZoteroMcpError>)
        ensures
            (content_length matches Some(n) && n > max_bytes) ==> rejected_with(r, body_too_large_message(context@, max_bytes as nat)),
            !(content_length matches Some(n) && n > max_bytes) ==> (r matches Ok(b) && b.body@.len() == 0 && b.max_bytes == max_bytes && b.wf()),
    {
        let too_large = match content_length {
            Some(n) => n as u128 > max_bytes as u128,
            None => false,
        };
        if too_large {
            Err(ZoteroMcpError::InputRejected(size_message(context, max_bytes)))
        } else {
            Ok(LimitedBody { body: Vec::new(), max_bytes })
        }
    }

    /// Accepts the next chunk, or refuses it when the body would exceed the
    /// limit; a refused chunk leaves the body as it was.
    pub fn push_chunk(&mut self, chunk: &[u8], context: &str) -> (r: Result<(), ZoteroMcpError>)
        requires
            old(self).wf(),
        ensures
            final(self).wf(),
            final(self).max_bytes == old(self).max_bytes,
            old(self).body@.len() + chunk@.len() <= old(self).max_bytes ==> (r is Ok && final(self).body@ == old(self).body@ + chunk@),
            old(self).body@.len() + chunk@.len() > old(self).max_bytes ==> (rejected_with(r, body_too_large_message(context@, old(self).max_bytes as nat)) && final(self).body@ == old(self).body@),
    {
        if self.body.len() as u128 + chunk.len() as u128 > self.max_bytes as u128 {
            return Err(ZoteroMcpError::InputRejected(size_message(context, self.max_bytes)));
        }
        let mut i: usize = 0;
        let ghost start = self.body@;
        while i < chunk.len()
            invariant
                0 <= i <= chunk.len(),
                self.body@ == start + chunk@.take(i as int),
                start.len() + chunk@.len() <= self.max_bytes,
                self.max_bytes == old(self).max_bytes,
                start == old(self).body@,
            decreases chunk.len() - i,
        {
            self.body.push(chunk[i]);
            i = i + 1;
            assert(self.body@ =~= start + chunk@.take(i as int));
        }
        assert(chunk@.take(chunk.len() as int) =~= chunk@);
        Ok(())
    }

    /// Ends the read: the body as text, or a refusal when it is not valid
    /// UTF-8.
    pub fn finish(self, context: &str) -> (r: Result<String, ZoteroMcpError>)
        ensures
            utf8_text_spec(self.body@) matches Some(t) ==> ok_string(r, t),
            utf8_text_spec(self.body@) is None ==> rejected_with(r, body_not_utf8_message(context@)),
    {
        match string_from_utf8(self.body) {
            Some(s) => Ok(s),
            None => Err(ZoteroMcpError::InputRejected(cat2(context, " is not valid UTF-8"))),
        }
    }
}

fn size_message(context: &str, max_bytes: usize) -> (r: String)
    ensures
        r@ == size_exceeded_message(context@, max_bytes as nat),
{
    let m: u64 = max_bytes as u64;
    let n = decimal_string(m);
    cat4(context, " exceeds ", n.as_str(), " bytes")
}

} // verus!
