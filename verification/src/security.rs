//! Security profiles, path allowlists and input size limits.
//!
//! A configuration starts from one of four profiles and is then adjusted by
//! explicit settings. Checks against it decide whether a path may be read
//! or written and whether a text is small enough to accept.

use vstd::prelude::*;

use crate::error::{io_failed_with, ok_string, rejected_with, ZoteroMcpError};
use crate::paths::{
    path_extension, path_file_name, path_join, path_parent, path_starts_with, std_path_extension,
    std_path_file_name, std_path_join, std_path_parent, std_path_starts_with,
};
use crate::text::{
    ascii_lower, ascii_lower_char, chars_eq, chars_of, decimal_digits, eq_ignore_ascii_case_spec, extend_chars,
    extend_str, parse_u64_str, parse_unsigned_spec, parse_usize_str, str_eq,
    str_eq_ignore_ascii_case, string_from_chars, to_ascii_lowercase, usize_to_decimal,
};

verus! {

/// Largest PDF accepted by default (50 MiB).
pub const DEFAULT_MAX_PDF_BYTES: u64 = 50 * 1024 * 1024;

/// Largest HTTP body accepted by default (10 MiB).
pub const DEFAULT_MAX_HTTP_BODY_BYTES: usize = 10 * 1024 * 1024;

/// Largest Markdown text accepted by default (2 MiB).
pub const DEFAULT_MAX_MARKDOWN_BYTES: usize = 2 * 1024 * 1024;

/// Largest HTML text accepted by default (2 MiB).
pub const DEFAULT_MAX_HTML_BYTES: usize = 2 * 1024 * 1024;

/// Longest template name accepted (128 bytes).
pub const DEFAULT_MAX_TEMPLATE_NAME_BYTES: usize = 128;

/// Largest PDF accepted by the hardened profile (25 MiB).
pub const HARDENED_MAX_PDF_BYTES: u64 = 25 * 1024 * 1024;

/// Largest HTTP body accepted by the hardened profile (2 MiB).
pub const HARDENED_MAX_HTTP_BODY_BYTES: usize = 2 * 1024 * 1024;

/// Largest Markdown text accepted by the hardened profile (512 KiB).
pub const HARDENED_MAX_MARKDOWN_BYTES: usize = 512 * 1024;

/// Largest HTML text accepted by the hardened profile (512 KiB).
pub const HARDENED_MAX_HTML_BYTES: usize = 512 * 1024;

/// Security profiles of the server.
#[derive(Clone, Copy, Debug, PartialEq, Eq, Structural)]
pub enum SecurityProfile {
    /// Conservative read-only access.
    Default,
    /// Reads and exports relative to the working directory.
    Workspace,
    /// Reads from the user's document and download directories.
    TrustedLocal,
    /// Smaller size limits.
    Hardened,
}

/// Path allowlists and size limits.
#[derive(Debug)]
pub struct SecurityConfig {
    /// Active profile.
    pub profile: SecurityProfile,
    /// Whether direct file paths may be given.
    pub direct_file_paths: bool,
    /// Whether file path checking is enabled.
    pub file_paths_enabled: bool,
    /// Directories files may be read from.
    pub allowed_read_dirs: Vec<String>,
    /// Directories auxiliary tools may read from.
    pub allowed_aux_dirs: Vec<String>,
    /// Directories exports may be written to.
    pub allowed_export_dirs: Vec<String>,
    /// Largest PDF accepted, in bytes.
    pub max_pdf_bytes: u64,
    /// Largest HTTP response body accepted, in bytes.
    pub max_http_body_bytes: usize,
    /// Largest Markdown text accepted, in bytes.
    pub max_markdown_bytes: usize,
    /// Largest HTML text accepted, in bytes.
    pub max_html_bytes: usize,
    /// Longest template name accepted, in bytes.
    pub max_template_name_bytes: usize,
}

/// The mathematical content of a [`SecurityConfig`].
pub struct SecurityPolicy {
    pub profile: SecurityProfile,
    pub direct_file_paths: bool,
    pub file_paths_enabled: bool,
    pub allowed_read_dirs: Seq<Seq<char>>,
    pub allowed_aux_dirs: Seq<Seq<char>>,
    pub allowed_export_dirs: Seq<Seq<char>>,
    pub max_pdf_bytes: u64,
    pub max_http_body_bytes: usize,
    pub max_markdown_bytes: usize,
    pub max_html_bytes: usize,
    pub max_template_name_bytes: usize,
}

/// The character sequences of a list of strings.
pub open spec fn strings_view(v: Seq<String>) -> Seq<Seq<char>> {
    v.map_values(|s: String| s@)
}

impl View for SecurityConfig {
    type V = SecurityPolicy;

    open spec fn view(&self) -> SecurityPolicy {
        SecurityPolicy {
            profile: self.profile,
            direct_file_paths: self.direct_file_paths,
            file_paths_enabled: self.file_paths_enabled,
            allowed_read_dirs: strings_view(self.allowed_read_dirs@),
            allowed_aux_dirs: strings_view(self.allowed_aux_dirs@),
            allowed_export_dirs: strings_view(self.allowed_export_dirs@),
            max_pdf_bytes: self.max_pdf_bytes,
            max_http_body_bytes: self.max_http_body_bytes,
            max_markdown_bytes: self.max_markdown_bytes,
            max_html_bytes: self.max_html_bytes,
            max_template_name_bytes: self.max_template_name_bytes,
        }
    }
}

/// The default policy: no direct paths, no allowed directories, default
/// size limits.
pub open spec fn default_policy() -> SecurityPolicy {
    SecurityPolicy {
        profile: SecurityProfile::Default,
        direct_file_paths: false,
        file_paths_enabled: false,
        allowed_read_dirs: Seq::empty(),
        allowed_aux_dirs: Seq::empty(),
        allowed_export_dirs: Seq::empty(),
        max_pdf_bytes: DEFAULT_MAX_PDF_BYTES,
        max_http_body_bytes: DEFAULT_MAX_HTTP_BODY_BYTES,
        max_markdown_bytes: DEFAULT_MAX_MARKDOWN_BYTES,
        max_html_bytes: DEFAULT_MAX_HTML_BYTES,
        max_template_name_bytes: DEFAULT_MAX_TEMPLATE_NAME_BYTES,
    }
}

impl Default for SecurityConfig {
    fn default() -> (r: Self)
        ensures
            r@ == default_policy(),
    {
        let r = SecurityConfig {
            profile: SecurityProfile::Default,
            direct_file_paths: false,
            file_paths_enabled: false,
            allowed_read_dirs: Vec::new(),
            allowed_aux_dirs: Vec::new(),
            allowed_export_dirs: Vec::new(),
            max_pdf_bytes: DEFAULT_MAX_PDF_BYTES,
            max_http_body_bytes: DEFAULT_MAX_HTTP_BODY_BYTES,
            max_markdown_bytes: DEFAULT_MAX_MARKDOWN_BYTES,
            max_html_bytes: DEFAULT_MAX_HTML_BYTES,
            max_template_name_bytes: DEFAULT_MAX_TEMPLATE_NAME_BYTES,
        };
        assert(strings_view(r.allowed_read_dirs@) =~= Seq::<Seq<char>>::empty());
        assert(strings_view(r.allowed_aux_dirs@) =~= Seq::<Seq<char>>::empty());
        assert(strings_view(r.allowed_export_dirs@) =~= Seq::<Seq<char>>::empty());
        r
    }
}

/// The default configuration with `max_pdf_bytes` as its PDF size limit.
pub fn security_with_pdf_limit(max_pdf_bytes: u64) -> (r: SecurityConfig)
    ensures
        r@ == (SecurityPolicy { max_pdf_bytes, ..default_policy() }),
{
    let mut c = SecurityConfig::default();
    c.max_pdf_bytes = max_pdf_bytes;
    c
}

/// The settings the configuration is read from, one field per variable,
/// each `None` when the variable is unset. Directory lists arrive already
/// split at the platform's path-list separator.
pub struct SecurityEnv {
    /// `ZOTERO_MCP_PROFILE`.
    pub profile: Option<String>,
    /// `ZOTERO_DIRECT_FILE_PATHS`.
    pub direct_file_paths: Option<String>,
    /// `ZOTERO_FILE_PATHS_ENABLED`.
    pub file_paths_enabled: Option<String>,
    /// `ZOTERO_ALLOWED_READ_DIRS`.
    pub allowed_read_dirs: Option<Vec<String>>,
    /// `ZOTERO_ALLOWED_AUX_DIRS`.
    pub allowed_aux_dirs: Option<Vec<String>>,
    /// `ZOTERO_ALLOWED_EXPORT_DIRS`.
    pub allowed_export_dirs: Option<Vec<String>>,
    /// `ZOTERO_MAX_PDF_BYTES`.
    pub max_pdf_bytes: Option<String>,
    /// `ZOTERO_MAX_HTTP_BODY_BYTES`.
    pub max_http_body_bytes: Option<String>,
    /// `ZOTERO_MAX_MARKDOWN_BYTES`.
    pub max_markdown_bytes: Option<String>,
    /// `ZOTERO_MAX_HTML_BYTES`.
    pub max_html_bytes: Option<String>,
    /// `ZOTERO_MAX_TEMPLATE_NAME_BYTES`.
    pub max_template_name_bytes: Option<String>,
}

/// The character sequence of an optional string.
pub open spec fn opt_view(o: Option<String>) -> Option<Seq<char>> {
    match o {
        Some(s) => Some(s@),
        None => None,
    }
}

/// The character sequences of an optional list of strings.
pub open spec fn opt_list_view(o: Option<Vec<String>>) -> Option<Seq<Seq<char>>> {
    match o {
        Some(v) => Some(strings_view(v@)),
        None => None,
    }
}

/// The profile a profile name selects; unknown names and an unset variable
/// select the default profile.
pub open spec fn profile_from_name(name: Option<Seq<char>>) -> SecurityProfile {
    match name {
        Some(s) => if s == "workspace"@ {
            SecurityProfile::Workspace
        } else if s == "trusted-local"@ {
            SecurityProfile::TrustedLocal
        } else if s == "hardened"@ {
            SecurityProfile::Hardened
        } else {
            SecurityProfile::Default
        },
        None => SecurityProfile::Default,
    }
}

/// A boolean setting: after ASCII lower-casing, `1`, `true`, `yes` and `y`
/// are true, `0`, `false`, `no` and `n` are false, anything else is no
/// setting.
pub open spec fn parse_bool_spec(v: Seq<char>) -> Option<bool> {
    let l = ascii_lower(v);
    if l == "1"@ || l == "true"@ || l == "yes"@ || l == "y"@ {
        Some(true)
    } else if l == "0"@ || l == "false"@ || l == "no"@ || l == "n"@ {
        Some(false)
    } else {
        None
    }
}

/// The policy a profile starts from, before explicit settings.
pub open spec fn profile_policy(profile: SecurityProfile, current_dir: Seq<char>, home_dir: Option<Seq<char>>) -> SecurityPolicy {
    let d = default_policy();
    match profile {
        SecurityProfile::Default => d,
        SecurityProfile::Workspace => SecurityPolicy {
            profile: SecurityProfile::Workspace,
            direct_file_paths: true,
            file_paths_enabled: true,
            allowed_read_dirs: seq![current_dir],
            allowed_aux_dirs: seq![current_dir],
            allowed_export_dirs: seq![std_path_join(current_dir, "exports"@)],
            ..d
        },
        SecurityProfile::TrustedLocal => match home_dir {
            Some(h) => SecurityPolicy {
                profile: SecurityProfile::TrustedLocal,
                direct_file_paths: true,
                file_paths_enabled: true,
                allowed_read_dirs: seq![
                    std_path_join(h, "Documents"@),
                    std_path_join(h, "Downloads"@),
                    std_path_join(h, "Zotero/storage"@),
                ],
                allowed_aux_dirs: seq![std_path_join(h, "Documents"@), std_path_join(h, "Downloads"@)],
                allowed_export_dirs: seq![std_path_join(h, "Documents/Zotero Exports"@)],
                ..d
            },
            None => SecurityPolicy {
                profile: SecurityProfile::TrustedLocal,
                direct_file_paths: true,
                file_paths_enabled: true,
                ..d
            },
        },
        SecurityProfile::Hardened => SecurityPolicy {
            profile: SecurityProfile::Hardened,
            max_pdf_bytes: HARDENED_MAX_PDF_BYTES,
            max_http_body_bytes: HARDENED_MAX_HTTP_BODY_BYTES,
            max_markdown_bytes: HARDENED_MAX_MARKDOWN_BYTES,
            max_html_bytes: HARDENED_MAX_HTML_BYTES,
            ..d
        },
    }
}

/// A boolean setting replaces `old` when it parses.
pub open spec fn override_bool(old: bool, v: Option<Seq<char>>) -> bool {
    match v {
        Some(s) => match parse_bool_spec(s) {
            Some(b) => b,
            None => old,
        },
        None => old,
    }
}

/// A directory list setting replaces `old` whenever it is set.
pub open spec fn override_dirs(old: Seq<Seq<char>>, v: Option<Seq<Seq<char>>>) -> Seq<Seq<char>> {
    match v {
        Some(d) => d,
        None => old,
    }
}

/// A size setting replaces `old` when it parses as a number no larger than
/// `max`.
pub open spec fn override_num(old: nat, v: Option<Seq<char>>, max: nat) -> nat {
    match v {
        Some(s) => match parse_unsigned_spec(s, max) {
            Some(n) => n,
            None => old,
        },
        None => old,
    }
}

/// The configuration read from `env`: the profile's policy, then every set
/// and valid explicit setting in its place.
pub open spec fn policy_from_sources(
    profile: Option<Seq<char>>,
    direct_file_paths: Option<Seq<char>>,
    file_paths_enabled: Option<Seq<char>>,
    read_dirs: Option<Seq<Seq<char>>>,
    aux_dirs: Option<Seq<Seq<char>>>,
    export_dirs: Option<Seq<Seq<char>>>,
    max_pdf: Option<Seq<char>>,
    max_http: Option<Seq<char>>,
    max_markdown: Option<Seq<char>>,
    max_html: Option<Seq<char>>,
    max_template: Option<Seq<char>>,
    current_dir: Seq<char>,
    home_dir: Option<Seq<char>>,
) -> SecurityPolicy {
    let b = profile_policy(profile_from_name(profile), current_dir, home_dir);
    SecurityPolicy {
        profile: b.profile,
        direct_file_paths: override_bool(b.direct_file_paths, direct_file_paths),
        file_paths_enabled: override_bool(b.file_paths_enabled, file_paths_enabled),
        allowed_read_dirs: override_dirs(b.allowed_read_dirs, read_dirs),
        allowed_aux_dirs: override_dirs(b.allowed_aux_dirs, aux_dirs),
        allowed_export_dirs: override_dirs(b.allowed_export_dirs, export_dirs),
        max_pdf_bytes: override_num(b.max_pdf_bytes as nat, max_pdf, u64::MAX as nat) as u64,
        max_http_body_bytes: override_num(b.max_http_body_bytes as nat, max_http, usize::MAX as nat) as usize,
        max_markdown_bytes: override_num(b.max_markdown_bytes as nat, max_markdown, usize::MAX as nat) as usize,
        max_html_bytes: override_num(b.max_html_bytes as nat, max_html, usize::MAX as nat) as usize,
        max_template_name_bytes: override_num(b.max_template_name_bytes as nat, max_template, usize::MAX as nat) as usize,
    }
}

/// The policy a [`SecurityEnv`] gives.
pub open spec fn env_policy(env: &SecurityEnv, current_dir: Seq<char>, home_dir: Option<Seq<char>>) -> SecurityPolicy {
    policy_from_sources(
        opt_view(env.profile),
        opt_view(env.direct_file_paths),
        opt_view(env.file_paths_enabled),
        opt_list_view(env.allowed_read_dirs),
        opt_list_view(env.allowed_aux_dirs),
        opt_list_view(env.allowed_export_dirs),
        opt_view(env.max_pdf_bytes),
        opt_view(env.max_http_body_bytes),
        opt_view(env.max_markdown_bytes),
        opt_view(env.max_html_bytes),
        opt_view(env.max_template_name_bytes),
        current_dir,
        home_dir,
    )
}

/// Reads a profile name.
pub fn parse_profile(name: &Option<String>) -> (r: SecurityProfile)
    ensures
        r == profile_from_name(opt_view(*name)),
{
    match name {
        Some(s) => {
            if str_eq(s.as_str(), "workspace") {
                SecurityProfile::Workspace
            } else if str_eq(s.as_str(), "trusted-local") {
                SecurityProfile::TrustedLocal
            } else if str_eq(s.as_str(), "hardened") {
                SecurityProfile::Hardened
            } else {
                SecurityProfile::Default
            }
        },
        None => SecurityProfile::Default,
    }
}

/// Reads a boolean setting (see [`parse_bool_spec`]).
pub fn parse_bool(value: &str) -> (r: Option<bool>)
    ensures
        r == parse_bool_spec(value@),
{
    let v = chars_of(value);
    let l = to_ascii_lowercase(&v);
    let t1 = chars_of("1");
    let t2 = chars_of("true");
    let t3 = chars_of("yes");
    let t4 = chars_of("y");
    let f1 = chars_of("0");
    let f2 = chars_of("false");
    let f3 = chars_of("no");
    let f4 = chars_of("n");
    if chars_eq(&l, &t1) || chars_eq(&l, &t2) || chars_eq(&l, &t3) || chars_eq(&l, &t4) {
        Some(true)
    } else if chars_eq(&l, &f1) || chars_eq(&l, &f2) || chars_eq(&l, &f3) || chars_eq(&l, &f4) {
        Some(false)
    } else {
        None
    }
}

/// Reads a `u64` size setting as `str::parse` does.
pub fn parse_u64(value: &str) -> (r: Option<u64>)
    ensures
        r matches Some(n) ==> parse_unsigned_spec(value@, u64::MAX as nat) == Some(n as nat),
        r is None ==> parse_unsigned_spec(value@, u64::MAX as nat) is None,
{
    parse_u64_str(value)
}

/// Reads a `usize` size setting as `str::parse` does.
pub fn parse_usize(value: &str) -> (r: Option<usize>)
    ensures
        r matches Some(n) ==> parse_unsigned_spec(value@, usize::MAX as nat) == Some(n as nat),
        r is None ==> parse_unsigned_spec(value@, usize::MAX as nat) is None,
{
    parse_usize_str(value)
}

pub proof fn lemma_strings_view_push(a: Seq<String>, x: String)
    ensures
        strings_view(a.push(x)) == strings_view(a).push(x@),
{
    assert(strings_view(a.push(x)) =~= strings_view(a).push(x@));
}

/// Appends a copy of `s` to `r`.
pub(crate) fn push_string_copy(r: &mut Vec<String>, s: &String)
    ensures
        strings_view(final(r)@) == strings_view(old(r)@).push(s@),
{
    let ghost before = r@;
    r.push(s.clone());
    proof {
        lemma_strings_view_push(before, *s);
    }
}

fn clone_strings(v: &Vec<String>) -> (r: Vec<String>)
    ensures
        strings_view(r@) == strings_view(v@),
{
    let mut r: Vec<String> = Vec::new();
    let mut i: usize = 0;
    while i < v.len()
        invariant
            0 <= i <= v.len(),
            strings_view(r@) == strings_view(v@.take(i as int)),
        decreases v.len() - i,
    {
        let s = v[i].clone();
        let ghost old_r = r@;
        r.push(s);
        i = i + 1;
        assert(r@ == old_r.push(s));
        assert(v@.take(i as int) == v@.take(i - 1).push(v@[i - 1]));
        proof {
            lemma_strings_view_push(old_r, s);
            lemma_strings_view_push(v@.take(i - 1), v@[i - 1]);
        }
    }
    assert(v@.take(v.len() as int) =~= v@);
    r
}

fn apply_bool(old: bool, v: &Option<String>) -> (r: bool)
    ensures
        r == override_bool(old, opt_view(*v)),
{
    match v {
        Some(s) => match parse_bool(s.as_str()) {
            Some(b) => b,
            None => old,
        },
        None => old,
    }
}

fn apply_dirs(old: Vec<String>, v: &Option<Vec<String>>) -> (r: Vec<String>)
    ensures
        strings_view(r@) == override_dirs(strings_view(old@), opt_list_view(*v)),
{
    match v {
        Some(d) => clone_strings(d),
        None => old,
    }
}

fn apply_u64(old: u64, v: &Option<String>) -> (r: u64)
    ensures
        r as nat == override_num(old as nat, opt_view(*v), u64::MAX as nat),
{
    match v {
        Some(s) => match parse_u64(s.as_str()) {
            Some(n) => n,
            None => old,
        },
        None => old,
    }
}

fn apply_usize(old: usize, v: &Option<String>) -> (r: usize)
    ensures
        r as nat == override_num(old as nat, opt_view(*v), usize::MAX as nat),
{
    match v {
        Some(s) => match parse_usize(s.as_str()) {
            Some(n) => n,
            None => old,
        },
        None => old,
    }
}

fn single(s: String) -> (r: Vec<String>)
    ensures
        strings_view(r@) == seq![s@],
{
    let mut r: Vec<String> = Vec::new();
    r.push(s);
    assert(strings_view(r@) =~= seq![s@]);
    r
}

impl SecurityConfig {
    /// The configuration a profile starts from.
    pub fn for_profile(profile: SecurityProfile, current_dir: &str, home_dir: Option<&str>) -> (r: Self)
        ensures
            r@ == profile_policy(profile, current_dir@, match home_dir {
                Some(h) => Some(h@),
                None => None,
            }),
    {
        let mut c = SecurityConfig::default();
        match profile {
            SecurityProfile::Default => {},
            SecurityProfile::Workspace => {
                c.profile = SecurityProfile::Workspace;
                c.direct_file_paths = true;
                c.file_paths_enabled = true;
                c.allowed_read_dirs = single(current_dir.to_owned());
                c.allowed_aux_dirs = single(current_dir.to_owned());
                c.allowed_export_dirs = single(path_join(current_dir, "exports"));
            },
            SecurityProfile::TrustedLocal => {
                c.profile = SecurityProfile::TrustedLocal;
                c.direct_file_paths = true;
                c.file_paths_enabled = true;
                match home_dir {
                    Some(h) => {
                        let mut read: Vec<String> = Vec::new();
                        read.push(path_join(h, "Documents"));
                        read.push(path_join(h, "Downloads"));
                        read.push(path_join(h, "Zotero/storage"));
                        let mut aux: Vec<String> = Vec::new();
                        aux.push(path_join(h, "Documents"));
                        aux.push(path_join(h, "Downloads"));
                        c.allowed_read_dirs = read;
                        c.allowed_aux_dirs = aux;
                        c.allowed_export_dirs = single(path_join(h, "Documents/Zotero Exports"));
                        assert(strings_view(c.allowed_read_dirs@) =~= seq![
                            std_path_join(h@, "Documents"@),
                            std_path_join(h@, "Downloads"@),
                            std_path_join(h@, "Zotero/storage"@),
                        ]);
                        assert(strings_view(c.allowed_aux_dirs@) =~= seq![
                            std_path_join(h@, "Documents"@),
                            std_path_join(h@, "Downloads"@),
                        ]);
                    },
                    None => {},
                }
            },
            SecurityProfile::Hardened => {
                c.profile = SecurityProfile::Hardened;
                c.max_pdf_bytes = HARDENED_MAX_PDF_BYTES;
                c.max_http_body_bytes = HARDENED_MAX_HTTP_BODY_BYTES;
                c.max_markdown_bytes = HARDENED_MAX_MARKDOWN_BYTES;
                c.max_html_bytes = HARDENED_MAX_HTML_BYTES;
            },
        }
        c
    }

    /// Builds the configuration from the profile named in `env`, then
    /// applies every explicit setting of `env` that is set and valid.
    /// Invalid booleans and numbers leave the profile's value in place.
    pub fn from_sources(env: &SecurityEnv, current_dir: &str, home_dir: Option<&str>) -> (r: Self)
        ensures
            r@ == env_policy(env, current_dir@, match home_dir {
                Some(h) => Some(h@),
                None => None,
            }),
    {
        let profile = parse_profile(&env.profile);
        let base = SecurityConfig::for_profile(profile, current_dir, home_dir);
        let direct_file_paths = apply_bool(base.direct_file_paths, &env.direct_file_paths);
        let file_paths_enabled = apply_bool(base.file_paths_enabled, &env.file_paths_enabled);
        let allowed_read_dirs = apply_dirs(base.allowed_read_dirs, &env.allowed_read_dirs);
        let allowed_aux_dirs = apply_dirs(base.allowed_aux_dirs, &env.allowed_aux_dirs);
        let allowed_export_dirs = apply_dirs(base.allowed_export_dirs, &env.allowed_export_dirs);
        let max_pdf_bytes = apply_u64(base.max_pdf_bytes, &env.max_pdf_bytes);
        let max_http_body_bytes = apply_usize(base.max_http_body_bytes, &env.max_http_body_bytes);
        let max_markdown_bytes = apply_usize(base.max_markdown_bytes, &env.max_markdown_bytes);
        let max_html_bytes = apply_usize(base.max_html_bytes, &env.max_html_bytes);
        let max_template_name_bytes = apply_usize(base.max_template_name_bytes, &env.max_template_name_bytes);
        SecurityConfig {
            profile: base.profile,
            direct_file_paths,
            file_paths_enabled,
            allowed_read_dirs,
            allowed_aux_dirs,
            allowed_export_dirs,
            max_pdf_bytes,
            max_http_body_bytes,
            max_markdown_bytes,
            max_html_bytes,
            max_template_name_bytes,
        }
    }
}


/// Concatenates two strings.
pub(crate) fn cat2(a: &str, b: &str) -> (r: String)
    ensures
        r@ == a@ + b@,
{
    let mut v: Vec<char> = Vec::new();
    extend_str(&mut v, a);
    extend_str(&mut v, b);
    string_from_chars(&v)
}

/// Concatenates three strings.
pub(crate) fn cat3(a: &str, b: &str, c: &str) -> (r: String)
    ensures
        r@ == a@ + b@ + c@,
{
    let mut v: Vec<char> = Vec::new();
    extend_str(&mut v, a);
    extend_str(&mut v, b);
    extend_str(&mut v, c);
    string_from_chars(&v)
}

/// Concatenates four strings.
pub(crate) fn cat4(a: &str, b: &str, c: &str, d: &str) -> (r: String)
    ensures
        r@ == a@ + b@ + c@ + d@,
{
    let mut v: Vec<char> = Vec::new();
    extend_str(&mut v, a);
    extend_str(&mut v, b);
    extend_str(&mut v, c);
    extend_str(&mut v, d);
    string_from_chars(&v)
}

/// Concatenates five strings.
pub(crate) fn cat5(a: &str, b: &str, c: &str, d: &str, e: &str) -> (r: String)
    ensures
        r@ == a@ + b@ + c@ + d@ + e@,
{
    let mut v: Vec<char> = Vec::new();
    extend_str(&mut v, a);
    extend_str(&mut v, b);
    extend_str(&mut v, c);
    extend_str(&mut v, d);
    extend_str(&mut v, e);
    string_from_chars(&v)
}

/// Writes `n` in decimal.
pub fn decimal_string(n: u64) -> (r: String)
    ensures
        r@ == decimal_digits(n as nat),
    decreases n,
{
    let v = u64_to_decimal(n);
    string_from_chars(&v)
}

fn u64_to_decimal(n: u64) -> (r: Vec<char>)
    ensures
        r@ == decimal_digits(n as nat),
    decreases n,
{
    if n < 10 {
        let mut r: Vec<char> = Vec::new();
        r.push(digit_char(n as u32));
        r
    } else {
        let mut r = u64_to_decimal(n / 10);
        r.push(digit_char((n % 10) as u32));
        r
    }
}

fn digit_char(d: u32) -> (c: char)
    requires
        d < 10,
    ensures
        c == (('0' as u32) + d) as char,
{
    let b: u8 = (d as u8) + 48;
    b as char
}

/// The message given when direct file paths are disabled.
pub open spec fn direct_paths_disabled_message() -> Seq<char> {
    "Direct file paths are disabled; set ZOTERO_MCP_PROFILE=workspace or ZOTERO_DIRECT_FILE_PATHS=true with ZOTERO_ALLOWED_READ_DIRS"@
}

/// The message given when `field` is longer than `max_bytes` bytes.
pub open spec fn size_exceeded_message(field: Seq<char>, max_bytes: nat) -> Seq<char> {
    field + " exceeds "@ + decimal_digits(max_bytes) + " bytes"@
}

/// The message given when a path lies outside every allowed directory.
pub open spec fn outside_allowed_message(purpose: Seq<char>, path: Seq<char>) -> Seq<char> {
    purpose + " path "@ + path + " is outside allowed directories"@
}

/// The message given when an output path has no usable parent directory.
pub open spec fn parent_missing_message(purpose: Seq<char>) -> Seq<char> {
    purpose + " parent directory is missing"@
}

/// The message given when an output path has no file name.
pub open spec fn file_name_missing_message(purpose: Seq<char>) -> Seq<char> {
    purpose + " output file name is missing"@
}

/// The message given when a PDF path lacks the `.pdf` extension.
pub open spec fn not_pdf_message(path: Seq<char>) -> Seq<char> {
    "PDF read path must have a .pdf extension: "@ + path
}

/// The message given when a PDF file is larger than `max` bytes.
pub open spec fn pdf_too_large_message(path: Seq<char>, max: nat) -> Seq<char> {
    "PDF file "@ + path + " exceeds "@ + decimal_digits(max) + " bytes"@
}

/// `path` lies under one of `roots`, compared component-wise.
pub open spec fn path_allowed_spec(path: Seq<char>, roots: Seq<Seq<char>>) -> bool {
    exists|i: int| 0 <= i < roots.len() && std_path_starts_with(path, #[trigger] roots[i])
}

/// Whether `path` lies under one of `roots`. Both are canonical paths:
/// the caller canonicalizes the candidate and keeps the roots that
/// canonicalize.
pub fn path_is_allowed(path: &str, roots: &Vec<String>) -> (r: bool)
    ensures
        r == path_allowed_spec(path@, strings_view(roots@)),
{
    let mut i: usize = 0;
    while i < roots.len()
        invariant
            0 <= i <= roots.len(),
            forall|j: int| 0 <= j < i ==> !std_path_starts_with(path@, #[trigger] strings_view(roots@)[j]),
        decreases roots.len() - i,
    {
        if path_starts_with(path, roots[i].as_str()) {
            assert(strings_view(roots@)[i as int] == roots@[i as int]@);
            return true;
        }
        i = i + 1;
    }
    false
}

/// Size check of a text: `value` may hold at most `max_bytes` bytes of
/// UTF-8.
pub fn check_text_size(value: &str, max_bytes: usize, field: &str) -> (r: Result<(), ZoteroMcpError>)
    ensures
        value.len() <= max_bytes ==> r is Ok,
        value.len() > max_bytes ==> rejected_with(r, size_exceeded_message(field@, max_bytes as nat)),
{
    if value.len() > max_bytes {
        let m: u64 = max_bytes as u64;
        assert(m as nat == max_bytes as nat);
        let n = decimal_string(m);
        let msg = cat4(field, " exceeds ", n.as_str(), " bytes");
        assert(msg@ == size_exceeded_message(field@, max_bytes as nat));
        Err(ZoteroMcpError::InputRejected(msg))
    } else {
        Ok(())
    }
}

impl SecurityConfig {
    /// Refuses direct file paths unless the configuration enables them.
    pub fn check_direct_file_paths_enabled(&self) -> (r: Result<(), ZoteroMcpError>)
        ensures
            self.direct_file_paths ==> r is Ok,
            !self.direct_file_paths ==> rejected_with(r, direct_paths_disabled_message()),
    {
        if self.direct_file_paths {
            Ok(())
        } else {
            Err(ZoteroMcpError::InputRejected(
                "Direct file paths are disabled; set ZOTERO_MCP_PROFILE=workspace or ZOTERO_DIRECT_FILE_PATHS=true with ZOTERO_ALLOWED_READ_DIRS".to_owned(),
            ))
        }
    }

    /// Size check of Markdown text against `max_markdown_bytes`.
    pub fn check_markdown_size(&self, markdown: &str) -> (r: Result<(), ZoteroMcpError>)
        ensures
            markdown.len() <= self.max_markdown_bytes ==> r is Ok,
            markdown.len() > self.max_markdown_bytes ==> rejected_with(r, size_exceeded_message("markdown"@, self.max_markdown_bytes as nat)),
    {
        check_text_size(markdown, self.max_markdown_bytes, "markdown")
    }

    /// Size check of HTML text against `max_html_bytes`.
    pub fn check_html_size(&self, html: &str) -> (r: Result<(), ZoteroMcpError>)
        ensures
            html.len() <= self.max_html_bytes ==> r is Ok,
            html.len() > self.max_html_bytes ==> rejected_with(r, size_exceeded_message("HTML"@, self.max_html_bytes as nat)),
    {
        check_text_size(html, self.max_html_bytes, "HTML")
    }

    /// Size check of a template name against `max_template_name_bytes`.
    pub fn check_template_name_size(&self, name: &str) -> (r: Result<(), ZoteroMcpError>)
        ensures
            name.len() <= self.max_template_name_bytes ==> r is Ok,
            name.len() > self.max_template_name_bytes ==> rejected_with(r, size_exceeded_message("template name"@, self.max_template_name_bytes as nat)),
    {
        check_text_size(name, self.max_template_name_bytes, "template name")
    }

    /// Decides a read of an existing file. `canonical` is the outcome of
    /// canonicalizing the requested path (the error text of the filesystem
    /// on failure); `canonical_roots` are the allowed roots that
    /// canonicalize. The canonical path is accepted when it lies under one
    /// of them.
    pub fn check_existing_read_path(
        &self,
        canonical: Result<String, String>,
        canonical_roots: &Vec<String>,
        purpose: &str,
    ) -> (r: Result<String, ZoteroMcpError>)
        ensures
            canonical matches Err(e) ==> io_failed_with(r, e@),
            canonical matches Ok(c) ==> (path_allowed_spec(c@, strings_view(canonical_roots@)) ==> ok_string(r, c@)),
            canonical matches Ok(c) ==> (!path_allowed_spec(c@, strings_view(canonical_roots@)) ==> rejected_with(r, outside_allowed_message(purpose@, c@))),
    {
        let checked = match canonical {
            Ok(c) => c,
            Err(e) => {
                return Err(ZoteroMcpError::Io(e));
            },
        };
        if path_is_allowed(checked.as_str(), canonical_roots) {
            Ok(checked)
        } else {
            Err(ZoteroMcpError::InputRejected(cat4(purpose, " path ", checked.as_str(), " is outside allowed directories")))
        }
    }

    /// Decides an output path. The parent directory of `path` must exist
    /// (`canonical_parent` is its canonical form, `None` when it could not
    /// be canonicalized) and lie under one of `canonical_roots`; the result
    /// is the file name of `path` joined onto the canonical parent.
    pub fn check_output_path(
        &self,
        path: &str,
        canonical_parent: Option<String>,
        canonical_roots: &Vec<String>,
        purpose: &str,
    ) -> (r: Result<String, ZoteroMcpError>)
        ensures
            (std_path_parent(path@) is None || canonical_parent is None) ==> rejected_with(r, parent_missing_message(purpose@)),
            std_path_parent(path@) is Some ==> (canonical_parent matches Some(cp) ==> (!path_allowed_spec(cp@, strings_view(canonical_roots@)) ==> rejected_with(r, outside_allowed_message(purpose@, path@)))),
            std_path_parent(path@) is Some ==> (canonical_parent matches Some(cp) ==> (path_allowed_spec(cp@, strings_view(canonical_roots@)) ==> (std_path_file_name(path@) is None ==> rejected_with(r, file_name_missing_message(purpose@))))),
            std_path_parent(path@) is Some ==> (canonical_parent matches Some(cp) ==> (path_allowed_spec(cp@, strings_view(canonical_roots@)) ==> (std_path_file_name(path@) matches Some(f) ==> ok_string(r, std_path_join(cp@, f))))),
    {
        let parent = path_parent(path);
        if parent.is_none() {
            return Err(ZoteroMcpError::InputRejected(cat2(purpose, " parent directory is missing")));
        }
        let cp = match canonical_parent {
            Some(cp) => cp,
            None => {
                return Err(ZoteroMcpError::InputRejected(cat2(purpose, " parent directory is missing")));
            },
        };
        if !path_is_allowed(cp.as_str(), canonical_roots) {
            return Err(ZoteroMcpError::InputRejected(cat4(purpose, " path ", path, " is outside allowed directories")));
        }
        match path_file_name(path) {
            Some(f) => Ok(path_join(cp.as_str(), f.as_str())),
            None => Err(ZoteroMcpError::InputRejected(cat2(purpose, " output file name is missing"))),
        }
    }

    /// Refuses a PDF read path whose extension is not `pdf` (in any ASCII
    /// case).
    pub fn check_pdf_extension(&self, path: &str) -> (r: Result<(), ZoteroMcpError>)
        ensures
            has_pdf_extension(path@) ==> r is Ok,
            !has_pdf_extension(path@) ==> rejected_with(r, not_pdf_message(path@)),
    {
        let is_pdf = match path_extension(path) {
            Some(ext) => str_eq_ignore_ascii_case(ext.as_str(), "pdf"),
            None => false,
        };
        if is_pdf {
            Ok(())
        } else {
            Err(ZoteroMcpError::InputRejected(cat2("PDF read path must have a .pdf extension: ", path)))
        }
    }

    /// Refuses a PDF file longer than `max_pdf_bytes`; `len` is the file
    /// length the filesystem reported, or its error text.
    pub fn check_pdf_size(&self, path: &str, len: Result<u64, String>) -> (r: Result<(), ZoteroMcpError>)
        ensures
            len matches Err(e) ==> io_failed_with(r, e@),
            len matches Ok(n) ==> (n <= self.max_pdf_bytes ==> r is Ok),
            len matches Ok(n) ==> (n > self.max_pdf_bytes ==> rejected_with(r, pdf_too_large_message(path@, self.max_pdf_bytes as nat))),
    {
        let n = match len {
            Ok(n) => n,
            Err(e) => {
                return Err(ZoteroMcpError::Io(e));
            },
        };
        if n > self.max_pdf_bytes {
            let m = decimal_string(self.max_pdf_bytes);
            Err(ZoteroMcpError::InputRejected(cat5("PDF file ", path, " exceeds ", m.as_str(), " bytes")))
        } else {
            Ok(())
        }
    }

    /// Checks that `path` names a `.pdf` file no longer than
    /// `max_pdf_bytes`: the extension first, then the length.
    pub fn check_pdf_file(&self, path: &str, len: Result<u64, String>) -> (r: Result<(), ZoteroMcpError>)
        ensures
            !has_pdf_extension(path@) ==> rejected_with(r, not_pdf_message(path@)),
            has_pdf_extension(path@) ==> (len matches Err(e) ==> io_failed_with(r, e@)),
            has_pdf_extension(path@) ==> (len matches Ok(n) ==> (n <= self.max_pdf_bytes ==> r is Ok)),
            has_pdf_extension(path@) ==> (len matches Ok(n) ==> (n > self.max_pdf_bytes ==> rejected_with(r, pdf_too_large_message(path@, self.max_pdf_bytes as nat)))),
    {
        match self.check_pdf_extension(path) {
            Ok(()) => self.check_pdf_size(path, len),
            Err(e) => Err(e),
        }
    }
}

/// The file name of `path` has the extension `pdf`, in any ASCII case.
pub open spec fn has_pdf_extension(path: Seq<char>) -> bool {
    std_path_extension(path) matches Some(e) && eq_ignore_ascii_case_spec(e, "pdf"@)
}

/// A text accepted under a size limit is accepted under every larger
/// limit.
pub proof fn law_size_limit_is_monotone(bytes: nat, max: nat, larger: nat)
    requires
        bytes <= max,
        max <= larger,
    ensures
        bytes <= larger,
{
}

/// With no allowed roots no path is allowed, so every read through
/// `check_existing_read_path` with an empty root list is refused.
pub proof fn law_no_roots_allow_nothing(path: Seq<char>)
    ensures
        !path_allowed_spec(path, Seq::<Seq<char>>::empty()),
{
}

/// Explicit settings win over the profile: a valid boolean, any directory
/// list and a valid number each replace what the profile gave, whatever
/// the profile; the profile itself comes from its own setting alone.
pub proof fn law_explicit_settings_override_profile(env: &SecurityEnv, current_dir: Seq<char>, home_dir: Option<Seq<char>>)
    ensures
        env_policy(env, current_dir, home_dir).profile == profile_from_name(opt_view(env.profile)),
        opt_view(env.direct_file_paths) matches Some(s) ==> (parse_bool_spec(s) matches Some(b) ==> env_policy(env, current_dir, home_dir).direct_file_paths == b),
        opt_view(env.file_paths_enabled) matches Some(s) ==> (parse_bool_spec(s) matches Some(b) ==> env_policy(env, current_dir, home_dir).file_paths_enabled == b),
        opt_list_view(env.allowed_read_dirs) matches Some(d) ==> env_policy(env, current_dir, home_dir).allowed_read_dirs == d,
        opt_list_view(env.allowed_aux_dirs) matches Some(d) ==> env_policy(env, current_dir, home_dir).allowed_aux_dirs == d,
        opt_list_view(env.allowed_export_dirs) matches Some(d) ==> env_policy(env, current_dir, home_dir).allowed_export_dirs == d,
        opt_view(env.max_pdf_bytes) matches Some(s) ==> (parse_unsigned_spec(s, u64::MAX as nat) matches Some(n) ==> env_policy(env, current_dir, home_dir).max_pdf_bytes == n),
        opt_view(env.max_pdf_bytes) matches Some(s) ==> (parse_unsigned_spec(s, u64::MAX as nat) is None ==> env_policy(env, current_dir, home_dir).max_pdf_bytes == profile_policy(profile_from_name(opt_view(env.profile)), current_dir, home_dir).max_pdf_bytes),
{
}

/// Only the hardened and default profiles keep direct paths off, and the
/// hardened limits are never larger than the default ones.
pub proof fn law_hardened_limits_are_tighter(current_dir: Seq<char>, home_dir: Option<Seq<char>>)
    ensures
        ({
            let h = profile_policy(SecurityProfile::Hardened, current_dir, home_dir);
            let d = profile_policy(SecurityProfile::Default, current_dir, home_dir);
            &&& h.max_pdf_bytes <= d.max_pdf_bytes
            &&& h.max_http_body_bytes <= d.max_http_body_bytes
            &&& h.max_markdown_bytes <= d.max_markdown_bytes
            &&& h.max_html_bytes <= d.max_html_bytes
            &&& h.max_template_name_bytes <= d.max_template_name_bytes
            &&& !h.direct_file_paths && !d.direct_file_paths
        }),
{
}

/// The boolean words, in any ASCII case: `1`, `true`, `yes` and `y` read
/// as true, `0`, `false`, `no` and `n` read as false, and nothing else is a
/// setting. Reading a value gives what reading its lower-cased form gives.
pub proof fn law_boolean_words(v: Seq<char>)
    ensures
        (ascii_lower(v) == "1"@ || ascii_lower(v) == "true"@ || ascii_lower(v) == "yes"@ || ascii_lower(v) == "y"@)
            ==> parse_bool_spec(v) == Some(true),
        (ascii_lower(v) == "0"@ || ascii_lower(v) == "false"@ || ascii_lower(v) == "no"@ || ascii_lower(v) == "n"@)
            ==> parse_bool_spec(v) == Some(false),
        parse_bool_spec(v) is Some ==> (ascii_lower(v) == "1"@ || ascii_lower(v) == "true"@ || ascii_lower(v) == "yes"@
            || ascii_lower(v) == "y"@ || ascii_lower(v) == "0"@ || ascii_lower(v) == "false"@ || ascii_lower(v) == "no"@
            || ascii_lower(v) == "n"@),
        parse_bool_spec(v) == parse_bool_spec(ascii_lower(v)),
{
    reveal_strlit("1");
    reveal_strlit("true");
    reveal_strlit("yes");
    reveal_strlit("y");
    reveal_strlit("0");
    reveal_strlit("false");
    reveal_strlit("no");
    reveal_strlit("n");
    let l = ascii_lower(v);
    assert(ascii_lower(l) =~= l) by {
        assert forall|i: int| 0 <= i < l.len() implies ascii_lower_char(l[i]) == l[i] by {
            assert(l[i] == ascii_lower_char(v[i]));
        }
    }
    if l == "0"@ || l == "false"@ || l == "no"@ || l == "n"@ {
        assert(l != "1"@ && l != "true"@ && l != "yes"@ && l != "y"@) by {
            if l.len() == 1 {
                assert(l[0] == '0' || l[0] == 'n');
            }
        }
    }
}

/// A false word in `ZOTERO_DIRECT_FILE_PATHS` (`0`, `false`, `no`, `n`, in
/// any ASCII case) turns direct paths off and a true word turns them on,
/// whatever the profile.
pub proof fn law_direct_paths_follow_boolean_words(env: &SecurityEnv, current_dir: Seq<char>, home_dir: Option<Seq<char>>)
    ensures
        opt_view(env.direct_file_paths) matches Some(s) ==> (
            (ascii_lower(s) == "0"@ || ascii_lower(s) == "false"@ || ascii_lower(s) == "no"@ || ascii_lower(s) == "n"@)
                ==> !env_policy(env, current_dir, home_dir).direct_file_paths),
        opt_view(env.direct_file_paths) matches Some(s) ==> (
            (ascii_lower(s) == "1"@ || ascii_lower(s) == "true"@ || ascii_lower(s) == "yes"@ || ascii_lower(s) == "y"@)
                ==> env_policy(env, current_dir, home_dir).direct_file_paths),
{
    if let Some(s) = opt_view(env.direct_file_paths) {
        law_boolean_words(s);
        law_explicit_settings_override_profile(env, current_dir, home_dir);
    }
}

} // verus!
