use zotero_mcp_rs::error::ZoteroMcpError;
use zotero_mcp_rs::security::{SecurityConfig, SecurityEnv, SecurityProfile};
use zotero_mcp_rs::state::{
    is_transient_error, is_transient_status, parse_flag, parse_tool_mode, AppEnv, AppState, AttemptOutcome,
    LimitedBody, RetryAction, RetryPolicy, ToolExposureMode, RETRY_MAX_DELAY_MS,
};

fn var<'a>(vars: &'a [(&'a str, &'a str)], name: &str) -> Option<&'a str> {
    vars.iter().find(|(key, _)| *key == name).map(|(_, value)| *value)
}

fn dirs(value: Option<&str>) -> Option<Vec<String>> {
    value.map(|v| v.split(':').map(str::to_owned).collect())
}

fn config_from(vars: &[(&str, &str)], current_dir: &str, home_dir: Option<&str>) -> SecurityConfig {
    let env = SecurityEnv {
        profile: var(vars, "ZOTERO_MCP_PROFILE").map(str::to_owned),
        direct_file_paths: var(vars, "ZOTERO_DIRECT_FILE_PATHS").map(str::to_owned),
        file_paths_enabled: var(vars, "ZOTERO_FILE_PATHS_ENABLED").map(str::to_owned),
        allowed_read_dirs: dirs(var(vars, "ZOTERO_ALLOWED_READ_DIRS")),
        allowed_aux_dirs: dirs(var(vars, "ZOTERO_ALLOWED_AUX_DIRS")),
        allowed_export_dirs: dirs(var(vars, "ZOTERO_ALLOWED_EXPORT_DIRS")),
        max_pdf_bytes: var(vars, "ZOTERO_MAX_PDF_BYTES").map(str::to_owned),
        max_http_body_bytes: var(vars, "ZOTERO_MAX_HTTP_BODY_BYTES").map(str::to_owned),
        max_markdown_bytes: var(vars, "ZOTERO_MAX_MARKDOWN_BYTES").map(str::to_owned),
        max_html_bytes: var(vars, "ZOTERO_MAX_HTML_BYTES").map(str::to_owned),
        max_template_name_bytes: var(vars, "ZOTERO_MAX_TEMPLATE_NAME_BYTES").map(str::to_owned),
    };
    SecurityConfig::from_sources(&env, current_dir, home_dir)
}

fn empty_env() -> AppEnv {
    AppEnv {
        zotero_api_url: None,
        better_bibtex_url: None,
        better_notes_url: None,
        crossref_url: None,
        semantic_scholar_url: None,
        open_library_url: None,
        write_enabled: None,
        sqlite_access: None,
        tool_mode: None,
    }
}

fn test_state(write_enabled: bool) -> AppState {
    let mut state = AppState::from_settings(&empty_env(), SecurityConfig::default());
    state.write_enabled = write_enabled;
    state
}

fn state_with_security(security: SecurityConfig) -> AppState {
    AppState::from_settings(&empty_env(), security)
}

fn input_rejected_message(err: ZoteroMcpError) -> String {
    match err {
        ZoteroMcpError::InputRejected(message) => message,
        other => panic!("expected InputRejected, got {other:?}"),
    }
}

#[test]
fn state_default_profile_disables_direct_and_file_paths() {
    let config = config_from(&[], "/work/project", None);

    assert_eq!(config.profile, SecurityProfile::Default);
    assert!(!config.direct_file_paths);
    assert!(!config.file_paths_enabled);
    assert!(config.allowed_read_dirs.is_empty());
    assert!(config.allowed_aux_dirs.is_empty());
    assert!(config.allowed_export_dirs.is_empty());
    assert_eq!(config.max_pdf_bytes, 50 * 1024 * 1024);
    assert_eq!(config.max_http_body_bytes, 10 * 1024 * 1024);
    assert_eq!(config.max_markdown_bytes, 2 * 1024 * 1024);
    assert_eq!(config.max_html_bytes, 2 * 1024 * 1024);
    assert_eq!(config.max_template_name_bytes, 128);
}

#[test]
fn state_workspace_profile_uses_current_directory_defaults() {
    let config = config_from(&[("ZOTERO_MCP_PROFILE", "workspace")], "/work/project", None);

    assert_eq!(config.profile, SecurityProfile::Workspace);
    assert!(config.direct_file_paths);
    assert!(config.file_paths_enabled);
    assert_eq!(config.allowed_read_dirs, ["/work/project"]);
    assert_eq!(config.allowed_aux_dirs, ["/work/project"]);
    assert_eq!(config.allowed_export_dirs, ["/work/project/exports"]);
    assert_eq!(config.max_pdf_bytes, 50 * 1024 * 1024);
    assert_eq!(config.max_http_body_bytes, 10 * 1024 * 1024);
    assert_eq!(config.max_markdown_bytes, 2 * 1024 * 1024);
    assert_eq!(config.max_html_bytes, 2 * 1024 * 1024);
    assert_eq!(config.max_template_name_bytes, 128);
}

#[test]
fn state_trusted_local_profile_uses_home_subdirectories() {
    let config = config_from(&[("ZOTERO_MCP_PROFILE", "trusted-local")], "/work/project", Some("/home/alice"));

    assert_eq!(config.profile, SecurityProfile::TrustedLocal);
    assert_eq!(
        config.allowed_read_dirs,
        ["/home/alice/Documents", "/home/alice/Downloads", "/home/alice/Zotero/storage"]
    );
    assert_eq!(config.allowed_aux_dirs, ["/home/alice/Documents", "/home/alice/Downloads"]);
    assert_eq!(config.allowed_export_dirs, ["/home/alice/Documents/Zotero Exports"]);
}

#[test]
fn state_trusted_local_without_home_has_no_implicit_dirs() {
    let config = config_from(&[("ZOTERO_MCP_PROFILE", "trusted-local")], "/work/project", None);

    assert_eq!(config.profile, SecurityProfile::TrustedLocal);
    assert!(config.allowed_read_dirs.is_empty());
    assert!(config.allowed_aux_dirs.is_empty());
    assert!(config.allowed_export_dirs.is_empty());
}

#[test]
fn state_hardened_profile_tightens_caps() {
    let config = config_from(&[("ZOTERO_MCP_PROFILE", "hardened")], "/work/project", None);

    assert_eq!(config.profile, SecurityProfile::Hardened);
    assert!(!config.direct_file_paths);
    assert!(!config.file_paths_enabled);
    assert_eq!(config.max_pdf_bytes, 25 * 1024 * 1024);
    assert_eq!(config.max_http_body_bytes, 2 * 1024 * 1024);
    assert_eq!(config.max_markdown_bytes, 512 * 1024);
    assert_eq!(config.max_html_bytes, 512 * 1024);
    assert_eq!(config.max_template_name_bytes, 128);
}

#[test]
fn state_explicit_env_overrides_profile_defaults() {
    let config = config_from(
        &[
            ("ZOTERO_MCP_PROFILE", "workspace"),
            ("ZOTERO_DIRECT_FILE_PATHS", "false"),
            ("ZOTERO_FILE_PATHS_ENABLED", "false"),
            ("ZOTERO_ALLOWED_READ_DIRS", "/one:/two"),
            ("ZOTERO_MAX_PDF_BYTES", "123"),
        ],
        "/work/project",
        None,
    );

    assert_eq!(config.profile, SecurityProfile::Workspace);
    assert!(!config.direct_file_paths);
    assert!(!config.file_paths_enabled);
    assert_eq!(config.allowed_read_dirs, ["/one", "/two"]);
    assert_eq!(config.allowed_aux_dirs, ["/work/project"]);
    assert_eq!(config.allowed_export_dirs, ["/work/project/exports"]);
    assert_eq!(config.max_pdf_bytes, 123);
}

#[test]
fn state_invalid_numeric_override_keeps_profile_default() {
    let config = config_from(&[("ZOTERO_MAX_PDF_BYTES", "not-a-number")], "/work/project", None);

    assert_eq!(config.max_pdf_bytes, 50 * 1024 * 1024);
}

#[test]
fn state_direct_paths_disabled_returns_input_rejected() {
    let state = state_with_security(SecurityConfig::default());

    let err = state.check_direct_file_paths_enabled().unwrap_err();

    assert!(input_rejected_message(err).contains("Direct file paths are disabled"));
}

#[test]
fn state_existing_read_path_accepts_file_under_allowed_root() {
    let state = state_with_security(SecurityConfig::default());
    let roots = vec!["/tmp/root".to_owned()];

    let checked = state
        .check_existing_read_path(Ok("/tmp/root/paper.pdf".to_owned()), &roots, "PDF read")
        .unwrap();

    assert_eq!(checked, "/tmp/root/paper.pdf");
}

#[test]
fn state_existing_read_path_rejects_file_outside_allowed_roots() {
    let state = state_with_security(SecurityConfig::default());
    let roots = vec!["/tmp/allowed".to_owned()];

    let err = state
        .check_existing_read_path(Ok("/tmp/outside/paper.pdf".to_owned()), &roots, "PDF read")
        .unwrap_err();

    let message = input_rejected_message(err);
    assert!(message.contains("PDF read"));
    assert!(message.contains("outside allowed"));
}

#[test]
fn state_existing_read_path_rejects_symlink_escape() {
    let state = state_with_security(SecurityConfig::default());
    let roots = vec!["/tmp/allowed".to_owned()];

    let err = state
        .check_existing_read_path(Ok("/tmp/outside/paper.pdf".to_owned()), &roots, "PDF read")
        .unwrap_err();

    assert!(input_rejected_message(err).contains("outside allowed"));
}

#[test]
fn state_output_path_accepts_missing_file_under_allowed_root() {
    let state = state_with_security(SecurityConfig::default());
    let roots = vec!["/tmp/root".to_owned()];

    let checked = state
        .check_output_path("/tmp/root/exports.bib", Some("/tmp/root".to_owned()), &roots, "auto-export output")
        .unwrap();

    assert_eq!(checked, "/tmp/root/exports.bib");
}

#[test]
fn state_output_path_rejects_missing_parent_directory() {
    let state = state_with_security(SecurityConfig::default());
    let roots = vec!["/tmp/root".to_owned()];

    let err = state
        .check_output_path("/tmp/root/missing/exports.bib", None, &roots, "auto-export output")
        .unwrap_err();

    assert!(input_rejected_message(err).contains("parent directory"));
}

#[test]
fn state_pdf_file_rejects_non_pdf_extension_and_oversized_files() {
    let mut security = SecurityConfig::default();
    security.max_pdf_bytes = 3;
    let state = state_with_security(security);

    let extension_err = state.check_pdf_file("/tmp/notes.txt", Ok(4)).unwrap_err();
    assert!(input_rejected_message(extension_err).contains(".pdf"));

    let size_err = state.check_pdf_file("/tmp/paper.pdf", Ok(4)).unwrap_err();
    assert!(input_rejected_message(size_err).contains("exceeds"));
}

#[test]
fn state_size_helpers_reject_values_over_configured_max() {
    let mut security = SecurityConfig::default();
    security.max_markdown_bytes = 3;
    security.max_html_bytes = 3;
    security.max_template_name_bytes = 3;
    let state = state_with_security(security);

    assert!(input_rejected_message(state.check_markdown_size("hello").unwrap_err()).contains("markdown"));
    assert!(input_rejected_message(state.check_html_size("<p>x</p>").unwrap_err()).contains("HTML"));
    assert!(input_rejected_message(state.check_template_name_size("Export").unwrap_err()).contains("template name"));
}

#[test]
fn state_existing_read_path_rejects_empty_allowed_roots() {
    let state = state_with_security(SecurityConfig::default());

    let err = state
        .check_existing_read_path(Ok("/tmp/paper.pdf".to_owned()), &Vec::new(), "PDF read")
        .unwrap_err();

    assert!(input_rejected_message(err).contains("PDF read"));
}

#[test]
fn classifies_5xx_and_429_as_transient() {
    assert!(is_transient_status(500));
    assert!(is_transient_status(502));
    assert!(is_transient_status(429));
}

#[test]
fn classifies_success_and_non_429_client_errors_as_not_transient() {
    assert!(!is_transient_status(200));
    assert!(!is_transient_status(404));
    assert!(!is_transient_status(400));
}

#[test]
fn rejects_when_write_is_disabled_by_default() {
    let state = test_state(false);

    let result = state.check_write_permission();

    assert!(matches!(result, Err(ZoteroMcpError::PermissionDenied(_))));
}

#[test]
fn allows_when_write_is_enabled() {
    let state = test_state(true);

    let result = state.check_write_permission();

    assert!(result.is_ok());
}

#[test]
fn write_permission_message_names_the_setting() {
    let err = test_state(false).check_write_permission().unwrap_err();
    assert_eq!(
        err,
        ZoteroMcpError::PermissionDenied(
            "Write operation rejected: set ZOTERO_WRITE_ENABLED=1 to enable modifying Zotero library".to_owned()
        )
    );
}

#[test]
fn settings_default_to_local_endpoints_and_closed_gates() {
    let state = AppState::from_settings(&empty_env(), SecurityConfig::default());
    assert_eq!(state.zotero_api_url, "http://127.0.0.1:23119/api");
    assert_eq!(state.better_bibtex_url, "http://127.0.0.1:23119/better-bibtex/json-rpc");
    assert_eq!(state.crossref_url, "https://api.crossref.org");
    assert!(!state.write_enabled);
    assert!(!state.sqlite_access);
}

#[test]
fn settings_take_explicit_values() {
    let mut env = empty_env();
    env.zotero_api_url = Some("http://example.test/api".to_owned());
    env.write_enabled = Some("TRUE".to_owned());
    env.sqlite_access = Some("1".to_owned());
    env.tool_mode = Some("all".to_owned());
    let state = AppState::from_settings(&env, SecurityConfig::default());
    assert_eq!(state.zotero_api_url, "http://example.test/api");
    assert!(state.write_enabled);
    assert!(state.sqlite_access);
    assert_eq!(state.tool_mode, ToolExposureMode::All);
}

#[test]
fn flags_accept_only_one_and_true() {
    assert!(parse_flag(&Some("1".to_owned())));
    assert!(parse_flag(&Some("True".to_owned())));
    assert!(!parse_flag(&Some("yes".to_owned())));
    assert!(!parse_flag(&None));
    assert_eq!(parse_tool_mode(&Some("gated".to_owned())), ToolExposureMode::Gated);
    assert_eq!(parse_tool_mode(&None), ToolExposureMode::Compact);
    assert_eq!(parse_tool_mode(&Some("ALL".to_owned())), ToolExposureMode::Compact);
}

#[test]
fn transport_errors_are_transient_only_for_timeouts_and_connects() {
    assert!(is_transient_error(true, false));
    assert!(is_transient_error(false, true));
    assert!(!is_transient_error(false, false));
}

#[test]
fn retry_policy_backs_off_then_gives_up() {
    let mut policy = RetryPolicy::new();
    assert_eq!(policy.after_attempt(AttemptOutcome::Response(503), true), RetryAction::RetryAfter(200));
    assert_eq!(policy.after_attempt(AttemptOutcome::Response(503), true), RetryAction::RetryAfter(400));
    assert_eq!(policy.after_attempt(AttemptOutcome::Response(503), true), RetryAction::Finish);
    assert_eq!(policy.attempts, 3);
}

#[test]
fn retry_policy_finishes_on_success_and_unrepeatable_requests() {
    let mut policy = RetryPolicy::new();
    assert_eq!(policy.after_attempt(AttemptOutcome::Response(200), true), RetryAction::Finish);
    let mut once = RetryPolicy::new();
    assert_eq!(
        once.after_attempt(AttemptOutcome::TransportError { timeout: true, connect: false }, false),
        RetryAction::Finish
    );
}

#[test]
fn retry_delay_is_capped() {
    let mut policy = RetryPolicy { attempts: 0, delay_ms: 4000 };
    assert_eq!(policy.after_attempt(AttemptOutcome::Response(500), true), RetryAction::RetryAfter(4000));
    assert_eq!(policy.delay_ms, RETRY_MAX_DELAY_MS);
}

#[test]
fn limited_body_refuses_declared_oversize() {
    let err = LimitedBody::start(4, Some(5), "Zotero response").err().unwrap();
    assert_eq!(err, ZoteroMcpError::InputRejected("Zotero response exceeds 4 bytes".to_owned()));
}

#[test]
fn limited_body_accepts_chunks_up_to_limit() {
    let mut body = LimitedBody::start(5, None, "body").ok().unwrap();
    assert!(body.push_chunk(b"ab", "body").is_ok());
    assert!(body.push_chunk(b"cde", "body").is_ok());
    assert!(body.push_chunk(b"f", "body").is_err());
    assert_eq!(body.body, b"abcde".to_vec());
    assert_eq!(body.finish("body").unwrap(), "abcde");
}

#[test]
fn limited_body_rejects_invalid_utf8() {
    let mut body = LimitedBody::start(8, Some(2), "body").ok().unwrap();
    assert!(body.push_chunk(&[0xff, 0xfe], "body").is_ok());
    assert_eq!(
        body.finish("body"),
        Err(ZoteroMcpError::InputRejected("body is not valid UTF-8".to_owned()))
    );
}
