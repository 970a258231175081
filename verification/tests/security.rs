use zotero_mcp_rs::error::ZoteroMcpError;
use zotero_mcp_rs::security::{
    check_text_size, parse_bool, parse_profile, security_with_pdf_limit, SecurityConfig, SecurityEnv,
    SecurityProfile,
};

fn var<'a>(vars: &'a [(&'a str, &'a str)], name: &str) -> Option<&'a str> {
    vars.iter().find(|(key, _)| *key == name).map(|(_, value)| *value)
}

fn dirs(value: Option<&str>) -> Option<Vec<String>> {
    value.map(|v| v.split(':').map(str::to_owned).collect())
}

fn env_from(vars: &[(&str, &str)]) -> SecurityEnv {
    SecurityEnv {
        profile: var(vars, "ZOTERO_MCP_PROFILE").map(str::to_owned),
        direct_file_paths: var(vars, "ZOTERO_DIRECT_FILE_PATHS").map(str::to_owned),
        file_paths_enabled: var(vars, "ZOTERO_FILE_PATHS_ENABLED").map(str::to_owned),
        allowed_read_dirs: dirs(var(vars, "ZOTERO_ALLOWED_READ_DIRS")),
        allowed_aux_dirs: dirs(var(vars, "ZOTERO_ALLOWED_AUX_DIRS")),
        allowed_export_dirs: dirs(var(vars, "ZOTERO_ALLOWED_EXPORT_DIRS")),
        max_pdf_bytes: var(vars, "ZOTERO_MAX_PDF_BYTES").map(str::to_owned),
        max_http_body_bytes: var(vars, "ZOTERO_MAX_HTTP_BODY_BYTES").map(str::to_owned),
        max_markdown_bytes: var(vars, "ZOTERO_MAX_MARKDOWN_BYTES").map(str::to_owned),
        max_html_bytes: var(vars, "ZOTERO_MAX_HTML_BYTES").map(str::to_owned),
        max_template_name_bytes: var(vars, "ZOTERO_MAX_TEMPLATE_NAME_BYTES").map(str::to_owned),
    }
}

fn config_from(vars: &[(&str, &str)], current_dir: &str, home_dir: Option<&str>) -> SecurityConfig {
    SecurityConfig::from_sources(&env_from(vars), current_dir, home_dir)
}

fn input_rejected_message(err: ZoteroMcpError) -> String {
    match err {
        ZoteroMcpError::InputRejected(message) => message,
        other => format!("expected InputRejected, got {other:?}"),
    }
}

#[test]
fn security_default_profile_disables_direct_and_file_paths() {
    let config = config_from(&[], "/work/project", None);

    assert_eq!(config.profile, SecurityProfile::Default);
    assert!(!config.direct_file_paths);
    assert!(!config.file_paths_enabled);
    assert!(config.allowed_read_dirs.is_empty());
    assert!(config.allowed_aux_dirs.is_empty());
    assert!(config.allowed_export_dirs.is_empty());
    assert_eq!(config.max_pdf_bytes, 50 * 1024 * 1024);
    assert_eq!(config.max_http_body_bytes, 10 * 1024 * 1024);
    assert_eq!(config.max_markdown_bytes, 2 * 1024 * 1024);
    assert_eq!(config.max_html_bytes, 2 * 1024 * 1024);
    assert_eq!(config.max_template_name_bytes, 128);
}

#[test]
fn security_workspace_profile_uses_current_directory_defaults() {
    let config = config_from(&[("ZOTERO_MCP_PROFILE", "workspace")], "/work/project", None);

    assert_eq!(config.profile, SecurityProfile::Workspace);
    assert!(config.direct_file_paths);
    assert!(config.file_paths_enabled);
    assert_eq!(config.allowed_read_dirs, ["/work/project"]);
    assert_eq!(config.allowed_aux_dirs, ["/work/project"]);
    assert_eq!(config.allowed_export_dirs, ["/work/project/exports"]);
    assert_eq!(config.max_pdf_bytes, 50 * 1024 * 1024);
    assert_eq!(config.max_http_body_bytes, 10 * 1024 * 1024);
    assert_eq!(config.max_markdown_bytes, 2 * 1024 * 1024);
    assert_eq!(config.max_html_bytes, 2 * 1024 * 1024);
    assert_eq!(config.max_template_name_bytes, 128);
}

#[test]
fn security_trusted_local_profile_uses_home_subdirectories() {
    let config = config_from(&[("ZOTERO_MCP_PROFILE", "trusted-local")], "/work/project", Some("/home/alice"));

    assert_eq!(config.profile, SecurityProfile::TrustedLocal);
    assert_eq!(
        config.allowed_read_dirs,
        ["/home/alice/Documents", "/home/alice/Downloads", "/home/alice/Zotero/storage"]
    );
    assert_eq!(config.allowed_aux_dirs, ["/home/alice/Documents", "/home/alice/Downloads"]);
    assert_eq!(config.allowed_export_dirs, ["/home/alice/Documents/Zotero Exports"]);
}

#[test]
fn security_trusted_local_without_home_has_no_implicit_dirs() {
    let config = config_from(&[("ZOTERO_MCP_PROFILE", "trusted-local")], "/work/project", None);

    assert_eq!(config.profile, SecurityProfile::TrustedLocal);
    assert!(config.allowed_read_dirs.is_empty());
    assert!(config.allowed_aux_dirs.is_empty());
    assert!(config.allowed_export_dirs.is_empty());
}

#[test]
fn security_hardened_profile_tightens_caps() {
    let config = config_from(&[("ZOTERO_MCP_PROFILE", "hardened")], "/work/project", None);

    assert_eq!(config.profile, SecurityProfile::Hardened);
    assert!(!config.direct_file_paths);
    assert!(!config.file_paths_enabled);
    assert_eq!(config.max_pdf_bytes, 25 * 1024 * 1024);
    assert_eq!(config.max_http_body_bytes, 2 * 1024 * 1024);
    assert_eq!(config.max_markdown_bytes, 512 * 1024);
    assert_eq!(config.max_html_bytes, 512 * 1024);
    assert_eq!(config.max_template_name_bytes, 128);
}

#[test]
fn security_explicit_env_overrides_profile_defaults() {
    let config = config_from(
        &[
            ("ZOTERO_MCP_PROFILE", "workspace"),
            ("ZOTERO_DIRECT_FILE_PATHS", "false"),
            ("ZOTERO_FILE_PATHS_ENABLED", "false"),
            ("ZOTERO_ALLOWED_READ_DIRS", "/one:/two"),
            ("ZOTERO_MAX_PDF_BYTES", "123"),
        ],
        "/work/project",
        None,
    );

    assert_eq!(config.profile, SecurityProfile::Workspace);
    assert!(!config.direct_file_paths);
    assert!(!config.file_paths_enabled);
    assert_eq!(config.allowed_read_dirs, ["/one", "/two"]);
    assert_eq!(config.allowed_aux_dirs, ["/work/project"]);
    assert_eq!(config.allowed_export_dirs, ["/work/project/exports"]);
    assert_eq!(config.max_pdf_bytes, 123);
}

#[test]
fn security_invalid_numeric_override_keeps_profile_default() {
    let config = config_from(&[("ZOTERO_MAX_PDF_BYTES", "not-a-number")], "/work/project", None);

    assert_eq!(config.max_pdf_bytes, 50 * 1024 * 1024);
}

#[test]
fn security_direct_paths_disabled_returns_input_rejected() {
    let config = SecurityConfig::default();

    let err = config.check_direct_file_paths_enabled().unwrap_err();

    assert!(input_rejected_message(err).contains("Direct file paths are disabled"));
}

#[test]
fn security_existing_read_path_accepts_file_under_allowed_root() {
    let config = SecurityConfig::default();
    let roots = vec!["/tmp/root".to_owned()];

    let checked = config
        .check_existing_read_path(Ok("/tmp/root/paper.pdf".to_owned()), &roots, "PDF read")
        .unwrap();

    assert_eq!(checked, "/tmp/root/paper.pdf");
}

#[test]
fn security_existing_read_path_rejects_file_outside_allowed_roots() {
    let config = SecurityConfig::default();
    let roots = vec!["/tmp/allowed".to_owned()];

    let err = config
        .check_existing_read_path(Ok("/tmp/outside/paper.pdf".to_owned()), &roots, "PDF read")
        .unwrap_err();

    let message = input_rejected_message(err);
    assert!(message.contains("PDF read"));
    assert!(message.contains("outside allowed"));
}

#[test]
fn security_existing_read_path_rejects_symlink_escape() {
    // A link inside the allowed root canonicalizes to its target outside it.
    let config = SecurityConfig::default();
    let roots = vec!["/tmp/allowed".to_owned()];

    let err = config
        .check_existing_read_path(Ok("/tmp/outside/paper.pdf".to_owned()), &roots, "PDF read")
        .unwrap_err();

    assert!(input_rejected_message(err).contains("outside allowed"));
}

#[test]
fn security_output_path_accepts_missing_file_under_allowed_root() {
    let config = SecurityConfig::default();
    let roots = vec!["/tmp/root".to_owned()];

    let checked = config
        .check_output_path("/tmp/root/exports.bib", Some("/tmp/root".to_owned()), &roots, "auto-export output")
        .unwrap();

    assert_eq!(checked, "/tmp/root/exports.bib");
}

#[test]
fn security_output_path_rejects_missing_parent_directory() {
    let config = SecurityConfig::default();
    let roots = vec!["/tmp/root".to_owned()];

    let err = config
        .check_output_path("/tmp/root/missing/exports.bib", None, &roots, "auto-export output")
        .unwrap_err();

    assert!(input_rejected_message(err).contains("parent directory"));
}

#[test]
fn security_pdf_file_rejects_non_pdf_extension_and_oversized_files() {
    let config = security_with_pdf_limit(3);

    let extension_err = config.check_pdf_file("/tmp/notes.txt", Ok(4)).unwrap_err();
    assert!(input_rejected_message(extension_err).contains(".pdf"));

    let size_err = config.check_pdf_file("/tmp/paper.pdf", Ok(4)).unwrap_err();
    assert!(input_rejected_message(size_err).contains("exceeds"));
}

#[test]
fn security_size_helpers_reject_values_over_configured_max() {
    let config = SecurityConfig {
        max_markdown_bytes: 3,
        max_html_bytes: 3,
        max_template_name_bytes: 3,
        ..SecurityConfig::default()
    };

    assert!(input_rejected_message(config.check_markdown_size("hello").unwrap_err()).contains("markdown"));
    assert!(input_rejected_message(config.check_html_size("<p>x</p>").unwrap_err()).contains("HTML"));
    assert!(input_rejected_message(config.check_template_name_size("Export").unwrap_err()).contains("template name"));
}

#[test]
fn security_existing_read_path_rejects_empty_allowed_roots() {
    let config = SecurityConfig::default();

    let err = config
        .check_existing_read_path(Ok("/tmp/paper.pdf".to_owned()), &Vec::new(), "PDF read")
        .unwrap_err();

    assert!(input_rejected_message(err).contains("PDF read"));
}

#[test]
fn size_limit_message_names_field_and_limit() {
    let err = check_text_size("abcd", 3, "markdown").unwrap_err();
    assert_eq!(err, ZoteroMcpError::InputRejected("markdown exceeds 3 bytes".to_owned()));
    assert!(check_text_size("abc", 3, "markdown").is_ok());
    // The limit is in bytes of UTF-8, not characters.
    assert!(check_text_size("é", 1, "markdown").is_err());
}

#[test]
fn pdf_size_message_and_io_errors() {
    let config = security_with_pdf_limit(10);
    assert!(config.check_pdf_file("/tmp/a.PDF", Ok(10)).is_ok());
    assert_eq!(
        config.check_pdf_file("/tmp/a.pdf", Ok(11)),
        Err(ZoteroMcpError::InputRejected("PDF file /tmp/a.pdf exceeds 10 bytes".to_owned()))
    );
    assert_eq!(
        config.check_pdf_file("/tmp/a.pdf", Err("permission denied".to_owned())),
        Err(ZoteroMcpError::Io("permission denied".to_owned()))
    );
}

#[test]
fn existing_read_path_reports_canonicalization_failure_as_io() {
    let config = SecurityConfig::default();
    let roots = vec!["/tmp".to_owned()];
    assert_eq!(
        config.check_existing_read_path(Err("No such file".to_owned()), &roots, "PDF read"),
        Err(ZoteroMcpError::Io("No such file".to_owned()))
    );
}

#[test]
fn output_path_outside_roots_is_rejected() {
    let config = SecurityConfig::default();
    let roots = vec!["/tmp/root".to_owned()];
    let err = config
        .check_output_path("/var/out.bib", Some("/var".to_owned()), &roots, "export")
        .unwrap_err();
    assert_eq!(err, ZoteroMcpError::InputRejected("export path /var/out.bib is outside allowed directories".to_owned()));
}

#[test]
fn allowed_roots_compare_whole_components() {
    let config = SecurityConfig::default();
    let roots = vec!["/tmp/root".to_owned()];
    assert!(config.check_existing_read_path(Ok("/tmp/rootkit/a.pdf".to_owned()), &roots, "PDF read").is_err());
}

#[test]
fn booleans_and_profiles_parse_case_insensitively() {
    assert_eq!(parse_bool("YES"), Some(true));
    assert_eq!(parse_bool("n"), Some(false));
    assert_eq!(parse_bool("maybe"), None);
    assert_eq!(parse_profile(&Some("hardened".to_owned())), SecurityProfile::Hardened);
    assert_eq!(parse_profile(&Some("unknown".to_owned())), SecurityProfile::Default);
    assert_eq!(parse_profile(&None), SecurityProfile::Default);
}

#[test]
fn pdf_limit_fixture_keeps_other_defaults() {
    let config = security_with_pdf_limit(7);
    assert_eq!(config.max_pdf_bytes, 7);
    assert_eq!(config.profile, SecurityProfile::Default);
    assert_eq!(config.max_markdown_bytes, 2 * 1024 * 1024);
    assert!(config.allowed_read_dirs.is_empty());
}
