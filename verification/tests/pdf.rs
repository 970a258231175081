use zotero_mcp_rs::error::ZoteroMcpError;
use zotero_mcp_rs::pdf::{check_pdf_readable, filter_pages};

#[test]
fn returns_full_text_when_page_numbers_is_none() {
    let text = "page one\x0Cpage two\x0Cpage three";

    let result = filter_pages(text, None);

    assert_eq!(result, text);
}

#[test]
fn returns_empty_string_when_page_numbers_is_empty() {
    let text = "page one\x0Cpage two";

    let result = filter_pages(text, Some(&[]));

    assert_eq!(result, "");
}

#[test]
fn preserves_document_order_regardless_of_requested_order() {
    let text = "page one\x0Cpage two\x0Cpage three";

    let result = filter_pages(text, Some(&[3, 1]));

    assert_eq!(result, "page one\x0Cpage three");
}

#[test]
fn skips_out_of_range_page_numbers() {
    let text = "page one\x0Cpage two";

    let one_valid_res = filter_pages(text, Some(&[1, 99]));
    let none_valid_res = filter_pages(text, Some(&[99]));

    assert_eq!(one_valid_res, "page one");
    assert_eq!(none_valid_res, "");
}

#[test]
fn returns_whole_text_for_page_one_of_an_undelimited_document() {
    let text = "only page";

    let result = filter_pages(text, Some(&[1]));

    assert_eq!(result, "only page");
}

#[test]
fn returns_empty_string_for_out_of_range_page_of_an_undelimited_document() {
    let text = "only page";

    let result = filter_pages(text, Some(&[2]));

    assert_eq!(result, "");
}

#[test]
fn repeated_page_numbers_keep_the_page_once() {
    assert_eq!(filter_pages("a\x0Cb\x0Cc", Some(&[2, 2])), "b");
}

#[test]
fn empty_leading_pages_leave_no_separator() {
    // The first kept page is empty, so the second kept page starts the output.
    assert_eq!(filter_pages("\x0Cb\x0Cc", Some(&[1, 3])), "c");
    assert_eq!(filter_pages("a\x0C\x0Cc", Some(&[1, 2, 3])), "a\x0C\x0Cc");
}

#[test]
fn missing_pdf_is_not_found() {
    assert_eq!(
        check_pdf_readable("/tmp/missing.pdf", false, Ok(0), 100),
        Err(ZoteroMcpError::NotFound("PDF file not found: /tmp/missing.pdf".to_owned()))
    );
}

#[test]
fn oversized_pdf_is_rejected_before_parsing() {
    assert_eq!(
        check_pdf_readable("/tmp/big.pdf", true, Ok(101), 100),
        Err(ZoteroMcpError::InputRejected("PDF file /tmp/big.pdf exceeds 100 bytes".to_owned()))
    );
    assert!(check_pdf_readable("/tmp/ok.pdf", true, Ok(100), 100).is_ok());
}

#[test]
fn unreadable_pdf_metadata_is_an_io_error() {
    assert_eq!(
        check_pdf_readable("/tmp/x.pdf", true, Err("denied".to_owned()), 100),
        Err(ZoteroMcpError::Io("denied".to_owned()))
    );
}

#[test]
fn pdf_returns_not_found_error_when_file_is_missing() {
    // The path does not exist, so the filesystem reports it missing.
    let result = check_pdf_readable("/nonexistent/file.pdf", false, Err("not found".to_owned()), 50 * 1024 * 1024);

    assert!(matches!(result, Err(ZoteroMcpError::NotFound(_))));
}

#[test]
fn pdf_rejects_file_larger_than_max_before_parsing() {
    // A four-byte file ("more") against a three-byte limit.
    let result = check_pdf_readable("/tmp/more.pdf", true, Ok(4), 3);

    assert!(matches!(result, Err(ZoteroMcpError::InputRejected(_))));
}
