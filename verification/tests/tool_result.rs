use zotero_mcp_rs::tool_result::{text_error, text_result, text_success};

#[test]
fn text_success_wraps_text_in_successful_result() {
    let res = text_success("Operation completed".to_owned());

    assert!(!res.is_error);
    assert_eq!(res.text, "Operation completed");
}

#[test]
fn text_error_wraps_error_in_error_result() {
    let res = text_error("Something went wrong".to_owned());

    assert!(res.is_error);
    assert_eq!(res.text, "Something went wrong");
}

#[test]
fn text_result_converts_ok_to_success() {
    let res_ok: Result<String, String> = Ok("Success payload".to_owned());

    let tool_res = text_result(res_ok);

    assert!(!tool_res.is_error);
}

#[test]
fn text_result_converts_err_to_error() {
    let res_err: Result<String, String> = Err("Failure payload".to_owned());

    let tool_res = text_result(res_err);

    assert!(tool_res.is_error);
    assert_eq!(tool_res.text, "Failure payload");
}
