use zotero_mcp_rs::error::ZoteroMcpError;

#[test]
fn every_error_carries_its_message() {
    let errors = [
        ZoteroMcpError::InputRejected("a".to_owned()),
        ZoteroMcpError::PermissionDenied("b".to_owned()),
        ZoteroMcpError::NotFound("c".to_owned()),
        ZoteroMcpError::Io("d".to_owned()),
        ZoteroMcpError::PdfExtract("e".to_owned()),
        ZoteroMcpError::LocalDb("f".to_owned()),
        ZoteroMcpError::Embedding("g".to_owned()),
        ZoteroMcpError::InvalidParams("h".to_owned()),
        ZoteroMcpError::BetterBibTeX("i".to_owned()),
        ZoteroMcpError::Network("j".to_owned()),
    ];
    let messages: Vec<&str> = errors.iter().map(|e| e.message().as_str()).collect();
    assert_eq!(messages, ["a", "b", "c", "d", "e", "f", "g", "h", "i", "j"]);
}
