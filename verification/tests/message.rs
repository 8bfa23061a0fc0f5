use goose_utils::message::{
    CallToolResult, Content, ErrorData, Message, MessageContent, Role,
};
use goose_utils::truncate_message_for_display;

#[test]
fn test_truncate_message_no_tool_response() {
    let msg = Message::new(
        Role::Assistant,
        0,
        vec![MessageContent::text("Hello".to_string())],
    );
    let truncated = truncate_message_for_display(&msg);
    assert_eq!(truncated.content.len(), 1);
    assert_eq!(truncated.as_concat_text(), "Hello");
}

#[test]
fn test_truncate_message_with_long_tool_response() {
    let long_text: String = "line\n".repeat(5000);
    let tool_resp = MessageContent::tool_response(
        "test-id".to_string(),
        Ok(CallToolResult::success(vec![Content::text(
            long_text.clone(),
        )])),
    );
    let msg = Message::new(Role::Assistant, 0, vec![tool_resp]);
    let truncated = truncate_message_for_display(&msg);
    assert_eq!(truncated.content.len(), 1);
    if let MessageContent::ToolResponse(resp) = &truncated.content[0] {
        let result = resp.tool_result.as_ref().unwrap();
        let text = result.content[0].as_text().unwrap();
        assert!(text.contains("output truncated"));
        assert!(text.len() < long_text.len());
    } else {
        panic!("Expected ToolResponse");
    }
}

#[test]
fn test_truncate_message_short_tool_response_unchanged() {
    let tool_resp = MessageContent::tool_response(
        "test-id".to_string(),
        Ok(CallToolResult::success(vec![Content::text(
            "short output".to_string(),
        )])),
    );
    let msg = Message::new(Role::Assistant, 0, vec![tool_resp]);
    let truncated = truncate_message_for_display(&msg);
    if let MessageContent::ToolResponse(resp) = &truncated.content[0] {
        let result = resp.tool_result.as_ref().unwrap();
        let text = result.content[0].as_text().unwrap();
        assert_eq!(text, "short output");
    } else {
        panic!("Expected ToolResponse");
    }
}

#[test]
fn test_truncate_message_error_response_untouched() {
    // A tool response carrying an error passes through unchanged.
    let tool_resp = MessageContent::tool_response(
        "err-id".to_string(),
        Err(ErrorData {
            code: -32000,
            message: "boom".to_string(),
        }),
    );
    let msg = Message::new(Role::User, 7, vec![tool_resp]);
    let truncated = truncate_message_for_display(&msg);
    assert_eq!(truncated.content.len(), 1);
    assert_eq!(truncated.created, 7);
    if let MessageContent::ToolResponse(resp) = &truncated.content[0] {
        assert_eq!(resp.id, "err-id");
        let err = resp.tool_result.as_ref().err().unwrap();
        assert_eq!(err.code, -32000);
        assert_eq!(err.message, "boom");
    } else {
        panic!("Expected ToolResponse");
    }
}

#[test]
fn test_truncate_message_keeps_order_and_non_text_blocks() {
    // Within one successful tool response, a non-text block and a short text
    // block survive unchanged while a long text block is truncated; order,
    // count, identifier and failure flag are preserved.
    let long_text: String = "z".repeat(12_000);
    let tool_resp = MessageContent::tool_response(
        "mix-id".to_string(),
        Ok(CallToolResult::success(vec![
            Content::Other(7),
            Content::text("keep me".to_string()),
            Content::text(long_text),
        ])),
    );
    let msg = Message::new(
        Role::Assistant,
        3,
        vec![MessageContent::text("intro".to_string()), tool_resp],
    );
    let truncated = truncate_message_for_display(&msg);
    assert_eq!(truncated.content.len(), 2);
    assert_eq!(truncated.as_concat_text(), "intro");
    if let MessageContent::ToolResponse(resp) = &truncated.content[1] {
        assert_eq!(resp.id, "mix-id");
        let result = resp.tool_result.as_ref().unwrap();
        assert_eq!(result.is_error, Some(false));
        assert_eq!(result.content.len(), 3);
        assert!(matches!(result.content[0], Content::Other(7)));
        assert_eq!(result.content[1].as_text().unwrap(), "keep me");
        let shown = result.content[2].as_text().unwrap();
        assert!(shown.starts_with(&"z".repeat(10_000)));
        assert!(shown.contains("10000 of 12000 characters"));
    } else {
        panic!("Expected ToolResponse");
    }
}
