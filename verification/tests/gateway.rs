use chat_gateway::gateway::check_health_request;
use chat_gateway::gateway::complete;
use chat_gateway::gateway::get_history_request;
use chat_gateway::gateway::send_message_request;
use chat_gateway::gateway::Exchange;
use chat_gateway::gateway::Method;
use chat_gateway::gateway::Operation;

#[test]
fn send_message_plan() {
    let plan = send_message_request("hi there", "s-42");
    assert_eq!(plan.method, Method::Post);
    assert_eq!(plan.path, "/api/chat");
    assert_eq!(
        plan.body.as_deref(),
        Some("{\"message\":\"hi there\",\"session_id\":\"s-42\"}")
    );
}

#[test]
fn history_plan_substitutes_the_session_segment() {
    let plan = get_history_request("abc123");
    assert_eq!(plan.method, Method::Get);
    assert_eq!(plan.path, "/api/chat/abc123");
    assert!(plan.body.is_none());
}

#[test]
fn health_plan() {
    let plan = check_health_request();
    assert_eq!(plan.method, Method::Get);
    assert_eq!(plan.path, "/api/health");
    assert!(plan.body.is_none());
}

#[test]
fn http_error_status_passes_body_through_as_success() {
    for op in [Operation::SendMessage, Operation::GetHistory, Operation::CheckHealth] {
        let ex = Exchange::Delivered { status: 500, body: "internal error".to_string() };
        assert_eq!(complete(op, ex), Ok("internal error".to_string()));
    }
}

#[test]
fn empty_body_is_an_empty_success() {
    let ex = Exchange::Delivered { status: 200, body: String::new() };
    assert_eq!(complete(Operation::GetHistory, ex), Ok(String::new()));
}

#[test]
fn send_failure_texts_carry_each_operations_prefix() {
    let cause = "connection refused".to_string();
    let r = complete(Operation::SendMessage, Exchange::SendFailed { cause: cause.clone() });
    assert_eq!(r, Err("Failed to send request: connection refused".to_string()));
    let r = complete(Operation::GetHistory, Exchange::SendFailed { cause: cause.clone() });
    assert_eq!(r, Err("Failed to get history: connection refused".to_string()));
    let r = complete(Operation::CheckHealth, Exchange::SendFailed { cause });
    assert_eq!(r, Err("Failed to check health: connection refused".to_string()));
}

#[test]
fn failure_texts_begin_with_the_prefix_and_a_nonempty_cause() {
    let prefixes = [
        (Operation::SendMessage, "Failed to send request: "),
        (Operation::GetHistory, "Failed to get history: "),
        (Operation::CheckHealth, "Failed to check health: "),
    ];
    for (op, prefix) in prefixes {
        let ex = Exchange::SendFailed { cause: "timed out".to_string() };
        let text = complete(op, ex).unwrap_err();
        assert!(text.starts_with(prefix));
        assert!(text.len() > prefix.len());
    }
}

#[test]
fn read_failure_texts_share_one_prefix() {
    for op in [Operation::SendMessage, Operation::GetHistory, Operation::CheckHealth] {
        let ex = Exchange::ReadFailed { cause: "broken pipe".to_string() };
        let r = complete(op, ex);
        assert_eq!(r, Err("Failed to read response: broken pipe".to_string()));
    }
}

#[test]
fn delivered_status_is_ignored_whatever_it_is() {
    for status in [100u16, 200, 204, 301, 404, 500, 503] {
        let ex = Exchange::Delivered { status, body: "payload".to_string() };
        assert_eq!(complete(Operation::CheckHealth, ex), Ok("payload".to_string()));
    }
}
