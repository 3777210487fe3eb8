use counter_applet::server::{
    applet_address_or_default, DEFAULT_APPLET_ADDRESS, MOCK_COUNT, VALUE_ARGUMENT,
};
use counter_applet::{ArgumentValue, CounterApplet, CounterMCPServer, ToolCall, ToolResponse};

fn server() -> CounterMCPServer {
    CounterMCPServer::new("applet-7".to_string())
}

fn call(tool: &str) -> ToolResponse {
    server().execute_tool(ToolCall::new(tool.to_string()))
}

fn call_with_value(tool: &str, value: ArgumentValue) -> ToolResponse {
    let mut request = ToolCall::new(tool.to_string());
    request.set_argument("value".to_string(), value);
    server().execute_tool(request)
}

#[test]
fn server_keeps_its_address() {
    let made = CounterMCPServer::new("applet-7".to_string());
    assert_eq!(made.applet_address(), "applet-7");
}

#[test]
fn address_defaults_when_none_is_configured() {
    assert_eq!(applet_address_or_default(None), "counter_applet_default_address");
    assert_eq!(applet_address_or_default(None), DEFAULT_APPLET_ADDRESS);
}

#[test]
fn address_is_taken_when_configured() {
    assert_eq!(applet_address_or_default(Some("addr-1".to_string())), "addr-1");
    assert_eq!(applet_address_or_default(Some(String::new())), "");
}

#[test]
fn catalog_lists_six_tools_in_order() {
    let tools = server().get_tools();
    let names: Vec<&str> = tools.iter().map(|tool| tool.name.as_str()).collect();
    assert_eq!(
        names,
        vec![
            "get_counter_value",
            "increment_counter",
            "decrement_counter",
            "add_to_counter",
            "set_counter_value",
            "reset_counter",
        ]
    );
}

#[test]
fn catalog_describes_each_tool() {
    let tools = server().get_tools();
    let descriptions: Vec<&str> = tools.iter().map(|tool| tool.description.as_str()).collect();
    assert_eq!(
        descriptions,
        vec![
            "Get the current value of the counter",
            "Increment the counter by 1",
            "Decrement the counter by 1",
            "Add a specific value to the counter",
            "Set the counter to a specific value",
            "Reset the counter to 0",
        ]
    );
}

#[test]
fn catalog_tools_without_arguments_declare_none() {
    let tools = server().get_tools();
    assert!(tools[0].parameters.is_empty());
    assert!(tools[1].parameters.is_empty());
    assert!(tools[2].parameters.is_empty());
    assert!(tools[5].parameters.is_empty());
}

#[test]
fn catalog_add_and_set_require_an_integer_value() {
    let tools = server().get_tools();

    assert_eq!(tools[3].parameters.len(), 1);
    let add_value = &tools[3].parameters[0];
    assert_eq!(add_value.name, "value");
    assert_eq!(add_value.name, VALUE_ARGUMENT);
    assert_eq!(add_value.kind, "integer");
    assert_eq!(add_value.description, "The value to add to the counter");
    assert!(add_value.required);

    assert_eq!(tools[4].parameters.len(), 1);
    let set_value = &tools[4].parameters[0];
    assert_eq!(set_value.name, "value");
    assert_eq!(set_value.kind, "integer");
    assert_eq!(set_value.description, "The value to set the counter to");
    assert!(set_value.required);
}

#[test]
fn every_tool_of_the_catalog_is_answered() {
    let adapter = server();
    for tool in adapter.get_tools() {
        let response = adapter.execute_tool(ToolCall::new(tool.name.clone()));
        assert!(response.success);
        assert!(response.result.is_some());
    }
}

#[test]
fn get_counter_value_gives_the_mock_count() {
    let response = call("get_counter_value");
    assert!(response.success);
    assert_eq!(response.result, Some(42));
    assert_eq!(response.result, Some(MOCK_COUNT));
    assert_eq!(response.message, "Counter value retrieved successfully");
}

#[test]
fn increment_counter_gives_one_more() {
    let response = call("increment_counter");
    assert!(response.success);
    assert_eq!(response.result, Some(43));
    assert_eq!(response.message, "Counter incremented successfully");
}

#[test]
fn decrement_counter_gives_one_less() {
    let response = call("decrement_counter");
    assert!(response.success);
    assert_eq!(response.result, Some(41));
    assert_eq!(response.message, "Counter decremented successfully");
}

#[test]
fn add_to_counter_adds_the_value() {
    let response = call_with_value("add_to_counter", ArgumentValue::Integer(8));
    assert!(response.success);
    assert_eq!(response.result, Some(50));
    assert_eq!(response.message, "Added 8 to counter successfully");
}

#[test]
fn add_to_counter_takes_a_negative_value() {
    let response = call_with_value("add_to_counter", ArgumentValue::Integer(-50));
    assert!(response.success);
    assert_eq!(response.result, Some(-8));
    assert_eq!(response.message, "Added -50 to counter successfully");
}

#[test]
fn add_to_counter_wraps_past_the_greatest_count() {
    let response = call_with_value("add_to_counter", ArgumentValue::Integer(i64::MAX));
    assert!(response.success);
    assert_eq!(response.result, Some(i64::MIN + 41));
    assert_eq!(
        response.message,
        "Added 9223372036854775807 to counter successfully"
    );
}

#[test]
fn add_to_counter_without_a_value_adds_zero() {
    let response = call("add_to_counter");
    assert!(response.success);
    assert_eq!(response.result, Some(42));
    assert_eq!(response.message, "Added 0 to counter successfully");
}

#[test]
fn add_to_counter_with_a_value_that_is_no_integer_adds_zero() {
    let response = call_with_value("add_to_counter", ArgumentValue::Other);
    assert!(response.success);
    assert_eq!(response.result, Some(42));
    assert_eq!(response.message, "Added 0 to counter successfully");
}

#[test]
fn add_to_counter_reads_only_the_argument_named_value() {
    let mut request = ToolCall::new("add_to_counter".to_string());
    request.set_argument("amount".to_string(), ArgumentValue::Integer(9));
    request.set_argument("Value".to_string(), ArgumentValue::Integer(9));
    let response = server().execute_tool(request);
    assert_eq!(response.result, Some(42));
    assert_eq!(response.message, "Added 0 to counter successfully");
}

#[test]
fn set_argument_replaces_an_earlier_value() {
    let mut request = ToolCall::new("set_counter_value".to_string());
    request.set_argument("value".to_string(), ArgumentValue::Integer(1));
    request.set_argument("value".to_string(), ArgumentValue::Integer(2));
    let response = server().execute_tool(request);
    assert_eq!(response.result, Some(2));
    assert_eq!(response.message, "Counter set to 2 successfully");
}

#[test]
fn set_counter_value_gives_the_value() {
    let response = call_with_value("set_counter_value", ArgumentValue::Integer(-10));
    assert!(response.success);
    assert_eq!(response.result, Some(-10));
    assert_eq!(response.message, "Counter set to -10 successfully");
}

#[test]
fn set_counter_value_without_a_value_sets_zero() {
    let response = call("set_counter_value");
    assert!(response.success);
    assert_eq!(response.result, Some(0));
    assert_eq!(response.message, "Counter set to 0 successfully");
}

#[test]
fn set_counter_value_takes_the_least_count() {
    let response = call_with_value("set_counter_value", ArgumentValue::Integer(i64::MIN));
    assert_eq!(response.result, Some(i64::MIN));
    assert_eq!(
        response.message,
        "Counter set to -9223372036854775808 successfully"
    );
}

#[test]
fn reset_counter_gives_zero() {
    let response = call("reset_counter");
    assert!(response.success);
    assert_eq!(response.result, Some(0));
    assert_eq!(response.message, "Counter reset to 0 successfully");
}

#[test]
fn tools_without_arguments_ignore_a_value() {
    let response = call_with_value("increment_counter", ArgumentValue::Integer(100));
    assert_eq!(response.result, Some(43));
    let response = call_with_value("reset_counter", ArgumentValue::Integer(100));
    assert_eq!(response.result, Some(0));
}

#[test]
fn unknown_tool_fails_and_is_named() {
    let response = call("multiply_counter");
    assert!(!response.success);
    assert_eq!(response.result, None);
    assert_eq!(response.message, "Unknown tool: multiply_counter");
}

#[test]
fn unknown_tool_with_arguments_fails_the_same_way() {
    let response = call_with_value("multiply_counter", ArgumentValue::Integer(3));
    assert!(!response.success);
    assert_eq!(response.result, None);
    assert_eq!(response.message, "Unknown tool: multiply_counter");
}

#[test]
fn tool_names_are_matched_exactly() {
    for name in ["", "Increment_Counter", "increment_counter ", "increment", "reset_counter2"] {
        let response = call(name);
        assert!(!response.success);
        assert_eq!(response.result, None);
        assert_eq!(response.message, format!("Unknown tool: {}", name));
    }
}

#[test]
fn answers_are_those_of_a_counter_at_the_mock_count() {
    let mut counter = CounterApplet::new("alice".to_string());

    counter.set_count(MOCK_COUNT);
    assert_eq!(call("get_counter_value").result, Some(counter.get_count()));
    assert_eq!(call("increment_counter").result, Some(counter.increment()));

    counter.set_count(MOCK_COUNT);
    assert_eq!(call("decrement_counter").result, Some(counter.decrement()));

    counter.set_count(MOCK_COUNT);
    assert_eq!(
        call_with_value("add_to_counter", ArgumentValue::Integer(-45)).result,
        Some(counter.add(-45))
    );

    counter.set_count(MOCK_COUNT);
    assert_eq!(
        call_with_value("set_counter_value", ArgumentValue::Integer(17)).result,
        Some(counter.set_count(17))
    );

    counter.set_count(MOCK_COUNT);
    assert_eq!(call("reset_counter").result, Some(counter.reset()));
}
