//! The tool adapter: the counter's operations offered by name, with a
//! catalog that describes them and a dispatcher that answers a call.
//!
//! The adapter reaches no counter. It answers every call as a counter would
//! that stood at `MOCK_COUNT` when the call came in.

use crate::counter::wrap_count;
use crate::decimal::{decimal_text, to_decimal};
use vstd::hash_map::StringHashMap;
use vstd::prelude::*;

verus! {

/// The count that the adapter's answers start from.
pub const MOCK_COUNT: i64 = 42;

/// The address that is taken where none is configured.
pub const DEFAULT_APPLET_ADDRESS: &'static str = "counter_applet_default_address";

/// The name of the one argument that a tool reads.
pub const VALUE_ARGUMENT: &'static str = "value";

/// One parameter of a tool.
pub struct ToolParameter {
    pub name: String,
    /// The JSON type of the argument, such as `integer`.
    pub kind: String,
    pub description: String,
    /// Whether a call has to give it.
    pub required: bool,
}

/// A parameter as contracts speak of it.
pub struct ToolParameterView {
    pub name: Seq<char>,
    pub kind: Seq<char>,
    pub description: Seq<char>,
    pub required: bool,
}

impl View for ToolParameter {
    type V = ToolParameterView;

    open spec fn view(&self) -> ToolParameterView {
        ToolParameterView {
            name: self.name@,
            kind: self.kind@,
            description: self.description@,
            required: self.required,
        }
    }
}

/// One entry of the catalog: a tool's name, what it does, and the
/// parameters that a call of it takes.
pub struct CounterTool {
    pub name: String,
    pub description: String,
    pub parameters: Vec<ToolParameter>,
}

/// A catalog entry as contracts speak of it.
pub struct CounterToolView {
    pub name: Seq<char>,
    pub description: Seq<char>,
    pub parameters: Seq<ToolParameterView>,
}

impl View for CounterTool {
    type V = CounterToolView;

    open spec fn view(&self) -> CounterToolView {
        CounterToolView {
            name: self.name@,
            description: self.description@,
            parameters: self.parameters@.map_values(|p: ToolParameter| p@),
        }
    }
}

/// What a tool reads of one JSON argument.
#[derive(Clone, Copy, Debug, PartialEq, Eq)]
pub enum ArgumentValue {
    /// A whole number in the 64-bit signed range.
    Integer(i64),
    /// Any other JSON value. No tool reads further into it.
    Other,
}

/// A call of a tool by name, with its named arguments.
pub struct ToolCall {
    tool: String,
    arguments: StringHashMap<ArgumentValue>,
}

/// A call as contracts speak of it: the tool's name and the arguments by
/// name.
pub struct ToolCallView {
    pub tool: Seq<char>,
    pub arguments: Map<Seq<char>, ArgumentValue>,
}

impl View for ToolCall {
    type V = ToolCallView;

    closed spec fn view(&self) -> ToolCallView {
        ToolCallView { tool: self.tool@, arguments: self.arguments@ }
    }
}

impl ToolCall {
    /// A call of `tool` without arguments.
    pub fn new(tool: String) -> (call: ToolCall)
        ensures
            call@.tool == tool@,
            call@.arguments == Map::<Seq<char>, ArgumentValue>::empty(),
    {
        ToolCall { tool, arguments: StringHashMap::new() }
    }

    /// Gives the argument `name` the value `value`, in place of any value
    /// that it had.
    pub fn set_argument(&mut self, name: String, value: ArgumentValue)
        ensures
            final(self)@.tool == old(self)@.tool,
            final(self)@.arguments == old(self)@.arguments.insert(name@, value),
    {
        self.arguments.insert(name, value);
    }
}

/// The answer to a call.
#[derive(Debug)]
pub struct ToolResponse {
    pub success: bool,
    /// The count that the operation gave; `None` where there is none, which
    /// JSON writes as `null`.
    pub result: Option<i64>,
    pub message: String,
}

/// An answer as contracts speak of it.
pub struct ToolResponseView {
    pub success: bool,
    pub result: Option<i64>,
    pub message: Seq<char>,
}

impl View for ToolResponse {
    type V = ToolResponseView;

    open spec fn view(&self) -> ToolResponseView {
        ToolResponseView { success: self.success, result: self.result, message: self.message@ }
    }
}

/// A catalog entry for a tool that takes no arguments.
pub open spec fn plain_tool(name: Seq<char>, description: Seq<char>) -> CounterToolView {
    CounterToolView { name, description, parameters: Seq::empty() }
}

/// A catalog entry for a tool that takes the one required integer argument
/// `value`, which `value_description` describes.
pub open spec fn value_tool(
    name: Seq<char>,
    description: Seq<char>,
    value_description: Seq<char>,
) -> CounterToolView {
    CounterToolView {
        name,
        description,
        parameters: seq![
            ToolParameterView {
                name: VALUE_ARGUMENT@,
                kind: "integer"@,
                description: value_description,
                required: true,
            },
        ],
    }
}

/// The catalog: the six tools, in the order in which they are offered.
pub open spec fn tool_catalog() -> Seq<CounterToolView> {
    seq![
        plain_tool("get_counter_value"@, "Get the current value of the counter"@),
        plain_tool("increment_counter"@, "Increment the counter by 1"@),
        plain_tool("decrement_counter"@, "Decrement the counter by 1"@),
        value_tool(
            "add_to_counter"@,
            "Add a specific value to the counter"@,
            "The value to add to the counter"@,
        ),
        value_tool(
            "set_counter_value"@,
            "Set the counter to a specific value"@,
            "The value to set the counter to"@,
        ),
        plain_tool("reset_counter"@, "Reset the counter to 0"@),
    ]
}

/// The integer that the argument `name` holds; zero where the call has no
/// such argument or it is no integer.
pub open spec fn integer_argument(arguments: Map<Seq<char>, ArgumentValue>, name: Seq<char>) -> i64 {
    if arguments.contains_key(name) {
        match arguments[name] {
            ArgumentValue::Integer(n) => n,
            ArgumentValue::Other => 0,
        }
    } else {
        0
    }
}

/// A successful answer that gives `count`.
pub open spec fn success_response(count: int, message: Seq<char>) -> ToolResponseView {
    ToolResponseView { success: true, result: Some(count as i64), message }
}

/// The answer of `get_counter_value`: the count as it stands.
pub open spec fn get_counter_value_response() -> ToolResponseView {
    success_response(MOCK_COUNT as int, "Counter value retrieved successfully"@)
}

/// The answer of `increment_counter`: one more than the count.
pub open spec fn increment_counter_response() -> ToolResponseView {
    success_response(MOCK_COUNT + 1, "Counter incremented successfully"@)
}

/// The answer of `decrement_counter`: one less than the count.
pub open spec fn decrement_counter_response() -> ToolResponseView {
    success_response(MOCK_COUNT - 1, "Counter decremented successfully"@)
}

/// The answer of `add_to_counter`: the count and `value` together, wrapped
/// as the counter wraps, and a message that gives `value` in decimal.
pub open spec fn add_to_counter_response(value: i64) -> ToolResponseView {
    success_response(
        wrap_count(MOCK_COUNT + value),
        "Added "@ + decimal_text(value as int) + " to counter successfully"@,
    )
}

/// The answer of `set_counter_value`: `value` itself, and a message that
/// gives it in decimal.
pub open spec fn set_counter_value_response(value: i64) -> ToolResponseView {
    success_response(
        value as int,
        "Counter set to "@ + decimal_text(value as int) + " successfully"@,
    )
}

/// The answer of `reset_counter`: zero.
pub open spec fn reset_counter_response() -> ToolResponseView {
    success_response(0, "Counter reset to 0 successfully"@)
}

/// The answer to a call of a tool that the catalog does not hold.
pub open spec fn unknown_tool_response(tool: Seq<char>) -> ToolResponseView {
    ToolResponseView { success: false, result: None, message: "Unknown tool: "@ + tool }
}

/// Whether the catalog holds a tool of this name.
pub open spec fn is_known_tool(tool: Seq<char>) -> bool {
    exists|i: int| 0 <= i < tool_catalog().len() && #[trigger] tool_catalog()[i].name == tool
}

/// The answer to a call: that of the tool it names, which for
/// `add_to_counter` and `set_counter_value` takes the integer that the call
/// gives for `value`, or zero; and for any other name a failure.
pub open spec fn tool_response(call: ToolCallView) -> ToolResponseView {
    let value = integer_argument(call.arguments, VALUE_ARGUMENT@);
    if call.tool == "get_counter_value"@ {
        get_counter_value_response()
    } else if call.tool == "increment_counter"@ {
        increment_counter_response()
    } else if call.tool == "decrement_counter"@ {
        decrement_counter_response()
    } else if call.tool == "add_to_counter"@ {
        add_to_counter_response(value)
    } else if call.tool == "set_counter_value"@ {
        set_counter_value_response(value)
    } else if call.tool == "reset_counter"@ {
        reset_counter_response()
    } else {
        unknown_tool_response(call.tool)
    }
}

/// The catalog holds a tool exactly if the dispatcher has an answer of the
/// tool's own for it: the names in the catalog are the six names that
/// `tool_response` tells apart, and no others.
pub proof fn lemma_catalog_names(tool: Seq<char>)
    ensures
        is_known_tool(tool) <==> {
            ||| tool == "get_counter_value"@
            ||| tool == "increment_counter"@
            ||| tool == "decrement_counter"@
            ||| tool == "add_to_counter"@
            ||| tool == "set_counter_value"@
            ||| tool == "reset_counter"@
        },
{
    let catalog = tool_catalog();
    assert(catalog.len() == 6);
    assert(catalog[0].name == "get_counter_value"@);
    assert(catalog[1].name == "increment_counter"@);
    assert(catalog[2].name == "decrement_counter"@);
    assert(catalog[3].name == "add_to_counter"@);
    assert(catalog[4].name == "set_counter_value"@);
    assert(catalog[5].name == "reset_counter"@);
}

/// The configured address, or the default one where none is configured.
pub fn applet_address_or_default(configured: Option<String>) -> (address: String)
    ensures
        address@ == match configured {
            Some(given) => given@,
            None => DEFAULT_APPLET_ADDRESS@,
        },
{
    match configured {
        Some(given) => given,
        None => DEFAULT_APPLET_ADDRESS.to_owned(),
    }
}

/// Whether `text` is exactly `name`.
fn is_named(text: &String, name: &str) -> (same: bool)
    ensures
        same == (text@ == name@),
{
    let owned = name.to_owned();
    *text == owned
}

/// A tool that takes no arguments.
fn describe_plain_tool(name: &str, description: &str) -> (tool: CounterTool)
    ensures
        tool@ == plain_tool(name@, description@),
{
    let tool = CounterTool {
        name: name.to_owned(),
        description: description.to_owned(),
        parameters: Vec::new(),
    };
    assert(tool@.parameters =~= Seq::empty());
    tool
}

/// A tool that takes the one required integer argument `value`.
fn describe_value_tool(name: &str, description: &str, value_description: &str) -> (tool:
    CounterTool)
    ensures
        tool@ == value_tool(name@, description@, value_description@),
{
    let mut parameters = Vec::new();
    parameters.push(
        ToolParameter {
            name: VALUE_ARGUMENT.to_owned(),
            kind: "integer".to_owned(),
            description: value_description.to_owned(),
            required: true,
        },
    );
    let tool = CounterTool {
        name: name.to_owned(),
        description: description.to_owned(),
        parameters,
    };
    assert(tool@.parameters =~= value_tool(name@, description@, value_description@).parameters);
    tool
}

/// The adapter for the counter applet at one address.
pub struct CounterMCPServer {
    applet_address: String,
}

impl View for CounterMCPServer {
    /// The address of the applet.
    type V = Seq<char>;

    closed spec fn view(&self) -> Seq<char> {
        self.applet_address@
    }
}

impl CounterMCPServer {
    /// An adapter for the applet at `applet_address`.
    pub fn new(applet_address: String) -> (server: CounterMCPServer)
        ensures
            server@ == applet_address@,
    {
        CounterMCPServer { applet_address }
    }

    /// The address of the applet that the adapter was made for.
    pub fn applet_address(&self) -> (address: &str)
        ensures
            address@ == self@,
    {
        self.applet_address.as_str()
    }

    /// The catalog of the tools, as `tool_catalog` lists them.
    pub fn get_tools(&self) -> (tools: Vec<CounterTool>)
        ensures
            tools@.map_values(|tool: CounterTool| tool@) == tool_catalog(),
    {
        let mut tools = Vec::new();
        tools.push(
            describe_plain_tool("get_counter_value", "Get the current value of the counter"),
        );
        tools.push(describe_plain_tool("increment_counter", "Increment the counter by 1"));
        tools.push(describe_plain_tool("decrement_counter", "Decrement the counter by 1"));
        tools.push(
            describe_value_tool(
                "add_to_counter",
                "Add a specific value to the counter",
                "The value to add to the counter",
            ),
        );
        tools.push(
            describe_value_tool(
                "set_counter_value",
                "Set the counter to a specific value",
                "The value to set the counter to",
            ),
        );
        tools.push(describe_plain_tool("reset_counter", "Reset the counter to 0"));
        tools
    }

    /// Answers a call: the tool's answer where the catalog holds the tool,
    /// and a failure that names the tool where it does not.
    pub fn execute_tool(&self, call: ToolCall) -> (response: ToolResponse)
        ensures
            response@ == tool_response(call@),
            !is_known_tool(call@.tool) ==> response@ == unknown_tool_response(call@.tool),
    {
        proof {
            lemma_catalog_names(call@.tool);
        }
        if is_named(&call.tool, "get_counter_value") {
            self.get_counter_value()
        } else if is_named(&call.tool, "increment_counter") {
            self.increment_counter()
        } else if is_named(&call.tool, "decrement_counter") {
            self.decrement_counter()
        } else if is_named(&call.tool, "add_to_counter") {
            self.add_to_counter(integer_argument_of(&call))
        } else if is_named(&call.tool, "set_counter_value") {
            self.set_counter_value(integer_argument_of(&call))
        } else if is_named(&call.tool, "reset_counter") {
            self.reset_counter()
        } else {
            let mut message = "Unknown tool: ".to_owned();
            message.append(call.tool.as_str());
            ToolResponse { success: false, result: None, message }
        }
    }

    /// Reads the count.
    fn get_counter_value(&self) -> (response: ToolResponse)
        ensures
            response@ == get_counter_value_response(),
    {
        ToolResponse {
            success: true,
            result: Some(MOCK_COUNT),
            message: "Counter value retrieved successfully".to_owned(),
        }
    }

    /// Adds one to the count.
    fn increment_counter(&self) -> (response: ToolResponse)
        ensures
            response@ == increment_counter_response(),
    {
        ToolResponse {
            success: true,
            result: Some(MOCK_COUNT + 1),
            message: "Counter incremented successfully".to_owned(),
        }
    }

    /// Takes one from the count.
    fn decrement_counter(&self) -> (response: ToolResponse)
        ensures
            response@ == decrement_counter_response(),
    {
        ToolResponse {
            success: true,
            result: Some(MOCK_COUNT - 1),
            message: "Counter decremented successfully".to_owned(),
        }
    }

    /// Adds `value` to the count.
    fn add_to_counter(&self, value: i64) -> (response: ToolResponse)
        ensures
            response@ == add_to_counter_response(value),
    {
        let mut message = "Added ".to_owned();
        message.append(to_decimal(value).as_str());
        message.append(" to counter successfully");
        ToolResponse { success: true, result: Some(MOCK_COUNT.wrapping_add(value)), message }
    }

    /// Sets the count to `value`.
    fn set_counter_value(&self, value: i64) -> (response: ToolResponse)
        ensures
            response@ == set_counter_value_response(value),
    {
        let mut message = "Counter set to ".to_owned();
        message.append(to_decimal(value).as_str());
        message.append(" successfully");
        ToolResponse { success: true, result: Some(value), message }
    }

    /// Puts the count back to zero.
    fn reset_counter(&self) -> (response: ToolResponse)
        ensures
            response@ == reset_counter_response(),
    {
        ToolResponse {
            success: true,
            result: Some(0),
            message: "Counter reset to 0 successfully".to_owned(),
        }
    }
}

/// The integer that the call gives for `value`, or zero.
fn integer_argument_of(call: &ToolCall) -> (value: i64)
    ensures
        value == integer_argument(call@.arguments, VALUE_ARGUMENT@),
{
    match call.arguments.get(VALUE_ARGUMENT) {
        Some(ArgumentValue::Integer(n)) => *n,
        _ => 0,
    }
}

} // verus!
