use vstd::prelude::*;
use crate::json::{is_json_str, Json};
use crate::results::{CallToolResult, ToolContent};
use crate::text::{append_str, owned, same_text};
use crate::tools::{decode_tool_call, text_or, tool_decodes_to, tool_names, ToolRequest};

verus! {

/// A JSON-RPC request as read from the client. A request without an `id`
/// is a notification, which gets no response.
#[derive(Debug, PartialEq, Eq)]
pub struct JsonRpcRequest {
    pub jsonrpc: String,
    pub id: Option<Json>,
    pub method: String,
    pub params: Option<Json>,
}

/// A JSON-RPC response.
#[derive(Debug, PartialEq, Eq)]
pub struct JsonRpcResponse {
    pub jsonrpc: String,
    pub id: Json,
    pub result: Option<Json>,
    pub error: Option<Json>,
}

/// What to do with a request.
#[derive(Debug, PartialEq, Eq)]
pub enum Dispatch {
    /// Send this response.
    Reply(JsonRpcResponse),
    /// Run the tool, then report with `finish_tool_call` and this `id`.
    CallTool { id: Option<Json>, request: ToolRequest },
    /// Send nothing.
    NoReply,
}

/// `m` is the member `key` with the string value `value`.
pub open spec fn is_str_member(m: (String, Json), key: Seq<char>, value: Seq<char>) -> bool {
    m.0@ == key && is_json_str(m.1, value)
}

/// `j` is an object with no members.
pub open spec fn is_empty_object(j: Json) -> bool {
    j matches Json::Object(ms) && ms@.len() == 0
}

/// `j` is the JSON of a tool's result: its content items in order and its
/// error flag.
pub open spec fn is_result_json(j: Json, content: Seq<ToolContent>, is_error: bool) -> bool {
    j matches Json::Object(ms) && ms@.len() == 2 && ms@[0].0@ == "content"@ && ms@[1].0@
        == "isError"@ && ms@[1].1 == Json::Bool(is_error) && (ms@[0].1 matches Json::Array(items)
        && items@.len() == content.len() && forall|k: int|
        0 <= k < content.len() ==> is_content_json(#[trigger] items@[k], content[k]))
}

/// `j` is the JSON of one content item.
pub open spec fn is_content_json(j: Json, c: ToolContent) -> bool {
    match c {
        ToolContent::Text { text } => j matches Json::Object(ms) && ms@.len() == 2
            && is_str_member(ms@[0], "type"@, "text"@) && is_str_member(ms@[1], "text"@, text@),
        ToolContent::Image { data, mime_type } => j matches Json::Object(ms) && ms@.len() == 3
            && is_str_member(ms@[0], "type"@, "image"@) && is_str_member(ms@[1], "data"@, data@)
            && is_str_member(ms@[2], "mimeType"@, mime_type@),
    }
}

fn json_str(s: &str) -> (j: Json)
    ensures
        is_json_str(j, s@),
{
    Json::String(owned(s))
}

fn str_member(key: &str, value: &str) -> (m: (String, Json))
    ensures
        is_str_member(m, key@, value@),
{
    (owned(key), json_str(value))
}

fn content_json(c: &ToolContent) -> (j: Json)
    ensures
        is_content_json(j, *c),
{
    match c {
        ToolContent::Text { text } => {
            let mut ms: Vec<(String, Json)> = Vec::new();
            ms.push(str_member("type", "text"));
            ms.push((owned("text"), Json::String(text.clone())));
            Json::Object(ms)
        },
        ToolContent::Image { data, mime_type } => {
            let mut ms: Vec<(String, Json)> = Vec::new();
            ms.push(str_member("type", "image"));
            ms.push((owned("data"), Json::String(data.clone())));
            ms.push((owned("mimeType"), Json::String(mime_type.clone())));
            Json::Object(ms)
        },
    }
}

impl CallToolResult {
    /// The JSON that reports this result: `content` and `isError`.
    pub fn to_json(&self) -> (j: Json)
        ensures
            is_result_json(j, self.content@, self.is_error),
    {
        let mut items: Vec<Json> = Vec::new();
        let mut i: usize = 0;
        while i < self.content.len()
            invariant
                i <= self.content.len(),
                items@.len() == i,
                forall|k: int|
                    0 <= k < i ==> is_content_json(#[trigger] items@[k], self.content@[k]),
            decreases self.content.len() - i,
        {
            items.push(content_json(&self.content[i]));
            i = i + 1;
        }
        let mut ms: Vec<(String, Json)> = Vec::new();
        ms.push((owned("content"), Json::Array(items)));
        ms.push((owned("isError"), Json::Bool(self.is_error)));
        Json::Object(ms)
    }
}

/// `j` is the result of `initialize`: the protocol version, the server's
/// name and version, and that it offers tools.
pub open spec fn is_initialize_result(j: Json) -> bool {
    j matches Json::Object(ms) && ms@.len() == 3 && is_str_member(
        ms@[0],
        "protocolVersion"@,
        "2024-11-05"@,
    ) && ms@[1].0@ == "serverInfo"@ && (ms@[1].1 matches Json::Object(info) && info@.len() == 2
        && is_str_member(info@[0], "name"@, "computa-use"@) && is_str_member(
        info@[1],
        "version"@,
        "0.1.0"@,
    )) && ms@[2].0@ == "capabilities"@ && (ms@[2].1 matches Json::Object(caps) && caps@.len() == 1
        && caps@[0].0@ == "tools"@ && is_empty_object(caps@[0].1))
}

/// The result of `initialize`.
pub fn initialize_result() -> (j: Json)
    ensures
        is_initialize_result(j),
{
    let mut info: Vec<(String, Json)> = Vec::new();
    info.push(str_member("name", "computa-use"));
    info.push(str_member("version", "0.1.0"));
    let mut caps: Vec<(String, Json)> = Vec::new();
    caps.push((owned("tools"), Json::Object(Vec::new())));
    let mut ms: Vec<(String, Json)> = Vec::new();
    ms.push(str_member("protocolVersion", "2024-11-05"));
    ms.push((owned("serverInfo"), Json::Object(info)));
    ms.push((owned("capabilities"), Json::Object(caps)));
    Json::Object(ms)
}

/// What each tool does, in the order of `tool_names`.
pub open spec fn tool_descriptions() -> Seq<Seq<char>> {
    seq![
        "Execute a shell command (PowerShell)."@,
        "Move the mouse to absolute coordinates."@,
        "Click a mouse button (left, right, middle)."@,
        "Type a string of text."@,
        "Press a specific key (e.g., return, space, escape, backspace, tab, media_play_pause, media_next_track)."@,
        "Get CPU and RAM metrics."@,
        "Get the structural tree of UI elements on the screen."@,
        "Finds a template image on the screen and returns its center coordinates."@,
        "Captures the entire screen, saves it to a session-specific folder, and returns the image data directly."@,
        "Perform multiple computer navigation actions sequentially in one call. Actions can be mouse_move (x, y), mouse_click (button), keyboard_type (text), keyboard_press (key)."@,
    ]
}

/// The arguments of each tool with their JSON types, in the order of
/// `tool_names`.
pub open spec fn tool_arguments() -> Seq<Seq<(Seq<char>, Seq<char>)>> {
    seq![
        seq![("command"@, "string"@)],
        seq![("x"@, "integer"@), ("y"@, "integer"@)],
        seq![("button"@, "string"@)],
        seq![("text"@, "string"@)],
        seq![("key"@, "string"@)],
        seq![],
        seq![],
        seq![("template_path"@, "string"@)],
        seq![],
        seq![("actions"@, "array"@)],
    ]
}

/// `j` is the schema `{"type": kind}`.
pub open spec fn is_typed(j: Json, kind: Seq<char>) -> bool {
    j matches Json::Object(pm) && pm@.len() == 1 && is_str_member(pm@[0], "type"@, kind)
}

/// `j` is the schema of the `actions` argument: an array of objects, each
/// with a required `action` name and the optional arguments of the action.
pub open spec fn is_actions_property(j: Json) -> bool {
    j matches Json::Object(pm) && pm@.len() == 2 && is_str_member(pm@[0], "type"@, "array"@)
        && pm@[1].0@ == "items"@ && (pm@[1].1 matches Json::Object(item) && item@.len() == 3
        && is_str_member(item@[0], "type"@, "object"@) && item@[1].0@ == "properties"@
        && (item@[1].1 matches Json::Object(props) && props@.len() == 6 && props@[0].0@
        == "action"@ && (props@[0].1 matches Json::Object(a) && a@.len() == 2 && is_str_member(
        a@[0],
        "type"@,
        "string"@,
    ) && is_str_member(
        a@[1],
        "description"@,
        "One of: mouse_move, mouse_click, keyboard_type, keyboard_press"@,
    )) && props@[1].0@ == "x"@ && is_typed(props@[1].1, "integer"@) && props@[2].0@ == "y"@
        && is_typed(props@[2].1, "integer"@) && props@[3].0@ == "button"@ && is_typed(
        props@[3].1,
        "string"@,
    ) && props@[4].0@ == "text"@ && is_typed(props@[4].1, "string"@) && props@[5].0@ == "key"@
        && is_typed(props@[5].1, "string"@)) && item@[2].0@ == "required"@ && (item@[2].1 matches Json::Array(
        req,
    ) && req@.len() == 1 && is_json_str(req@[0], "action"@)))
}

/// `j` is the schema of an argument of JSON type `kind`.
pub open spec fn is_property(j: Json, kind: Seq<char>) -> bool {
    if kind == "array"@ {
        is_actions_property(j)
    } else {
        is_typed(j, kind)
    }
}

/// `j` is an input schema: an object whose properties are `args`, each
/// with its type, all of them required.
pub open spec fn is_schema(j: Json, args: Seq<(Seq<char>, Seq<char>)>) -> bool {
    j matches Json::Object(ms) && ms@.len() == 3 && is_str_member(ms@[0], "type"@, "object"@)
        && ms@[1].0@ == "properties"@ && (ms@[1].1 matches Json::Object(ps) && ps@.len()
        == args.len() && forall|k: int|
        0 <= k < args.len() ==> (#[trigger] ps@[k]).0@ == args[k].0 && is_property(
            ps@[k].1,
            args[k].1,
        )) && ms@[2].0@ == "required"@ && (ms@[2].1 matches Json::Array(rs) && rs@.len()
        == args.len() && forall|k: int|
        0 <= k < args.len() ==> is_json_str(#[trigger] rs@[k], args[k].0))
}

/// `j` describes the tool at place `i`: its name, its description and the
/// schema of its arguments.
pub open spec fn describes_tool(j: Json, i: int) -> bool {
    j matches Json::Object(ms) && ms@.len() == 3 && is_str_member(ms@[0], "name"@, tool_names()[i])
        && is_str_member(ms@[1], "description"@, tool_descriptions()[i]) && ms@[2].0@
        == "inputSchema"@ && is_schema(ms@[2].1, tool_arguments()[i])
}

/// `j` is the result of `tools/list`: every tool, in order.
pub open spec fn is_tool_catalogue(j: Json) -> bool {
    j matches Json::Object(ms) && ms@.len() == 1 && ms@[0].0@ == "tools"@ && (ms@[0].1 matches Json::Array(
        ts,
    ) && ts@.len() == tool_names().len() && forall|i: int|
        0 <= i < ts@.len() ==> describes_tool(#[trigger] ts@[i], i))
}

fn typed(kind: &str) -> (j: Json)
    ensures
        is_typed(j, kind@),
{
    let mut pm: Vec<(String, Json)> = Vec::new();
    pm.push(str_member("type", kind));
    Json::Object(pm)
}

fn schema(props: Vec<(String, Json)>, required: Vec<Json>, Ghost(args): Ghost<
    Seq<(Seq<char>, Seq<char>)>,
>) -> (j: Json)
    requires
        props@.len() == args.len(),
        required@.len() == args.len(),
        forall|k: int|
            0 <= k < args.len() ==> (#[trigger] props@[k]).0@ == args[k].0 && is_property(
                props@[k].1,
                args[k].1,
            ),
        forall|k: int| 0 <= k < args.len() ==> is_json_str(#[trigger] required@[k], args[k].0),
    ensures
        is_schema(j, args),
{
    let mut ms: Vec<(String, Json)> = Vec::new();
    ms.push(str_member("type", "object"));
    ms.push((owned("properties"), Json::Object(props)));
    ms.push((owned("required"), Json::Array(required)));
    Json::Object(ms)
}

fn one_arg_schema(name: &str, kind: &str, Ghost(args): Ghost<Seq<(Seq<char>, Seq<char>)>>) -> (j:
    Json)
    requires
        args == seq![(name@, kind@)],
        kind@ != "array"@,
    ensures
        is_schema(j, args),
{
    let mut props: Vec<(String, Json)> = Vec::new();
    props.push((owned(name), typed(kind)));
    let mut required: Vec<Json> = Vec::new();
    required.push(json_str(name));
    schema(props, required, Ghost(args))
}

fn no_arg_schema() -> (j: Json)
    ensures
        is_schema(j, seq![]),
{
    schema(Vec::new(), Vec::new(), Ghost(Seq::<(Seq<char>, Seq<char>)>::empty()))
}

fn tool_entry(name: &str, description: &str, input_schema: Json, Ghost(i): Ghost<int>) -> (j: Json)
    requires
        0 <= i < 10,
        name@ == tool_names()[i],
        description@ == tool_descriptions()[i],
        is_schema(input_schema, tool_arguments()[i]),
    ensures
        describes_tool(j, i),
{
    let mut ms: Vec<(String, Json)> = Vec::new();
    ms.push(str_member("name", name));
    ms.push(str_member("description", description));
    ms.push((owned("inputSchema"), input_schema));
    Json::Object(ms)
}

fn actions_property() -> (j: Json)
    ensures
        is_actions_property(j),
{
    let mut action: Vec<(String, Json)> = Vec::new();
    action.push(str_member("type", "string"));
    action.push(
        str_member("description", "One of: mouse_move, mouse_click, keyboard_type, keyboard_press"),
    );
    let mut props: Vec<(String, Json)> = Vec::new();
    props.push((owned("action"), Json::Object(action)));
    props.push((owned("x"), typed("integer")));
    props.push((owned("y"), typed("integer")));
    props.push((owned("button"), typed("string")));
    props.push((owned("text"), typed("string")));
    props.push((owned("key"), typed("string")));
    let mut required: Vec<Json> = Vec::new();
    required.push(json_str("action"));
    let mut item: Vec<(String, Json)> = Vec::new();
    item.push(str_member("type", "object"));
    item.push((owned("properties"), Json::Object(props)));
    item.push((owned("required"), Json::Array(required)));
    let mut pm: Vec<(String, Json)> = Vec::new();
    pm.push(str_member("type", "array"));
    pm.push((owned("items"), Json::Object(item)));
    Json::Object(pm)
}

/// The result of `tools/list`: every tool with its description and the
/// schema of its arguments.
pub fn tool_catalogue() -> (j: Json)
    ensures
        is_tool_catalogue(j),
{
    proof {
        reveal_strlit("string");
        reveal_strlit("integer");
        reveal_strlit("array");
        assert("string"@.len() != "array"@.len());
        assert("integer"@.len() != "array"@.len());
    }
    let mut ts: Vec<Json> = Vec::new();
    ts.push(
        tool_entry(
            "execute_command",
            "Execute a shell command (PowerShell).",
            one_arg_schema("command", "string", Ghost(tool_arguments()[0])),
            Ghost(0),
        ),
    );
    let mut xy: Vec<(String, Json)> = Vec::new();
    xy.push((owned("x"), typed("integer")));
    xy.push((owned("y"), typed("integer")));
    let mut xy_required: Vec<Json> = Vec::new();
    xy_required.push(json_str("x"));
    xy_required.push(json_str("y"));
    ts.push(
        tool_entry(
            "mouse_move",
            "Move the mouse to absolute coordinates.",
            schema(xy, xy_required, Ghost(tool_arguments()[1])),
            Ghost(1),
        ),
    );
    ts.push(
        tool_entry(
            "mouse_click",
            "Click a mouse button (left, right, middle).",
            one_arg_schema("button", "string", Ghost(tool_arguments()[2])),
            Ghost(2),
        ),
    );
    ts.push(
        tool_entry(
            "keyboard_type",
            "Type a string of text.",
            one_arg_schema("text", "string", Ghost(tool_arguments()[3])),
            Ghost(3),
        ),
    );
    ts.push(
        tool_entry(
            "keyboard_press",
            "Press a specific key (e.g., return, space, escape, backspace, tab, media_play_pause, media_next_track).",
            one_arg_schema("key", "string", Ghost(tool_arguments()[4])),
            Ghost(4),
        ),
    );
    ts.push(tool_entry("get_system_metrics", "Get CPU and RAM metrics.", no_arg_schema(), Ghost(5)));
    ts.push(
        tool_entry(
            "get_ui_tree",
            "Get the structural tree of UI elements on the screen.",
            no_arg_schema(),
            Ghost(6),
        ),
    );
    ts.push(
        tool_entry(
            "find_image_on_screen",
            "Finds a template image on the screen and returns its center coordinates.",
            one_arg_schema("template_path", "string", Ghost(tool_arguments()[7])),
            Ghost(7),
        ),
    );
    ts.push(
        tool_entry(
            "take_screenshot",
            "Captures the entire screen, saves it to a session-specific folder, and returns the image data directly.",
            no_arg_schema(),
            Ghost(8),
        ),
    );
    let mut actions: Vec<(String, Json)> = Vec::new();
    actions.push((owned("actions"), actions_property()));
    let mut actions_required: Vec<Json> = Vec::new();
    actions_required.push(json_str("actions"));
    ts.push(
        tool_entry(
            "perform_actions",
            "Perform multiple computer navigation actions sequentially in one call. Actions can be mouse_move (x, y), mouse_click (button), keyboard_type (text), keyboard_press (key).",
            schema(actions, actions_required, Ghost(tool_arguments()[9])),
            Ghost(9),
        ),
    );
    let mut ms: Vec<(String, Json)> = Vec::new();
    ms.push((owned("tools"), Json::Array(ts)));
    Json::Object(ms)
}

/// The tool named in the parameters of `tools/call`: the string member
/// `name`, or the empty name.
pub open spec fn call_name(params: Option<Json>) -> Seq<char> {
    match params {
        Some(p) => text_or(p.str_field("name"@), ""@),
        None => ""@,
    }
}

/// The arguments in the parameters of `tools/call`: the member
/// `arguments`, or `null`.
pub open spec fn call_arguments(params: Option<Json>) -> Json {
    match params {
        Some(p) => match p.field("arguments"@) {
            Some(a) => a,
            None => Json::Null,
        },
        None => Json::Null,
    }
}

/// `resp` answers the request with id `id` with the result `result`.
pub open spec fn answers(resp: JsonRpcResponse, id: Json, result: Json) -> bool {
    &&& resp.jsonrpc@ == "2.0"@
    &&& resp.id == id
    &&& resp.result == Some(result)
    &&& resp.error is None
}

fn answer(id: Json, result: Json) -> (resp: JsonRpcResponse)
    ensures
        answers(resp, id, result),
{
    JsonRpcResponse { jsonrpc: owned("2.0"), id, result: Some(result), error: None }
}

/// Decides what to do with a request.
///
/// `notifications/initialized` is never answered, and no request without an
/// `id` is. `tools/call` runs the named tool, whether or not the request
/// has an `id`. `initialize` is answered with the server's description,
/// `tools/list` with the catalogue of tools, and every other method with an
/// empty object.
pub fn dispatch(req: JsonRpcRequest) -> (d: Dispatch)
    ensures
        req.method@ == "notifications/initialized"@ ==> d is NoReply,
        req.method@ == "tools/call"@ ==> (d matches Dispatch::CallTool { id, request } && id
            == req.id && tool_decodes_to(call_name(req.params), call_arguments(req.params), request)),
        req.method@ != "notifications/initialized"@ && req.method@ != "tools/call"@ ==> match req.id {
            None => d is NoReply,
            Some(id) => (d matches Dispatch::Reply(resp) && resp.id == id && resp.jsonrpc@ == "2.0"@
                && resp.error is None && match resp.result {
                Some(result) => if req.method@ == "initialize"@ {
                    is_initialize_result(result)
                } else if req.method@ == "tools/list"@ {
                    is_tool_catalogue(result)
                } else {
                    is_empty_object(result)
                },
                None => false,
            }),
        },
{
    let JsonRpcRequest { jsonrpc: _, id, method, params } = req;
    if same_text(method.as_str(), "notifications/initialized") {
        proof {
            reveal_strlit("notifications/initialized");
            reveal_strlit("tools/call");
            assert("notifications/initialized"@.len() != "tools/call"@.len());
        }
        return Dispatch::NoReply;
    }
    if same_text(method.as_str(), "tools/call") {
        let null = Json::Null;
        let name: &str = match &params {
            Some(p) => match p.get_str("name") {
                Some(n) => n,
                None => "",
            },
            None => "",
        };
        let args: &Json = match &params {
            Some(p) => match p.get("arguments") {
                Some(a) => a,
                None => &null,
            },
            None => &null,
        };
        let request = decode_tool_call(name, args);
        return Dispatch::CallTool { id, request };
    }
    match id {
        None => Dispatch::NoReply,
        Some(id) => {
            let result = if same_text(method.as_str(), "initialize") {
                initialize_result()
            } else if same_text(method.as_str(), "tools/list") {
                tool_catalogue()
            } else {
                Json::Object(Vec::new())
            };
            Dispatch::Reply(answer(id, result))
        },
    }
}

/// The result that reports a tool call that failed with the message `e`.
pub open spec fn is_failure_result_json(j: Json, e: Seq<char>) -> bool {
    j matches Json::Object(ms) && ms@.len() == 2 && ms@[0].0@ == "content"@ && ms@[1].0@
        == "isError"@ && ms@[1].1 == Json::Bool(true) && (ms@[0].1 matches Json::Array(items)
        && items@.len() == 1 && (items@[0] matches Json::Object(item) && item@.len() == 2
        && is_str_member(item@[0], "type"@, "text"@) && is_str_member(
        item@[1],
        "text"@,
        "Error: "@ + e,
    )))
}

/// The response to a `tools/call` request once the tool has run: none for
/// a request without an `id`; otherwise the tool's result, or, when the
/// tool failed, a result marked as an error whose one text item is
/// `Error: ` and the message.
pub fn finish_tool_call(id: Option<Json>, outcome: Result<CallToolResult, String>) -> (r: Option<
    JsonRpcResponse,
>)
    ensures
        id is None <==> r is None,
        r matches Some(resp) ==> resp.jsonrpc@ == "2.0"@ && Some(resp.id) == id && resp.error is None
            && match resp.result {
            Some(j) => match outcome {
                Ok(res) => is_result_json(j, res.content@, res.is_error),
                Err(e) => is_failure_result_json(j, e@),
            },
            None => false,
        },
{
    match id {
        None => None,
        Some(id) => {
            let result = match outcome {
                Ok(res) => res.to_json(),
                Err(e) => {
                    let mut text = owned("Error: ");
                    append_str(&mut text, e.as_str());
                    let mut content: Vec<ToolContent> = Vec::new();
                    content.push(ToolContent::Text { text });
                    let failure = CallToolResult { content, is_error: true };
                    failure.to_json()
                },
            };
            Some(answer(id, result))
        },
    }
}

} // verus!
