use computa_use::json::{Json, JsonNumber};
use computa_use::protocol::{
    dispatch, finish_tool_call, initialize_result, tool_catalogue, Dispatch, JsonRpcRequest,
};
use computa_use::results::{text_result, CallToolResult, ToolContent};
use computa_use::tools::ToolRequest;

fn obj(members: Vec<(&str, Json)>) -> Json {
    Json::Object(members.into_iter().map(|(k, v)| (k.to_string(), v)).collect())
}

fn s(t: &str) -> Json {
    Json::String(t.to_string())
}

fn req(id: Option<Json>, method: &str, params: Option<Json>) -> JsonRpcRequest {
    JsonRpcRequest { jsonrpc: "2.0".to_string(), id, method: method.to_string(), params }
}

fn id(n: u64) -> Json {
    Json::Number(JsonNumber::PosInt(n))
}

fn reply(d: Dispatch) -> (Json, Json) {
    match d {
        Dispatch::Reply(r) => {
            assert_eq!(r.jsonrpc, "2.0");
            assert_eq!(r.error, None);
            (r.id, r.result.unwrap())
        },
        other => panic!("expected a reply, got {:?}", other),
    }
}

#[test]
fn initialize_is_answered_with_server_info() {
    let (rid, result) = reply(dispatch(req(Some(id(1)), "initialize", None)));
    assert_eq!(rid, id(1));
    assert_eq!(result.get_str("protocolVersion"), Some("2024-11-05"));
    let info = result.get("serverInfo").unwrap();
    assert_eq!(info.get_str("name"), Some("computa-use"));
    assert_eq!(info.get_str("version"), Some("0.1.0"));
    assert_eq!(result.get("capabilities").unwrap().get("tools"), Some(&Json::Object(vec![])));
    assert_eq!(result, initialize_result());
}

#[test]
fn tools_list_names_every_tool() {
    let (_, result) = reply(dispatch(req(Some(s("abc")), "tools/list", None)));
    let tools = result.get("tools").unwrap().as_array().unwrap();
    let names: Vec<&str> = tools.iter().map(|t| t.get_str("name").unwrap()).collect();
    assert_eq!(
        names,
        vec![
            "execute_command", "mouse_move", "mouse_click", "keyboard_type", "keyboard_press",
            "get_system_metrics", "get_ui_tree", "find_image_on_screen", "take_screenshot",
            "perform_actions"
        ]
    );
    let mm = &tools[1];
    assert_eq!(mm.get_str("description"), Some("Move the mouse to absolute coordinates."));
    let schema = mm.get("inputSchema").unwrap();
    assert_eq!(schema.get_str("type"), Some("object"));
    assert_eq!(schema.get("required"), Some(&Json::Array(vec![s("x"), s("y")])));
    assert_eq!(schema.get("properties").unwrap().get("x").unwrap().get_str("type"), Some("integer"));
    let pa = tools[9].get("inputSchema").unwrap().get("properties").unwrap().get("actions").unwrap();
    assert_eq!(pa.get_str("type"), Some("array"));
    assert_eq!(pa.get("items").unwrap().get("required"), Some(&Json::Array(vec![s("action")])));
    assert_eq!(result, tool_catalogue());
}

#[test]
fn unknown_methods_are_acknowledged() {
    let (rid, result) = reply(dispatch(req(Some(id(9)), "resources/list", None)));
    assert_eq!(rid, id(9));
    assert_eq!(result, Json::Object(vec![]));
}

#[test]
fn notifications_get_no_reply() {
    assert_eq!(dispatch(req(None, "initialize", None)), Dispatch::NoReply);
    assert_eq!(dispatch(req(None, "foo", None)), Dispatch::NoReply);
    assert_eq!(dispatch(req(Some(id(3)), "notifications/initialized", None)), Dispatch::NoReply);
    assert_eq!(dispatch(req(None, "notifications/initialized", None)), Dispatch::NoReply);
}

#[test]
fn tools_call_decodes_name_and_arguments() {
    let params = obj(vec![("name", s("mouse_move")), ("arguments", obj(vec![("x", Json::Number(JsonNumber::PosInt(10)))]))]);
    let d = dispatch(req(Some(id(4)), "tools/call", Some(params)));
    assert_eq!(d, Dispatch::CallTool { id: Some(id(4)), request: ToolRequest::MouseMove { x: 10, y: 0 } });
    let d = dispatch(req(None, "tools/call", None));
    assert_eq!(d, Dispatch::CallTool { id: None, request: ToolRequest::UnknownTool { name: String::new() } });
    let d = dispatch(req(Some(id(5)), "tools/call", Some(obj(vec![("name", Json::Bool(true))]))));
    assert_eq!(d, Dispatch::CallTool { id: Some(id(5)), request: ToolRequest::UnknownTool { name: String::new() } });
}

#[test]
fn tool_results_are_reported_under_the_request_id() {
    let ok: CallToolResult = text_result("done".to_string(), false);
    let r = finish_tool_call(Some(id(7)), Ok(ok)).unwrap();
    assert_eq!(r.id, id(7));
    assert_eq!(r.jsonrpc, "2.0");
    assert_eq!(
        r.result,
        Some(obj(vec![
            ("content", Json::Array(vec![obj(vec![("type", s("text")), ("text", s("done"))])])),
            ("isError", Json::Bool(false)),
        ]))
    );
    let r = finish_tool_call(Some(id(8)), Err("Mouse error: gone".to_string())).unwrap();
    assert_eq!(
        r.result,
        Some(obj(vec![
            ("content", Json::Array(vec![obj(vec![("type", s("text")), ("text", s("Error: Mouse error: gone"))])])),
            ("isError", Json::Bool(true)),
        ]))
    );
    assert_eq!(finish_tool_call(None, Err("x".to_string())), None);
}

#[test]
fn image_content_json() {
    let res = CallToolResult {
        content: vec![
            ToolContent::Text { text: "t".to_string() },
            ToolContent::Image { data: "Zm9v".to_string(), mime_type: "image/png".to_string() },
        ],
        is_error: false,
    };
    let j = res.to_json();
    let items = j.get("content").unwrap().as_array().unwrap();
    assert_eq!(items[1], obj(vec![("type", s("image")), ("data", s("Zm9v")), ("mimeType", s("image/png"))]));
}
