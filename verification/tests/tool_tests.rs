use computa_use::json::{Json, JsonNumber};
use computa_use::tools::{
    decode_action, decode_tool_call, parse_button, parse_key, Action, KeyName, MouseButton,
    ToolRequest,
};

fn obj(members: Vec<(&str, Json)>) -> Json {
    Json::Object(members.into_iter().map(|(k, v)| (k.to_string(), v)).collect())
}

fn s(t: &str) -> Json {
    Json::String(t.to_string())
}

fn num(v: i64) -> Json {
    if v >= 0 {
        Json::Number(JsonNumber::PosInt(v as u64))
    } else {
        Json::Number(JsonNumber::NegInt(v))
    }
}

#[test]
fn buttons_default_to_left() {
    assert_eq!(parse_button("right"), MouseButton::Right);
    assert_eq!(parse_button("middle"), MouseButton::Middle);
    assert_eq!(parse_button("left"), MouseButton::Left);
    assert_eq!(parse_button("Right"), MouseButton::Left);
    assert_eq!(parse_button(""), MouseButton::Left);
}

#[test]
fn keys_by_name() {
    assert_eq!(parse_key("return"), Some(KeyName::Return));
    assert_eq!(parse_key("space"), Some(KeyName::Space));
    assert_eq!(parse_key("escape"), Some(KeyName::Escape));
    assert_eq!(parse_key("backspace"), Some(KeyName::Backspace));
    assert_eq!(parse_key("tab"), Some(KeyName::Tab));
    assert_eq!(parse_key("media_play_pause"), Some(KeyName::MediaPlayPause));
    assert_eq!(parse_key("media_next_track"), Some(KeyName::MediaNextTrack));
    assert_eq!(parse_key("enter"), None);
}

#[test]
fn execute_command_defaults_to_empty() {
    let r = decode_tool_call("execute_command", &obj(vec![("command", s("dir"))]));
    assert_eq!(r, ToolRequest::ExecuteCommand { command: "dir".to_string() });
    let r = decode_tool_call("execute_command", &Json::Null);
    assert_eq!(r, ToolRequest::ExecuteCommand { command: String::new() });
}

#[test]
fn mouse_move_truncates_to_32_bits_and_defaults_to_zero() {
    let r = decode_tool_call("mouse_move", &obj(vec![("x", num(100)), ("y", num(-20))]));
    assert_eq!(r, ToolRequest::MouseMove { x: 100, y: -20 });
    let r = decode_tool_call("mouse_move", &obj(vec![("x", num(4294967297)), ("y", s("5"))]));
    assert_eq!(r, ToolRequest::MouseMove { x: 1, y: 0 });
    let r = decode_tool_call("mouse_move", &obj(vec![("x", Json::Number(JsonNumber::Float("2.5".to_string())))]));
    assert_eq!(r, ToolRequest::MouseMove { x: 0, y: 0 });
}

#[test]
fn mouse_click_keeps_the_name_it_was_given() {
    let r = decode_tool_call("mouse_click", &obj(vec![("button", s("middle"))]));
    assert_eq!(r, ToolRequest::MouseClick { button: MouseButton::Middle, label: "middle".to_string() });
    let r = decode_tool_call("mouse_click", &obj(vec![]));
    assert_eq!(r, ToolRequest::MouseClick { button: MouseButton::Left, label: "left".to_string() });
    let r = decode_tool_call("mouse_click", &obj(vec![("button", s("huge"))]));
    assert_eq!(r, ToolRequest::MouseClick { button: MouseButton::Left, label: "huge".to_string() });
}

#[test]
fn keyboard_press_rejects_unknown_keys() {
    let r = decode_tool_call("keyboard_press", &obj(vec![("key", s("tab"))]));
    assert_eq!(r, ToolRequest::KeyboardPress { key: KeyName::Tab, label: "tab".to_string() });
    let r = decode_tool_call("keyboard_press", &obj(vec![("key", s("f13"))]));
    assert_eq!(r, ToolRequest::UnsupportedKey { label: "f13".to_string() });
}

#[test]
fn argumentless_tools_and_unknown_names() {
    assert_eq!(decode_tool_call("get_system_metrics", &Json::Null), ToolRequest::SystemMetrics);
    assert_eq!(decode_tool_call("get_ui_tree", &Json::Null), ToolRequest::UiTree);
    assert_eq!(decode_tool_call("take_screenshot", &Json::Null), ToolRequest::Screenshot);
    assert_eq!(
        decode_tool_call("find_image_on_screen", &obj(vec![("template_path", s("a.png"))])),
        ToolRequest::FindImage { template_path: "a.png".to_string() }
    );
    assert_eq!(
        decode_tool_call("fly", &Json::Null),
        ToolRequest::UnknownTool { name: "fly".to_string() }
    );
    assert_eq!(
        decode_tool_call("", &Json::Null),
        ToolRequest::UnknownTool { name: String::new() }
    );
}

#[test]
fn perform_actions_decodes_each_step() {
    let actions = Json::Array(vec![
        obj(vec![("action", s("mouse_move")), ("x", num(3)), ("y", num(4))]),
        obj(vec![("action", s("mouse_click"))]),
        obj(vec![("action", s("keyboard_type")), ("text", s("hi"))]),
        obj(vec![("action", s("keyboard_press")), ("key", s("nope"))]),
        obj(vec![("action", s("jump"))]),
        Json::Null,
    ]);
    let r = decode_tool_call("perform_actions", &obj(vec![("actions", actions)]));
    assert_eq!(
        r,
        ToolRequest::PerformActions {
            actions: vec![
                Action::MouseMove { x: 3, y: 4 },
                Action::MouseClick { button: MouseButton::Left, label: "left".to_string() },
                Action::KeyboardType { text: "hi".to_string() },
                Action::KeyboardPress { key: KeyName::Return, label: "nope".to_string() },
                Action::Unknown { action: "jump".to_string() },
                Action::Unknown { action: String::new() },
            ],
        }
    );
}

#[test]
fn perform_actions_needs_an_array() {
    assert_eq!(decode_tool_call("perform_actions", &Json::Null), ToolRequest::MissingActions);
    assert_eq!(
        decode_tool_call("perform_actions", &obj(vec![("actions", s("x"))])),
        ToolRequest::MissingActions
    );
    assert_eq!(
        decode_tool_call("perform_actions", &obj(vec![("actions", Json::Array(vec![]))])),
        ToolRequest::PerformActions { actions: vec![] }
    );
}

#[test]
fn decode_action_reads_the_kind() {
    let a = decode_action(&obj(vec![("action", s("keyboard_press")), ("key", s("space"))]));
    assert_eq!(a, Action::KeyboardPress { key: KeyName::Space, label: "space".to_string() });
}
