use vstd::prelude::*;
use crate::json::Json;
use crate::text::{owned, same_text};

verus! {

/// A mouse button.
#[derive(PartialEq, Eq, Structural, Clone, Copy, Debug)]
pub enum MouseButton {
    Left,
    Right,
    Middle,
}

/// A key that the keyboard tools can press.
#[derive(PartialEq, Eq, Structural, Clone, Copy, Debug)]
pub enum KeyName {
    Return,
    Space,
    Escape,
    Backspace,
    Tab,
    MediaPlayPause,
    MediaNextTrack,
}

/// One step of a `perform_actions` call.
#[derive(Clone, Debug, PartialEq, Eq)]
pub enum Action {
    MouseMove { x: i32, y: i32 },
    MouseClick { button: MouseButton, label: String },
    KeyboardType { text: String },
    KeyboardPress { key: KeyName, label: String },
    Unknown { action: String },
}

/// A decoded tool call: which tool, with the arguments it will use.
#[derive(Clone, Debug, PartialEq, Eq)]
pub enum ToolRequest {
    ExecuteCommand { command: String },
    MouseMove { x: i32, y: i32 },
    MouseClick { button: MouseButton, label: String },
    KeyboardType { text: String },
    KeyboardPress { key: KeyName, label: String },
    /// `keyboard_press` with a key name that has no key.
    UnsupportedKey { label: String },
    SystemMetrics,
    UiTree,
    FindImage { template_path: String },
    Screenshot,
    PerformActions { actions: Vec<Action> },
    /// `perform_actions` without an `actions` array.
    MissingActions,
    UnknownTool { name: String },
}

/// The button that a button name selects: `right`, `middle`, and the left
/// button for any other name.
pub open spec fn button_named(s: Seq<char>) -> MouseButton {
    if s == "right"@ {
        MouseButton::Right
    } else if s == "middle"@ {
        MouseButton::Middle
    } else {
        MouseButton::Left
    }
}

/// The key that a key name selects, if any.
pub open spec fn key_named(s: Seq<char>) -> Option<KeyName> {
    if s == "return"@ {
        Some(KeyName::Return)
    } else if s == "space"@ {
        Some(KeyName::Space)
    } else if s == "escape"@ {
        Some(KeyName::Escape)
    } else if s == "backspace"@ {
        Some(KeyName::Backspace)
    } else if s == "tab"@ {
        Some(KeyName::Tab)
    } else if s == "media_play_pause"@ {
        Some(KeyName::MediaPlayPause)
    } else if s == "media_next_track"@ {
        Some(KeyName::MediaNextTrack)
    } else {
        None
    }
}

/// An optional text, or `default` when it is absent.
pub open spec fn text_or(t: Option<Seq<char>>, default: Seq<char>) -> Seq<char> {
    match t {
        Some(s) => s,
        None => default,
    }
}

/// A coordinate argument: the integer member `key` (0 when absent or not an
/// `i64`), cut to its low 32 bits.
pub open spec fn coordinate_arg(args: Json, key: Seq<char>) -> i32 {
    match args.i64_field(key) {
        Some(v) => v as i32,
        None => 0i64 as i32,
    }
}

/// The names of the tools that the server offers.
pub open spec fn tool_names() -> Seq<Seq<char>> {
    seq![
        "execute_command"@,
        "mouse_move"@,
        "mouse_click"@,
        "keyboard_type"@,
        "keyboard_press"@,
        "get_system_metrics"@,
        "get_ui_tree"@,
        "find_image_on_screen"@,
        "take_screenshot"@,
        "perform_actions"@,
    ]
}

/// Whether `a` is what the action object `j` asks for.
pub open spec fn action_decodes_to(j: Json, a: Action) -> bool {
    let kind = text_or(j.str_field("action"@), ""@);
    match a {
        Action::MouseMove { x, y } => kind == "mouse_move"@ && x == coordinate_arg(j, "x"@) && y
            == coordinate_arg(j, "y"@),
        Action::MouseClick { button, label } => kind == "mouse_click"@ && label@ == text_or(
            j.str_field("button"@),
            "left"@,
        ) && button == button_named(label@),
        Action::KeyboardType { text } => kind == "keyboard_type"@ && text@ == text_or(
            j.str_field("text"@),
            ""@,
        ),
        Action::KeyboardPress { key, label } => kind == "keyboard_press"@ && label@ == text_or(
            j.str_field("key"@),
            ""@,
        ) && key == match key_named(label@) {
            Some(k) => k,
            None => KeyName::Return,
        },
        Action::Unknown { action } => action@ == kind && kind != "mouse_move"@ && kind
            != "mouse_click"@ && kind != "keyboard_type"@ && kind != "keyboard_press"@,
    }
}

/// Whether `r` is what a call of the tool `name` with the arguments `args`
/// asks for.
pub open spec fn tool_decodes_to(name: Seq<char>, args: Json, r: ToolRequest) -> bool {
    match r {
        ToolRequest::ExecuteCommand { command } => name == "execute_command"@ && command@
            == text_or(args.str_field("command"@), ""@),
        ToolRequest::MouseMove { x, y } => name == "mouse_move"@ && x == coordinate_arg(
            args,
            "x"@,
        ) && y == coordinate_arg(args, "y"@),
        ToolRequest::MouseClick { button, label } => name == "mouse_click"@ && label@ == text_or(
            args.str_field("button"@),
            "left"@,
        ) && button == button_named(label@),
        ToolRequest::KeyboardType { text } => name == "keyboard_type"@ && text@ == text_or(
            args.str_field("text"@),
            ""@,
        ),
        ToolRequest::KeyboardPress { key, label } => name == "keyboard_press"@ && label@
            == text_or(args.str_field("key"@), ""@) && key_named(label@) == Some(key),
        ToolRequest::UnsupportedKey { label } => name == "keyboard_press"@ && label@ == text_or(
            args.str_field("key"@),
            ""@,
        ) && key_named(label@) is None,
        ToolRequest::SystemMetrics => name == "get_system_metrics"@,
        ToolRequest::UiTree => name == "get_ui_tree"@,
        ToolRequest::FindImage { template_path } => name == "find_image_on_screen"@
            && template_path@ == text_or(args.str_field("template_path"@), ""@),
        ToolRequest::Screenshot => name == "take_screenshot"@,
        ToolRequest::PerformActions { actions } => name == "perform_actions"@ && match args.field(
            "actions"@,
        ) {
            Some(Json::Array(items)) => actions@.len() == items@.len() && forall|i: int|
                0 <= i < items@.len() ==> action_decodes_to(
                    #[trigger] items@[i],
                    actions@[i],
                ),
            _ => false,
        },
        ToolRequest::MissingActions => name == "perform_actions"@ && !(args.field(
            "actions"@,
        ) matches Some(Json::Array(_))),
        ToolRequest::UnknownTool { name: n } => n@ == name && !tool_names().contains(name),
    }
}

/// The button that a button name selects.
pub fn parse_button(s: &str) -> (b: MouseButton)
    ensures
        b == button_named(s@),
{
    if same_text(s, "right") {
        MouseButton::Right
    } else if same_text(s, "middle") {
        MouseButton::Middle
    } else {
        MouseButton::Left
    }
}

/// The key that a key name selects, if any.
pub fn parse_key(s: &str) -> (k: Option<KeyName>)
    ensures
        k == key_named(s@),
{
    if same_text(s, "return") {
        Some(KeyName::Return)
    } else if same_text(s, "space") {
        Some(KeyName::Space)
    } else if same_text(s, "escape") {
        Some(KeyName::Escape)
    } else if same_text(s, "backspace") {
        Some(KeyName::Backspace)
    } else if same_text(s, "tab") {
        Some(KeyName::Tab)
    } else if same_text(s, "media_play_pause") {
        Some(KeyName::MediaPlayPause)
    } else if same_text(s, "media_next_track") {
        Some(KeyName::MediaNextTrack)
    } else {
        None
    }
}

fn text_arg(args: &Json, key: &str, default: &str) -> (s: String)
    ensures
        s@ == text_or(args.str_field(key@), default@),
{
    match args.get_str(key) {
        Some(t) => owned(t),
        None => owned(default),
    }
}

fn coordinate(args: &Json, key: &str) -> (v: i32)
    ensures
        v == coordinate_arg(*args, key@),
{
    let wide: i64 = match args.get_i64(key) {
        Some(v) => v,
        None => 0,
    };
    wide as i32
}

/// Decodes one step of a `perform_actions` call.
pub fn decode_action(j: &Json) -> (a: Action)
    ensures
        action_decodes_to(*j, a),
{
    let kind = text_arg(j, "action", "");
    if same_text(kind.as_str(), "mouse_move") {
        Action::MouseMove { x: coordinate(j, "x"), y: coordinate(j, "y") }
    } else if same_text(kind.as_str(), "mouse_click") {
        let label = text_arg(j, "button", "left");
        let button = parse_button(label.as_str());
        Action::MouseClick { button, label }
    } else if same_text(kind.as_str(), "keyboard_type") {
        Action::KeyboardType { text: text_arg(j, "text", "") }
    } else if same_text(kind.as_str(), "keyboard_press") {
        let label = text_arg(j, "key", "");
        let key = match parse_key(label.as_str()) {
            Some(k) => k,
            None => KeyName::Return,
        };
        Action::KeyboardPress { key, label }
    } else {
        Action::Unknown { action: kind }
    }
}

/// Decodes a call of the tool `name` with the arguments `args`.
pub fn decode_tool_call(name: &str, args: &Json) -> (r: ToolRequest)
    ensures
        tool_decodes_to(name@, *args, r),
{
    if same_text(name, "execute_command") {
        ToolRequest::ExecuteCommand { command: text_arg(args, "command", "") }
    } else if same_text(name, "mouse_move") {
        ToolRequest::MouseMove { x: coordinate(args, "x"), y: coordinate(args, "y") }
    } else if same_text(name, "mouse_click") {
        let label = text_arg(args, "button", "left");
        let button = parse_button(label.as_str());
        ToolRequest::MouseClick { button, label }
    } else if same_text(name, "keyboard_type") {
        ToolRequest::KeyboardType { text: text_arg(args, "text", "") }
    } else if same_text(name, "keyboard_press") {
        let label = text_arg(args, "key", "");
        match parse_key(label.as_str()) {
            Some(key) => ToolRequest::KeyboardPress { key, label },
            None => ToolRequest::UnsupportedKey { label },
        }
    } else if same_text(name, "get_system_metrics") {
        ToolRequest::SystemMetrics
    } else if same_text(name, "get_ui_tree") {
        ToolRequest::UiTree
    } else if same_text(name, "find_image_on_screen") {
        ToolRequest::FindImage { template_path: text_arg(args, "template_path", "") }
    } else if same_text(name, "take_screenshot") {
        ToolRequest::Screenshot
    } else if same_text(name, "perform_actions") {
        match args.get("actions") {
            Some(v) => match v.as_array() {
                Some(items) => {
                    let mut actions: Vec<Action> = Vec::new();
                    let mut i: usize = 0;
                    while i < items.len()
                        invariant
                            i <= items.len(),
                            actions@.len() == i,
                            forall|k: int|
                                0 <= k < i ==> action_decodes_to(
                                    #[trigger] items@[k],
                                    actions@[k],
                                ),
                        decreases items.len() - i,
                    {
                        let a = decode_action(&items[i]);
                        actions.push(a);
                        i = i + 1;
                    }
                    ToolRequest::PerformActions { actions }
                },
                None => ToolRequest::MissingActions,
            },
            None => ToolRequest::MissingActions,
        }
    } else {
        proof {
            assert(!tool_names().contains(name@)) by {
                if tool_names().contains(name@) {
                    let k = choose|k: int| 0 <= k < tool_names().len() && tool_names()[k] == name@;
                    assert(0 <= k < 10);
                }
            }
        }
        ToolRequest::UnknownTool { name: owned(name) }
    }
}

proof fn lemma_tool_names_distinct()
    ensures
        forall|i: int, j: int|
            0 <= i < 10 && 0 <= j < 10 && i != j ==> #[trigger] tool_names()[i] != #[trigger] tool_names()[j],
{
    reveal_strlit("execute_command");
    reveal_strlit("mouse_move");
    reveal_strlit("mouse_click");
    reveal_strlit("keyboard_type");
    reveal_strlit("keyboard_press");
    reveal_strlit("get_system_metrics");
    reveal_strlit("get_ui_tree");
    reveal_strlit("find_image_on_screen");
    reveal_strlit("take_screenshot");
    reveal_strlit("perform_actions");
    assert forall|i: int, j: int|
        0 <= i < 10 && 0 <= j < 10 && i != j implies #[trigger] tool_names()[i]
            != #[trigger] tool_names()[j] by {
        let a = tool_names()[i];
        let b = tool_names()[j];
        if a.len() == b.len() {
            assert(a[0] != b[0] || a[1] != b[1] || a[2] != b[2] || a[3] != b[3]);
        }
    }
}

proof fn lemma_button_names_distinct()
    ensures
        "right"@ != "middle"@,
        "right"@ != "left"@,
        "middle"@ != "left"@,
{
    reveal_strlit("right");
    reveal_strlit("middle");
    reveal_strlit("left");
    assert("right"@.len() == 5 && "middle"@.len() == 6 && "left"@.len() == 4);
}

/// The value of an optional string member, or the empty string.
pub open spec fn member_or_empty(t: Option<Seq<char>>) -> Seq<char> {
    match t {
        Some(s) => s,
        None => Seq::<char>::empty(),
    }
}

/// `keyboard_type` types exactly the string in the `text` member of its
/// arguments, and nothing when there is none.
pub proof fn lemma_keyboard_type_reads_text(args: Json, r: ToolRequest)
    requires
        tool_decodes_to("keyboard_type"@, args, r),
    ensures
        r matches ToolRequest::KeyboardType { text } && text@ == member_or_empty(
            args.str_field("text"@),
        ),
{
    lemma_tool_names_distinct();
    assert(tool_names()[3] == "keyboard_type"@);
    assert(tool_names().contains("keyboard_type"@));
    assert(member_or_empty(None) =~= ""@) by {
        reveal_strlit("");
    }
}

/// `execute_command` runs exactly the string in the `command` member, and
/// `find_image_on_screen` looks for the file named in `template_path`.
pub proof fn lemma_string_arguments(args: Json, r: ToolRequest)
    ensures
        tool_decodes_to("execute_command"@, args, r) ==> (r matches ToolRequest::ExecuteCommand {
            command,
        } && command@ == member_or_empty(args.str_field("command"@))),
        tool_decodes_to("find_image_on_screen"@, args, r) ==> (r matches ToolRequest::FindImage {
            template_path,
        } && template_path@ == member_or_empty(args.str_field("template_path"@))),
{
    lemma_tool_names_distinct();
    assert(tool_names()[0] == "execute_command"@);
    assert(tool_names()[7] == "find_image_on_screen"@);
    assert(tool_names().contains("execute_command"@));
    assert(tool_names().contains("find_image_on_screen"@));
    assert(member_or_empty(None) =~= ""@) by {
        reveal_strlit("");
    }
}

/// `mouse_click` clicks the button that its `button` member names:
/// `right` and `middle` select those buttons, any other name the left
/// one; without the member it clicks the left button and reports `left`.
pub proof fn lemma_mouse_click_reads_button(args: Json, r: ToolRequest)
    requires
        tool_decodes_to("mouse_click"@, args, r),
    ensures
        r matches ToolRequest::MouseClick { button, label } && {
            &&& label@ == match args.str_field("button"@) {
                Some(b) => b,
                None => "left"@,
            }
            &&& (button == MouseButton::Right <==> label@ == "right"@)
            &&& (button == MouseButton::Middle <==> label@ == "middle"@)
        },
{
    lemma_tool_names_distinct();
    lemma_button_names_distinct();
    assert(tool_names()[2] == "mouse_click"@);
    assert(tool_names().contains("mouse_click"@));
}

/// A `mouse_click` step clicks the button that its own `button` member
/// names, as the `mouse_click` tool does.
pub proof fn lemma_click_step_reads_button(j: Json, a: Action)
    requires
        action_decodes_to(j, a),
        j.str_field("action"@) == Some("mouse_click"@),
    ensures
        a matches Action::MouseClick { button, label } && {
            &&& label@ == match j.str_field("button"@) {
                Some(b) => b,
                None => "left"@,
            }
            &&& (button == MouseButton::Right <==> label@ == "right"@)
            &&& (button == MouseButton::Middle <==> label@ == "middle"@)
        },
{
    lemma_step_kinds_distinct();
    lemma_button_names_distinct();
}

/// A `keyboard_type` step types exactly its own `text` member.
pub proof fn lemma_type_step_reads_text(j: Json, a: Action)
    requires
        action_decodes_to(j, a),
        j.str_field("action"@) == Some("keyboard_type"@),
    ensures
        a matches Action::KeyboardType { text } && text@ == member_or_empty(j.str_field("text"@)),
{
    lemma_step_kinds_distinct();
    assert(member_or_empty(None) =~= ""@) by {
        reveal_strlit("");
    }
}

proof fn lemma_step_kinds_distinct()
    ensures
        "mouse_move"@ != "mouse_click"@,
        "mouse_move"@ != "keyboard_type"@,
        "mouse_move"@ != "keyboard_press"@,
        "mouse_click"@ != "keyboard_type"@,
        "mouse_click"@ != "keyboard_press"@,
        "keyboard_type"@ != "keyboard_press"@,
{
    reveal_strlit("mouse_move");
    reveal_strlit("mouse_click");
    reveal_strlit("keyboard_type");
    reveal_strlit("keyboard_press");
    assert("mouse_move"@.len() == 10 && "mouse_click"@.len() == 11);
    assert("keyboard_type"@.len() == 13 && "keyboard_press"@.len() == 14);
}

/// The names of the keys, in the order of `key_list`.
pub open spec fn key_words() -> Seq<Seq<char>> {
    seq![
        "return"@,
        "space"@,
        "escape"@,
        "backspace"@,
        "tab"@,
        "media_play_pause"@,
        "media_next_track"@,
    ]
}

/// The keys, in the order of `key_words`.
pub open spec fn key_list() -> Seq<KeyName> {
    seq![
        KeyName::Return,
        KeyName::Space,
        KeyName::Escape,
        KeyName::Backspace,
        KeyName::Tab,
        KeyName::MediaPlayPause,
        KeyName::MediaNextTrack,
    ]
}

proof fn lemma_key_words_distinct()
    ensures
        forall|i: int, j: int|
            0 <= i < 7 && 0 <= j < 7 && i != j ==> #[trigger] key_words()[i] != #[trigger] key_words()[j],
{
    reveal_strlit("return");
    reveal_strlit("space");
    reveal_strlit("escape");
    reveal_strlit("backspace");
    reveal_strlit("tab");
    reveal_strlit("media_play_pause");
    reveal_strlit("media_next_track");
    assert forall|i: int, j: int|
        0 <= i < 7 && 0 <= j < 7 && i != j implies #[trigger] key_words()[i]
            != #[trigger] key_words()[j] by {
        let a = key_words()[i];
        let b = key_words()[j];
        if a.len() == b.len() {
            assert(a[0] != b[0] || a[6] != b[6]);
        }
    }
}

/// `keyboard_press` presses the key that its `key` member names: the key
/// at place `k` of `key_list` exactly when the name is word `k` of
/// `key_words`; any other name (or none) presses nothing and fails.
pub proof fn lemma_keyboard_press_reads_key(args: Json, r: ToolRequest)
    requires
        tool_decodes_to("keyboard_press"@, args, r),
    ensures
        match r {
            ToolRequest::KeyboardPress { key, label } => {
                &&& label@ == member_or_empty(args.str_field("key"@))
                &&& forall|k: int| 0 <= k < 7 ==> (key == #[trigger] key_list()[k] <==> label@ == key_words()[k])
            },
            ToolRequest::UnsupportedKey { label } => {
                &&& label@ == member_or_empty(args.str_field("key"@))
                &&& !key_words().contains(label@)
            },
            _ => false,
        },
{
    lemma_tool_names_distinct();
    lemma_key_words_distinct();
    assert(tool_names()[4] == "keyboard_press"@);
    assert(tool_names().contains("keyboard_press"@));
    assert(member_or_empty(None) =~= ""@) by {
        reveal_strlit("");
    }
    if r is UnsupportedKey {
        let label = r->UnsupportedKey_label;
        if key_words().contains(label@) {
            let k = choose|k: int| 0 <= k < 7 && key_words()[k] == label@;
            assert(key_words()[k] == label@);
        }
    }
}

/// `mouse_move` moves to the integers in its `x` and `y` members, cut to
/// 32 bits, and to 0 for a member that is absent or not an integer.
pub proof fn lemma_mouse_move_reads_coordinates(args: Json, r: ToolRequest)
    requires
        tool_decodes_to("mouse_move"@, args, r),
    ensures
        r matches ToolRequest::MouseMove { x, y } && {
            &&& x == match args.i64_field("x"@) {
                Some(v) => v as i32,
                None => 0i32,
            }
            &&& y == match args.i64_field("y"@) {
                Some(v) => v as i32,
                None => 0i32,
            }
        },
{
    lemma_tool_names_distinct();
    assert(tool_names()[1] == "mouse_move"@);
    assert(tool_names().contains("mouse_move"@));
    assert(0i64 as i32 == 0i32) by (bit_vector);
}

/// A call of any tool of `tool_names` is decoded as that tool, never as an
/// unknown one; a call of any other name is decoded as an unknown tool.
pub proof fn lemma_listed_tools_are_known(name: Seq<char>, args: Json, r: ToolRequest)
    requires
        tool_decodes_to(name, args, r),
    ensures
        tool_names().contains(name) <==> !(r is UnknownTool),
{
    if !(r is UnknownTool) {
        let k: int = match r {
            ToolRequest::ExecuteCommand { .. } => 0,
            ToolRequest::MouseMove { .. } => 1,
            ToolRequest::MouseClick { .. } => 2,
            ToolRequest::KeyboardType { .. } => 3,
            ToolRequest::KeyboardPress { .. } => 4,
            ToolRequest::UnsupportedKey { .. } => 4,
            ToolRequest::SystemMetrics => 5,
            ToolRequest::UiTree => 6,
            ToolRequest::FindImage { .. } => 7,
            ToolRequest::Screenshot => 8,
            _ => 9,
        };
        assert(tool_names()[k] == name);
    }
}

} // verus!
