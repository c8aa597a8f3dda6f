use vstd::prelude::*;
use crate::base64::{base64_of, encode_base64};
use crate::codec::{encode_png, png_encoding};
use crate::template::{find_template, fits, is_first_match, lemma_center_on_screen, located, Image};
use crate::text::{
    append_decimal, append_signed_decimal, append_str, decimal, join, joined, lossy_utf8, owned,
    lemma_cancel_prefix, lemma_decimal_injective, lemma_decimal_then_text,
    signed_decimal, utf8_lossy, views,
};
use crate::tools::Action;
use crate::ui_tree::{render_tree, rendered, UiNode};

verus! {

/// One item of the content of a tool's result.
#[derive(Clone, Debug, PartialEq, Eq)]
pub enum ToolContent {
    Text { text: String },
    Image { data: String, mime_type: String },
}

/// The result of a tool call, as reported to the client.
#[derive(Clone, Debug, PartialEq, Eq)]
pub struct CallToolResult {
    pub content: Vec<ToolContent>,
    pub is_error: bool,
}

/// What a shell command left behind.
#[derive(Clone, Debug, PartialEq, Eq)]
pub struct CommandOutput {
    pub stdout: Vec<u8>,
    pub stderr: Vec<u8>,
    pub success: bool,
}

/// A screenshot that was saved: where, and the captured screen.
#[derive(Clone, Debug, PartialEq, Eq)]
pub struct SavedScreenshot {
    pub path: String,
    pub image: Image,
}

/// Memory figures and the core count of the machine.
#[derive(Clone, Debug, PartialEq, Eq)]
pub struct SystemMetrics {
    pub total_memory: u64,
    pub used_memory: u64,
    pub total_swap: u64,
    pub used_swap: u64,
    pub physical_cores: Option<usize>,
}

/// `c` is a text item with the text `t`.
pub open spec fn is_text(c: ToolContent, t: Seq<char>) -> bool {
    c matches ToolContent::Text { text } && text@ == t
}

/// `r` holds one text item with the text `t`, with the error flag `err`.
pub open spec fn is_text_result(r: CallToolResult, t: Seq<char>, err: bool) -> bool {
    &&& r.content@.len() == 1
    &&& is_text(r.content@[0], t)
    &&& r.is_error == err
}

/// The outcome of a tool call that failed with the message `e`.
pub open spec fn is_failure(r: Result<CallToolResult, String>, e: Seq<char>) -> bool {
    r matches Err(m) && m@ == e
}

/// A result made of one text item.
pub fn text_result(text: String, is_error: bool) -> (r: CallToolResult)
    ensures
        r.content@.len() == 1,
        r.content@[0] == (ToolContent::Text { text }),
        r.is_error == is_error,
{
    let mut content: Vec<ToolContent> = Vec::new();
    content.push(ToolContent::Text { text });
    CallToolResult { content, is_error }
}

fn prefixed(prefix: &str, rest: &str) -> (s: String)
    ensures
        s@ == prefix@ + rest@,
{
    let mut s = owned(prefix);
    append_str(&mut s, rest);
    s
}

/// The report of a shell command: its standard output and error, read as
/// UTF-8; an error when the command did not succeed.
pub fn command_result(outcome: Result<CommandOutput, String>) -> (r: Result<CallToolResult, String>)
    ensures
        match outcome {
            Ok(out) => r matches Ok(res) && is_text_result(
                res,
                "STDOUT:\n"@ + lossy_utf8(out.stdout@) + "\nSTDERR:\n"@ + lossy_utf8(out.stderr@),
                !out.success,
            ),
            Err(e) => is_failure(r, e@),
        },
{
    match outcome {
        Ok(out) => {
            let mut text = owned("STDOUT:\n");
            let o = utf8_lossy(out.stdout.as_slice());
            append_str(&mut text, o.as_str());
            append_str(&mut text, "\nSTDERR:\n");
            let e = utf8_lossy(out.stderr.as_slice());
            append_str(&mut text, e.as_str());
            Ok(text_result(text, !out.success))
        },
        Err(e) => Err(e),
    }
}

/// The report of a mouse move to `(x, y)`.
pub fn mouse_move_result(x: i32, y: i32, outcome: Result<(), String>) -> (r: Result<
    CallToolResult,
    String,
>)
    ensures
        match outcome {
            Ok(()) => r matches Ok(res) && is_text_result(
                res,
                "Moved mouse to "@ + signed_decimal(x as int) + ", "@ + signed_decimal(y as int),
                false,
            ),
            Err(e) => is_failure(r, "Mouse error: "@ + e@),
        },
{
    match outcome {
        Ok(()) => {
            let mut text = owned("Moved mouse to ");
            append_signed_decimal(&mut text, x as i64);
            append_str(&mut text, ", ");
            append_signed_decimal(&mut text, y as i64);
            Ok(text_result(text, false))
        },
        Err(e) => Err(prefixed("Mouse error: ", e.as_str())),
    }
}

/// The report of a click of the button named `label`.
pub fn mouse_click_result(label: &str, outcome: Result<(), String>) -> (r: Result<
    CallToolResult,
    String,
>)
    ensures
        match outcome {
            Ok(()) => r matches Ok(res) && is_text_result(
                res,
                "Clicked "@ + label@ + " mouse button"@,
                false,
            ),
            Err(e) => is_failure(r, "Mouse error: "@ + e@),
        },
{
    match outcome {
        Ok(()) => {
            let mut text = owned("Clicked ");
            append_str(&mut text, label);
            append_str(&mut text, " mouse button");
            Ok(text_result(text, false))
        },
        Err(e) => Err(prefixed("Mouse error: ", e.as_str())),
    }
}

/// The report of typing a text.
pub fn keyboard_type_result(outcome: Result<(), String>) -> (r: Result<CallToolResult, String>)
    ensures
        match outcome {
            Ok(()) => r matches Ok(res) && is_text_result(res, "Typed text"@, false),
            Err(e) => is_failure(r, "Keyboard error: "@ + e@),
        },
{
    match outcome {
        Ok(()) => Ok(text_result(owned("Typed text"), false)),
        Err(e) => Err(prefixed("Keyboard error: ", e.as_str())),
    }
}

/// The report of pressing the key named `label`.
pub fn keyboard_press_result(label: &str, outcome: Result<(), String>) -> (r: Result<
    CallToolResult,
    String,
>)
    ensures
        match outcome {
            Ok(()) => r matches Ok(res) && is_text_result(res, "Pressed key "@ + label@, false),
            Err(e) => is_failure(r, "Keyboard error: "@ + e@),
        },
{
    match outcome {
        Ok(()) => Ok(text_result(prefixed("Pressed key ", label), false)),
        Err(e) => Err(prefixed("Keyboard error: ", e.as_str())),
    }
}

/// The failure of `keyboard_press` with a key name that has no key.
pub fn unsupported_key_result(label: &str) -> (r: Result<CallToolResult, String>)
    ensures
        is_failure(r, "Unsupported key: "@ + label@),
{
    Err(prefixed("Unsupported key: ", label))
}

/// `Some(n)` or `None`, as Rust's `Debug` writes an optional count.
pub open spec fn optional_count_text(n: Option<usize>) -> Seq<char> {
    match n {
        Some(k) => "Some("@ + decimal(k as nat) + ")"@,
        None => "None"@,
    }
}

/// The text that reports the machine's memory and cores.
pub open spec fn metrics_text(m: SystemMetrics) -> Seq<char> {
    "Total RAM: "@ + (decimal(m.total_memory as nat) + (" Bytes\nUsed RAM: "@ + (decimal(
        m.used_memory as nat,
    ) + (" Bytes\nTotal Swap: "@ + (decimal(m.total_swap as nat) + (" Bytes\nUsed Swap: "@ + (
    decimal(m.used_swap as nat) + (" Bytes\nCore Count: "@ + optional_count_text(
        m.physical_cores,
    )))))))))
}

/// The report of the machine's figures tells them apart: two sets of
/// figures with the same report are the same figures, every memory figure
/// in full and the core count.
pub proof fn lemma_metrics_report_determines_figures(m1: SystemMetrics, m2: SystemMetrics)
    requires
        metrics_text(m1) == metrics_text(m2),
    ensures
        m1.total_memory == m2.total_memory,
        m1.used_memory == m2.used_memory,
        m1.total_swap == m2.total_swap,
        m1.used_swap == m2.used_swap,
        m1.physical_cores == m2.physical_cores,
{
    let p0 = "Total RAM: "@;
    let p1 = " Bytes\nUsed RAM: "@;
    let p2 = " Bytes\nTotal Swap: "@;
    let p3 = " Bytes\nUsed Swap: "@;
    let p4 = " Bytes\nCore Count: "@;
    lemma_metric_separators();
    let o1 = optional_count_text(m1.physical_cores);
    let o2 = optional_count_text(m2.physical_cores);
    let t4a = p4 + o1;
    let t4b = p4 + o2;
    let t3a = p3 + (decimal(m1.used_swap as nat) + t4a);
    let t3b = p3 + (decimal(m2.used_swap as nat) + t4b);
    let t2a = p2 + (decimal(m1.total_swap as nat) + t3a);
    let t2b = p2 + (decimal(m2.total_swap as nat) + t3b);
    let t1a = p1 + (decimal(m1.used_memory as nat) + t2a);
    let t1b = p1 + (decimal(m2.used_memory as nat) + t2b);
    lemma_number_step(p0, m1.total_memory as nat, t1a, m2.total_memory as nat, t1b);
    lemma_number_step(p1, m1.used_memory as nat, t2a, m2.used_memory as nat, t2b);
    lemma_number_step(p2, m1.total_swap as nat, t3a, m2.total_swap as nat, t3b);
    lemma_number_step(p3, m1.used_swap as nat, t4a, m2.used_swap as nat, t4b);
    lemma_cancel_prefix(p4, o1, o2);
    lemma_optional_count_text(m1.physical_cores, m2.physical_cores);
}

proof fn lemma_metric_separators()
    ensures
        " Bytes\nUsed RAM: "@.len() > 0 && " Bytes\nUsed RAM: "@[0] == ' ',
        " Bytes\nTotal Swap: "@.len() > 0 && " Bytes\nTotal Swap: "@[0] == ' ',
        " Bytes\nUsed Swap: "@.len() > 0 && " Bytes\nUsed Swap: "@[0] == ' ',
        " Bytes\nCore Count: "@.len() > 0 && " Bytes\nCore Count: "@[0] == ' ',
{
    reveal_strlit(" Bytes\nUsed RAM: ");
    reveal_strlit(" Bytes\nTotal Swap: ");
    reveal_strlit(" Bytes\nUsed Swap: ");
    reveal_strlit(" Bytes\nCore Count: ");
}

proof fn lemma_number_step(p: Seq<char>, a: nat, s: Seq<char>, b: nat, t: Seq<char>)
    requires
        p + (decimal(a) + s) == p + (decimal(b) + t),
        s.len() > 0 && s[0] == ' ',
        t.len() > 0 && t[0] == ' ',
    ensures
        a == b,
        s == t,
{
    lemma_cancel_prefix(p, decimal(a) + s, decimal(b) + t);
    lemma_decimal_then_text(a, s, b, t);
}

proof fn lemma_optional_count_text(a: Option<usize>, b: Option<usize>)
    requires
        optional_count_text(a) == optional_count_text(b),
    ensures
        a == b,
{
    reveal_strlit("Some(");
    reveal_strlit("None");
    reveal_strlit(")");
    match (a, b) {
        (Some(x), Some(y)) => {
            assert(optional_count_text(a) =~= "Some("@ + (decimal(x as nat) + ")"@));
            assert(optional_count_text(b) =~= "Some("@ + (decimal(y as nat) + ")"@));
            lemma_cancel_prefix("Some("@, decimal(x as nat) + ")"@, decimal(y as nat) + ")"@);
            lemma_decimal_then_text(x as nat, ")"@, y as nat, ")"@);
        },
        (Some(x), None) => {
            assert(optional_count_text(a)[0] == 'S');
            assert(optional_count_text(b)[0] == 'N');
        },
        (None, Some(y)) => {
            assert(optional_count_text(b)[0] == 'S');
            assert(optional_count_text(a)[0] == 'N');
        },
        (None, None) => {},
    }
}

/// The report of the machine's memory and cores.
pub fn system_metrics_result(m: SystemMetrics) -> (r: CallToolResult)
    ensures
        is_text_result(r, metrics_text(m), false),
{
    let mut text = owned("Total RAM: ");
    append_decimal(&mut text, m.total_memory as u128);
    append_str(&mut text, " Bytes\nUsed RAM: ");
    append_decimal(&mut text, m.used_memory as u128);
    append_str(&mut text, " Bytes\nTotal Swap: ");
    append_decimal(&mut text, m.total_swap as u128);
    append_str(&mut text, " Bytes\nUsed Swap: ");
    append_decimal(&mut text, m.used_swap as u128);
    append_str(&mut text, " Bytes\nCore Count: ");
    match m.physical_cores {
        Some(k) => {
            append_str(&mut text, "Some(");
            append_decimal(&mut text, k as u128);
            append_str(&mut text, ")");
        },
        None => {
            append_str(&mut text, "None");
        },
    }
    assert(text@ =~= metrics_text(m));
    text_result(text, false)
}

/// How deep below the screen's root element the UI tree is described.
pub const UI_TREE_DEPTH: usize = 3;

/// The report of the UI tree: its description down to three levels below
/// the root, or the error that stopped reading it.
pub fn ui_tree_result(outcome: Result<UiNode, String>) -> (r: CallToolResult)
    ensures
        match outcome {
            Ok(root) => is_text_result(r, rendered(root, 0, 3), false),
            Err(e) => is_text_result(r, "Error: "@ + e@, true),
        },
{
    match outcome {
        Ok(root) => text_result(render_tree(&root, 0, UI_TREE_DEPTH), false),
        Err(e) => text_result(prefixed("Error: ", e.as_str()), true),
    }
}

/// Why the screen could not be captured.
#[derive(Clone, Debug, PartialEq, Eq)]
pub enum CaptureFailure {
    /// Listing the monitors failed with this message.
    ListFailed(String),
    /// There is no monitor.
    NoMonitor,
    /// Capturing the first monitor failed with this message.
    CaptureFailed(String),
}

/// The text that reports a failed capture; `no_monitor` is what is said
/// when there is no monitor.
pub open spec fn capture_failure_text(f: CaptureFailure, no_monitor: Seq<char>) -> Seq<char> {
    match f {
        CaptureFailure::ListFailed(e) => "Monitor error: "@ + e@,
        CaptureFailure::NoMonitor => no_monitor,
        CaptureFailure::CaptureFailed(e) => "Capture error: "@ + e@,
    }
}

/// The text that reports a failed capture.
pub fn capture_failure_message(f: &CaptureFailure, no_monitor: &str) -> (s: String)
    ensures
        s@ == capture_failure_text(*f, no_monitor@),
{
    match f {
        CaptureFailure::ListFailed(e) => prefixed("Monitor error: ", e.as_str()),
        CaptureFailure::NoMonitor => owned(no_monitor),
        CaptureFailure::CaptureFailed(e) => prefixed("Capture error: ", e.as_str()),
    }
}

/// What a search for a template on the screen gives: the centre of the
/// first match, or the text of what went wrong: capturing the screen,
/// getting the template, or the search itself.
pub open spec fn template_search(
    screen: Result<Image, CaptureFailure>,
    template: Result<Image, String>,
) -> Result<(u32, u32), Seq<char>> {
    match screen {
        Err(f) => Err(capture_failure_text(f, "No monitor"@)),
        Ok(s) => match template {
            Err(e) => Err(e@),
            Ok(t) => match located(s@, t@) {
                Ok(c) => Ok(c),
                Err(te) => Err(te.message_text()),
            },
        },
    }
}

/// The text that reports where a template was found, or why not.
pub open spec fn location_text(r: Result<(u32, u32), Seq<char>>) -> Seq<char> {
    match r {
        Ok((x, y)) => "Template found at center coordinates: x="@ + (decimal(x as nat) + (", y="@
            + decimal(y as nat))),
        Err(e) => "Error: "@ + e,
    }
}

/// The report of a search for a template image on the screen. `screen` is
/// the captured screen, or why it could not be captured; `template` is the
/// template's picture (see `decode_template`), or the error that stopped
/// getting it.
pub fn find_image_result(screen: Result<Image, CaptureFailure>, template: Result<Image, String>) -> (r:
    CallToolResult)
    requires
        screen matches Ok(s) ==> s.wf(),
        template matches Ok(t) ==> t.wf(),
        screen matches Ok(s) ==> (template matches Ok(t) ==> (fits(s@, t@) ==> t.width > 0
            && t.height > 0)),
    ensures
        is_text_result(
            r,
            location_text(template_search(screen, template)),
            template_search(screen, template) is Err,
        ),
{
    match screen {
        Err(f) => {
            let m = capture_failure_message(&f, "No monitor");
            text_result(prefixed("Error: ", m.as_str()), true)
        },
        Ok(screen) => match template {
            Err(e) => text_result(prefixed("Error: ", e.as_str()), true),
            Ok(template) => match find_template(&screen, &template) {
                Ok((x, y)) => {
                    let mut text = owned("Template found at center coordinates: x=");
                    append_decimal(&mut text, x as u128);
                    append_str(&mut text, ", y=");
                    append_decimal(&mut text, y as u128);
                    assert(text@ =~= "Template found at center coordinates: x="@ + (decimal(
                        x as nat,
                    ) + (", y="@ + decimal(y as nat))));
                    text_result(text, false)
                },
                Err(e) => {
                    let m = e.message();
                    text_result(prefixed("Error: ", m.as_str()), true)
                },
            },
        },
    }
}

/// When the search finds the template, the report gives the centre's
/// column after `x=` and its row after `y=`: the column lies among the
/// columns that the first match covers, the row among its rows, both on
/// the screen; and different centres give different reports.
pub proof fn lemma_found_report(screen: Image, template: Image, other: (u32, u32))
    requires
        template.width > 0,
        template.height > 0,
    ensures
        template_search(Ok(screen), Ok(template)) matches Ok((cx, cy)) ==> {
            &&& location_text(template_search(Ok(screen), Ok(template)))
                == "Template found at center coordinates: x="@ + decimal(cx as nat) + ", y="@
                + decimal(cy as nat)
            &&& cx < screen.width && cy < screen.height
            &&& exists|x: int, y: int|
                #![trigger is_first_match(screen@, template@, x, y)]
                is_first_match(screen@, template@, x, y) && x <= cx < x + template.width && y <= cy
                    < y + template.height
            &&& (location_text(Ok(other)) == location_text(Ok((cx, cy))) ==> other == (cx, cy))
        },
{
    lemma_center_on_screen(screen@, template@);
    if let Ok((cx, cy)) = template_search(Ok(screen), Ok(template)) {
        let p = "Template found at center coordinates: x="@;
        assert(location_text(Ok((cx, cy))) =~= p + decimal(cx as nat) + ", y="@ + decimal(
            cy as nat,
        ));
        if location_text(Ok(other)) == location_text(Ok((cx, cy))) {
            reveal_strlit(", y=");
            let q = ", y="@;
            lemma_cancel_prefix(
                p,
                decimal(other.0 as nat) + (q + decimal(other.1 as nat)),
                decimal(cx as nat) + (q + decimal(cy as nat)),
            );
            assert((q + decimal(other.1 as nat))[0] == ',');
            assert((q + decimal(cy as nat))[0] == ',');
            lemma_decimal_then_text(
                other.0 as nat,
                q + decimal(other.1 as nat),
                cx as nat,
                q + decimal(cy as nat),
            );
            lemma_cancel_prefix(q, decimal(other.1 as nat), decimal(cy as nat));
            lemma_decimal_injective(other.1 as nat, cy as nat);
        }
    }
}

/// How far a screenshot got: not captured, captured but not saved (with
/// the saving error's message), or saved.
#[derive(Clone, Debug, PartialEq, Eq)]
pub enum ScreenshotOutcome {
    NotCaptured(CaptureFailure),
    NotSaved(String),
    Saved(SavedScreenshot),
}

/// The report of a screenshot: where it was saved, and the captured screen
/// itself as base64 PNG data. A capture that failed, a file that could not
/// be saved (`Save error: `) and a PNG encoding that failed
/// (`Encode error: `) fail the call.
pub fn screenshot_result(outcome: ScreenshotOutcome) -> (r: Result<CallToolResult, String>)
    requires
        outcome matches ScreenshotOutcome::Saved(shot) ==> shot.image.wf(),
    ensures
        match outcome {
            ScreenshotOutcome::Saved(shot) => match png_encoding(
                shot.image.width,
                shot.image.height,
                shot.image.rgba@,
            ) {
                Ok(png) => r matches Ok(res) && {
                    &&& res.content@.len() == 2
                    &&& is_text(res.content@[0], "Saved screenshot to "@ + shot.path@)
                    &&& res.content@[1] matches ToolContent::Image { data, mime_type } && data@
                        == base64_of(png) && mime_type@ == "image/png"@
                    &&& !res.is_error
                },
                Err(e) => is_failure(r, "Encode error: "@ + e),
            },
            ScreenshotOutcome::NotSaved(e) => is_failure(r, "Save error: "@ + e@),
            ScreenshotOutcome::NotCaptured(f) => is_failure(
                r,
                capture_failure_text(f, "No monitor found"@),
            ),
        },
{
    match outcome {
        ScreenshotOutcome::Saved(shot) => match encode_png(&shot.image) {
            Ok(png) => {
                let data = encode_base64(png.as_slice());
                let text = prefixed("Saved screenshot to ", shot.path.as_str());
                let mut content: Vec<ToolContent> = Vec::new();
                content.push(ToolContent::Text { text });
                content.push(ToolContent::Image { data, mime_type: owned("image/png") });
                Ok(CallToolResult { content, is_error: false })
            },
            Err(e) => Err(prefixed("Encode error: ", e.as_str())),
        },
        ScreenshotOutcome::NotSaved(e) => Err(prefixed("Save error: ", e.as_str())),
        ScreenshotOutcome::NotCaptured(f) => Err(capture_failure_message(&f, "No monitor found")),
    }
}

/// The line that reports one step of `perform_actions`.
pub open spec fn action_line(a: Action, outcome: Result<(), String>) -> Seq<char> {
    match a {
        Action::MouseMove { x, y } => match outcome {
            Ok(()) => "mouse_move("@ + signed_decimal(x as int) + ", "@ + signed_decimal(y as int)
                + ")"@,
            Err(e) => "Error mouse_move: "@ + e@,
        },
        Action::MouseClick { label, .. } => match outcome {
            Ok(()) => "mouse_click("@ + label@ + ")"@,
            Err(e) => "Error mouse_click: "@ + e@,
        },
        Action::KeyboardType { text } => match outcome {
            Ok(()) => "keyboard_type(\""@ + text@ + "\")"@,
            Err(e) => "Error keyboard_type: "@ + e@,
        },
        Action::KeyboardPress { label, .. } => match outcome {
            Ok(()) => "keyboard_press("@ + label@ + ")"@,
            Err(e) => "Error keyboard_press: "@ + e@,
        },
        Action::Unknown { action } => "Unknown action: "@ + action@,
    }
}

/// The line that reports one step of `perform_actions`.
pub fn describe_action(a: &Action, outcome: &Result<(), String>) -> (s: String)
    ensures
        s@ == action_line(*a, *outcome),
{
    match a {
        Action::MouseMove { x, y } => match outcome {
            Ok(()) => {
                let mut s = owned("mouse_move(");
                append_signed_decimal(&mut s, *x as i64);
                append_str(&mut s, ", ");
                append_signed_decimal(&mut s, *y as i64);
                append_str(&mut s, ")");
                s
            },
            Err(e) => prefixed("Error mouse_move: ", e.as_str()),
        },
        Action::MouseClick { label, .. } => match outcome {
            Ok(()) => {
                let mut s = prefixed("mouse_click(", label.as_str());
                append_str(&mut s, ")");
                s
            },
            Err(e) => prefixed("Error mouse_click: ", e.as_str()),
        },
        Action::KeyboardType { text } => match outcome {
            Ok(()) => {
                let mut s = prefixed("keyboard_type(\"", text.as_str());
                append_str(&mut s, "\")");
                s
            },
            Err(e) => prefixed("Error keyboard_type: ", e.as_str()),
        },
        Action::KeyboardPress { label, .. } => match outcome {
            Ok(()) => {
                let mut s = prefixed("keyboard_press(", label.as_str());
                append_str(&mut s, ")");
                s
            },
            Err(e) => prefixed("Error keyboard_press: ", e.as_str()),
        },
        Action::Unknown { action } => prefixed("Unknown action: ", action.as_str()),
    }
}

/// The report lines of a run of actions, one per action.
pub open spec fn action_lines(actions: Seq<Action>, outcomes: Seq<Result<(), String>>) -> Seq<
    Seq<char>,
> {
    Seq::new(actions.len(), |i: int| action_line(actions[i], outcomes[i]))
}

/// The report of `perform_actions`: one line per action, in order; each
/// outcome is that of the action at the same place (an unknown action has
/// none, and its outcome is not read).
pub fn perform_actions_result(actions: &Vec<Action>, outcomes: &Vec<Result<(), String>>) -> (r:
    CallToolResult)
    requires
        actions@.len() == outcomes@.len(),
    ensures
        is_text_result(r, joined(action_lines(actions@, outcomes@), "\n"@), false),
{
    let mut lines: Vec<String> = Vec::new();
    let mut i: usize = 0;
    while i < actions.len()
        invariant
            i <= actions.len(),
            actions@.len() == outcomes@.len(),
            lines@.len() == i,
            forall|k: int|
                0 <= k < i ==> (#[trigger] lines@[k])@ == action_line(actions@[k], outcomes@[k]),
        decreases actions.len() - i,
    {
        lines.push(describe_action(&actions[i], &outcomes[i]));
        i = i + 1;
    }
    assert(views(lines@) =~= action_lines(actions@, outcomes@));
    text_result(join(&lines, "\n"), false)
}

/// The report of `perform_actions` called without an `actions` array.
pub fn missing_actions_result() -> (r: CallToolResult)
    ensures
        is_text_result(r, "Missing or invalid 'actions' array"@, true),
{
    text_result(owned("Missing or invalid 'actions' array"), true)
}

/// The report of a call of a tool that does not exist.
pub fn unknown_tool_result(name: &str) -> (r: CallToolResult)
    ensures
        is_text_result(r, "Tool "@ + name@ + " not found"@, true),
{
    let mut text = prefixed("Tool ", name);
    append_str(&mut text, " not found");
    text_result(text, true)
}

/// The folder of a session started at `secs` seconds after the Unix epoch.
pub fn session_dir_name(secs: u64) -> (s: String)
    ensures
        s@ == "sessions/session_"@ + decimal(secs as nat),
{
    let mut s = owned("sessions/session_");
    append_decimal(&mut s, secs as u128);
    s
}

/// Where a screenshot taken at `millis` milliseconds after the Unix epoch
/// is saved in a session's folder.
pub fn screenshot_path(session_dir: &str, millis: u128) -> (s: String)
    ensures
        s@ == session_dir@ + "/screenshot_"@ + decimal(millis as nat) + ".png"@,
{
    let mut s = owned(session_dir);
    append_str(&mut s, "/screenshot_");
    append_decimal(&mut s, millis);
    append_str(&mut s, ".png");
    s
}

} // verus!
