use computa_use::results::{
    command_result, describe_action, find_image_result, keyboard_press_result,
    keyboard_type_result, missing_actions_result, mouse_click_result, mouse_move_result,
    perform_actions_result, screenshot_result, screenshot_path, session_dir_name,
    system_metrics_result, ui_tree_result, unknown_tool_result, unsupported_key_result,
    CallToolResult, CommandOutput, SavedScreenshot, SystemMetrics, ToolContent,
    CaptureFailure, ScreenshotOutcome, capture_failure_message,
};
use computa_use::codec::decode_template;
use computa_use::template::Image;
use computa_use::tools::{Action, KeyName, MouseButton};
use computa_use::ui_tree::UiNode;

fn text_of(r: &CallToolResult) -> &str {
    assert_eq!(r.content.len(), 1);
    match &r.content[0] {
        ToolContent::Text { text } => text.as_str(),
        _ => panic!("not a text item"),
    }
}

#[test]
fn command_output_is_reported_with_both_streams() {
    let out = CommandOutput { stdout: b"hello\n".to_vec(), stderr: vec![], success: true };
    let r = command_result(Ok(out)).unwrap();
    assert_eq!(text_of(&r), "STDOUT:\nhello\n\nSTDERR:\n");
    assert!(!r.is_error);
    let out = CommandOutput { stdout: vec![b'a', 0xff, b'b'], stderr: b"bad".to_vec(), success: false };
    let r = command_result(Ok(out)).unwrap();
    assert_eq!(text_of(&r), "STDOUT:\na\u{fffd}b\nSTDERR:\nbad");
    assert!(r.is_error);
    assert_eq!(command_result(Err("spawn failed".to_string())), Err("spawn failed".to_string()));
}

#[test]
fn mouse_reports() {
    let r = mouse_move_result(-5, 1080, Ok(())).unwrap();
    assert_eq!(text_of(&r), "Moved mouse to -5, 1080");
    assert!(!r.is_error);
    assert_eq!(mouse_move_result(0, 0, Err("no display".to_string())), Err("Mouse error: no display".to_string()));
    let r = mouse_click_result("right", Ok(())).unwrap();
    assert_eq!(text_of(&r), "Clicked right mouse button");
    assert_eq!(mouse_click_result("left", Err("x".to_string())), Err("Mouse error: x".to_string()));
}

#[test]
fn keyboard_reports() {
    assert_eq!(text_of(&keyboard_type_result(Ok(())).unwrap()), "Typed text");
    assert_eq!(keyboard_type_result(Err("e".to_string())), Err("Keyboard error: e".to_string()));
    assert_eq!(text_of(&keyboard_press_result("tab", Ok(())).unwrap()), "Pressed key tab");
    assert_eq!(keyboard_press_result("tab", Err("e".to_string())), Err("Keyboard error: e".to_string()));
    assert_eq!(unsupported_key_result("f13"), Err("Unsupported key: f13".to_string()));
}

#[test]
fn metrics_report() {
    let m = SystemMetrics { total_memory: 1024, used_memory: 0, total_swap: 18446744073709551615, used_swap: 7, physical_cores: Some(8) };
    let r = system_metrics_result(m);
    assert_eq!(
        text_of(&r),
        "Total RAM: 1024 Bytes\nUsed RAM: 0 Bytes\nTotal Swap: 18446744073709551615 Bytes\nUsed Swap: 7 Bytes\nCore Count: Some(8)"
    );
    let m = SystemMetrics { total_memory: 1, used_memory: 1, total_swap: 0, used_swap: 0, physical_cores: None };
    assert!(text_of(&system_metrics_result(m)).ends_with("Core Count: None"));
}

#[test]
fn ui_tree_report() {
    let root = UiNode { name: "Desktop".to_string(), class_name: String::new(), rect: None, children: vec![] };
    let r = ui_tree_result(Ok(root));
    assert_eq!(text_of(&r), "Desktop (Class: ) \n");
    assert!(!r.is_error);
    let r = ui_tree_result(Err("COM failure".to_string()));
    assert_eq!(text_of(&r), "Error: COM failure");
    assert!(r.is_error);
}

fn solid(w: u32, h: u32, rgb: (u8, u8, u8)) -> Image {
    let mut v = Vec::new();
    for _ in 0..(w * h) {
        v.extend_from_slice(&[rgb.0, rgb.1, rgb.2, 255]);
    }
    Image::from_rgba(w, h, v).unwrap()
}

fn png_of(w: u32, h: u32, rgb: (u8, u8, u8)) -> Vec<u8> {
    let img = image::RgbaImage::from_pixel(w, h, image::Rgba([rgb.0, rgb.1, rgb.2, 255]));
    let mut out = std::io::Cursor::new(Vec::new());
    img.write_to(&mut out, image::ImageFormat::Png).unwrap();
    out.into_inner()
}

#[test]
fn find_image_reports() {
    let t = |bytes: Vec<u8>| decode_template("t.png", Ok(bytes));
    let r = find_image_result(Ok(solid(6, 6, (10, 20, 30))), t(png_of(2, 2, (10, 20, 30))));
    assert_eq!(text_of(&r), "Template found at center coordinates: x=1, y=1");
    assert!(!r.is_error);
    let r = find_image_result(Ok(solid(2, 2, (0, 0, 0))), t(png_of(3, 1, (0, 0, 0))));
    assert_eq!(text_of(&r), "Error: Template larger than monitor");
    assert!(r.is_error);
    let r = find_image_result(Ok(solid(4, 4, (0, 0, 0))), t(png_of(2, 2, (9, 9, 9))));
    assert_eq!(text_of(&r), "Error: Template not found");
    assert!(r.is_error);
    let r = find_image_result(Err(CaptureFailure::NoMonitor), t(png_of(1, 1, (0, 0, 0))));
    assert_eq!(text_of(&r), "Error: No monitor");
    assert!(r.is_error);
    let r = find_image_result(Err(CaptureFailure::ListFailed("x11".to_string())), Err(String::new()));
    assert_eq!(text_of(&r), "Error: Monitor error: x11");
    let r = find_image_result(Err(CaptureFailure::CaptureFailed("denied".to_string())), Err(String::new()));
    assert_eq!(text_of(&r), "Error: Capture error: denied");
    let r = find_image_result(Ok(solid(4, 4, (0, 0, 0))), decode_template("t.png", Err("No such file".to_string())));
    assert_eq!(text_of(&r), "Error: No such file");
    assert!(r.is_error);
}

#[test]
fn template_files_are_decoded_by_extension() {
    assert!(decode_template("t.png", Ok(b"not a png".to_vec())).is_err());
    let no_ext = decode_template("t", Ok(png_of(1, 1, (0, 0, 0)))).unwrap_err();
    let empty_ext = decode_template("t.", Ok(png_of(1, 1, (0, 0, 0)))).unwrap_err();
    assert_eq!(no_ext, empty_ext);
    assert_eq!(no_ext, "The image format could not be determined");
    let unknown = decode_template("t.xyz", Ok(png_of(1, 1, (0, 0, 0)))).unwrap_err();
    assert!(unknown.contains("xyz"));
    let img = decode_template("dir/T.PNG", Ok(png_of(2, 1, (7, 8, 9)))).unwrap();
    assert_eq!(img, Image::from_rgba(2, 1, vec![7, 8, 9, 255, 7, 8, 9, 255]).unwrap());
    let r = find_image_result(Ok(solid(4, 4, (7, 7, 7))), decode_template("dir/T.PNG", Ok(png_of(1, 1, (7, 7, 7)))));
    assert_eq!(text_of(&r), "Template found at center coordinates: x=0, y=0");
}

#[test]
fn other_formats_are_decoded_too() {
    let img = image::RgbaImage::from_pixel(2, 2, image::Rgba([5, 6, 7, 255]));
    let mut out = std::io::Cursor::new(Vec::new());
    image::DynamicImage::ImageRgba8(img).to_rgb8().write_to(&mut out, image::ImageFormat::Bmp).unwrap();
    let t = decode_template("t.bmp", Ok(out.into_inner())).unwrap();
    assert_eq!((t.width, t.height), (2, 2));
    assert_eq!(&t.rgba[0..4], &[5, 6, 7, 255]);
}

#[test]
fn screenshot_report_carries_base64_png() {
    let shot = SavedScreenshot { path: "sessions/session_1/screenshot_2.png".to_string(), image: solid(3, 2, (1, 2, 3)) };
    let r = screenshot_result(ScreenshotOutcome::Saved(shot)).unwrap();
    assert_eq!(r.content.len(), 2);
    assert_eq!(r.content[0], ToolContent::Text { text: "Saved screenshot to sessions/session_1/screenshot_2.png".to_string() });
    let expected = computa_use::base64::encode_base64(&png_of(3, 2, (1, 2, 3)));
    match &r.content[1] {
        ToolContent::Image { data, mime_type } => {
            assert!(data.starts_with("iVBORw0KGgo"));
            assert_eq!(data, &expected);
            assert_eq!(mime_type, "image/png");
        }
        _ => panic!("not an image item"),
    }
    assert!(!r.is_error);
}

#[test]
fn screenshot_failures() {
    assert_eq!(screenshot_result(ScreenshotOutcome::NotCaptured(CaptureFailure::NoMonitor)), Err("No monitor found".to_string()));
    assert_eq!(
        screenshot_result(ScreenshotOutcome::NotCaptured(CaptureFailure::CaptureFailed("x".to_string()))),
        Err("Capture error: x".to_string())
    );
    assert_eq!(
        screenshot_result(ScreenshotOutcome::NotCaptured(CaptureFailure::ListFailed("y".to_string()))),
        Err("Monitor error: y".to_string())
    );
    assert_eq!(screenshot_result(ScreenshotOutcome::NotSaved("disk full".to_string())), Err("Save error: disk full".to_string()));
}

#[test]
fn capture_failure_messages() {
    assert_eq!(capture_failure_message(&CaptureFailure::NoMonitor, "No monitor"), "No monitor");
    assert_eq!(capture_failure_message(&CaptureFailure::ListFailed("a".to_string()), "No monitor"), "Monitor error: a");
}

#[test]
fn session_paths() {
    assert_eq!(session_dir_name(1700000000), "sessions/session_1700000000");
    assert_eq!(session_dir_name(0), "sessions/session_0");
    assert_eq!(screenshot_path("sessions/session_5", 1700000000123), "sessions/session_5/screenshot_1700000000123.png");
}

#[test]
fn perform_actions_report_has_one_line_per_action() {
    let actions = vec![
        Action::MouseMove { x: 1, y: -2 },
        Action::MouseClick { button: MouseButton::Left, label: "left".to_string() },
        Action::KeyboardType { text: "hi".to_string() },
        Action::KeyboardPress { key: KeyName::Return, label: "zzz".to_string() },
        Action::Unknown { action: "jump".to_string() },
        Action::MouseMove { x: 0, y: 0 },
    ];
    let outcomes = vec![Ok(()), Ok(()), Ok(()), Ok(()), Ok(()), Err("busy".to_string())];
    let r = perform_actions_result(&actions, &outcomes);
    assert_eq!(
        text_of(&r),
        "mouse_move(1, -2)\nmouse_click(left)\nkeyboard_type(\"hi\")\nkeyboard_press(zzz)\nUnknown action: jump\nError mouse_move: busy"
    );
    assert!(!r.is_error);
    let r = perform_actions_result(&vec![], &vec![]);
    assert_eq!(text_of(&r), "");
}

#[test]
fn action_error_lines() {
    let e = Err("boom".to_string());
    assert_eq!(describe_action(&Action::MouseClick { button: MouseButton::Right, label: "right".to_string() }, &e), "Error mouse_click: boom");
    assert_eq!(describe_action(&Action::KeyboardType { text: "t".to_string() }, &e), "Error keyboard_type: boom");
    assert_eq!(describe_action(&Action::KeyboardPress { key: KeyName::Tab, label: "tab".to_string() }, &e), "Error keyboard_press: boom");
    assert_eq!(describe_action(&Action::Unknown { action: "x".to_string() }, &e), "Unknown action: x");
}

#[test]
fn missing_and_unknown_tool_reports() {
    let r = missing_actions_result();
    assert_eq!(text_of(&r), "Missing or invalid 'actions' array");
    assert!(r.is_error);
    let r = unknown_tool_result("fly");
    assert_eq!(text_of(&r), "Tool fly not found");
    assert!(r.is_error);
}
