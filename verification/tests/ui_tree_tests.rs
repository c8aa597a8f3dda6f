use computa_use::ui_tree::{render_tree, UiNode, UiRect};

fn node(name: &str, class: &str, rect: Option<UiRect>, children: Vec<UiNode>) -> UiNode {
    UiNode { name: name.to_string(), class_name: class.to_string(), rect, children }
}

#[test]
fn renders_indented_lines_down_to_the_depth_limit() {
    let rect = Some(UiRect { left: 0, top: -8, right: 1920, bottom: 1080 });
    let deep = node("d4", "", None, vec![]);
    let d3 = node("d3", "C3", None, vec![deep]);
    let d2 = node("", "", None, vec![d3]);
    let d1 = node("Window", "Frame", rect, vec![d2, node("Sibling", "", None, vec![])]);
    let root = node("Desktop", "#32769", None, vec![d1]);
    let s = render_tree(&root, 0, 3);
    assert_eq!(
        s,
        "Desktop (Class: #32769) \n  Window (Class: Frame) [0, -8, 1920, 1080]\n      d3 (Class: C3) \n    Sibling (Class: ) \n"
    );
}

#[test]
fn nothing_below_max_depth() {
    let root = node("a", "b", None, vec![node("c", "d", None, vec![])]);
    assert_eq!(render_tree(&root, 0, 0), "a (Class: b) \n");
    assert_eq!(render_tree(&root, 1, 0), "");
}
