use vstd::prelude::*;
use crate::text::{append_signed_decimal, append_str, repeat_str, repeated, signed_decimal};

verus! {

/// The bounding rectangle of a UI element, in screen coordinates.
#[derive(PartialEq, Eq, Structural, Clone, Copy, Debug)]
pub struct UiRect {
    pub left: i32,
    pub top: i32,
    pub right: i32,
    pub bottom: i32,
}

/// A UI element with its name, class, bounding rectangle (when it has one)
/// and its children in order.
#[derive(Debug, PartialEq, Eq)]
pub struct UiNode {
    pub name: String,
    pub class_name: String,
    pub rect: Option<UiRect>,
    pub children: Vec<UiNode>,
}

/// `[left, top, right, bottom]`, or nothing without a rectangle.
pub open spec fn rect_text(r: Option<UiRect>) -> Seq<char> {
    match r {
        Some(r) => "["@ + signed_decimal(r.left as int) + ", "@ + signed_decimal(r.top as int)
            + ", "@ + signed_decimal(r.right as int) + ", "@ + signed_decimal(r.bottom as int)
            + "]"@,
        None => seq![],
    }
}

/// The line that describes an element at the given depth: two spaces per
/// level, the name, the class and the rectangle; no line when both name and
/// class are empty.
pub open spec fn node_line(n: UiNode, depth: nat) -> Seq<char> {
    if n.name@.len() > 0 || n.class_name@.len() > 0 {
        repeated("  "@, depth) + n.name@ + " (Class: "@ + n.class_name@ + ") "@ + rect_text(n.rect)
            + "\n"@
    } else {
        seq![]
    }
}

/// The description of an element and of its descendants down to
/// `max_depth`, in document order.
pub open spec fn rendered(n: UiNode, depth: nat, max_depth: nat) -> Seq<char>
    decreases n, 1nat,
{
    if depth > max_depth {
        seq![]
    } else {
        node_line(n, depth) + rendered_children(n.children@, (depth + 1) as nat, max_depth)
    }
}

/// The descriptions of a list of siblings, one after the other.
pub open spec fn rendered_children(cs: Seq<UiNode>, depth: nat, max_depth: nat) -> Seq<char>
    decreases cs, 0nat,
{
    if cs.len() == 0 {
        seq![]
    } else {
        rendered_children(cs.subrange(0, cs.len() - 1), depth, max_depth) + rendered(
            cs[cs.len() - 1],
            depth,
            max_depth,
        )
    }
}

/// An element within the depth limit contributes exactly one line when its
/// name or its class is not empty (an element with only a class is listed
/// too): two spaces per level, the name, ` (Class: `, the class, `) `, the
/// rectangle `[left, top, right, bottom]` when it has one, and a newline;
/// an element with neither contributes nothing of its own. Its children
/// follow, one level deeper.
pub proof fn lemma_element_line(n: UiNode, depth: nat, max_depth: nat)
    requires
        depth <= max_depth,
    ensures
        rendered(n, depth, max_depth) == (if n.name@.len() > 0 || n.class_name@.len() > 0 {
            repeated("  "@, depth) + n.name@ + " (Class: "@ + n.class_name@ + ") "@ + (match n.rect {
                Some(r) => "["@ + signed_decimal(r.left as int) + ", "@ + signed_decimal(
                    r.top as int,
                ) + ", "@ + signed_decimal(r.right as int) + ", "@ + signed_decimal(
                    r.bottom as int,
                ) + "]"@,
                None => Seq::<char>::empty(),
            }) + "\n"@
        } else {
            Seq::<char>::empty()
        }) + rendered_children(n.children@, depth + 1, max_depth),
        depth + 1 > max_depth ==> rendered(n, depth, max_depth) == node_line(n, depth),
{
    if depth + 1 > max_depth {
        lemma_children_too_deep(n.children@, depth + 1, max_depth);
        assert(rendered(n, depth, max_depth) =~= node_line(n, depth));
    }
    if !(n.name@.len() > 0 || n.class_name@.len() > 0) {
        assert(node_line(n, depth) =~= Seq::<char>::empty());
    }
}

fn append_rect(s: &mut String, r: &Option<UiRect>)
    ensures
        final(s)@ == old(s)@ + rect_text(*r),
{
    match r {
        Some(r) => {
            append_str(s, "[");
            append_signed_decimal(s, r.left as i64);
            append_str(s, ", ");
            append_signed_decimal(s, r.top as i64);
            append_str(s, ", ");
            append_signed_decimal(s, r.right as i64);
            append_str(s, ", ");
            append_signed_decimal(s, r.bottom as i64);
            append_str(s, "]");
            assert(final(s)@ =~= old(s)@ + rect_text(Some(*r)));
        },
        None => {
            assert(final(s)@ =~= old(s)@ + rect_text(None));
        },
    }
}

fn append_line(s: &mut String, n: &UiNode, depth: usize)
    ensures
        final(s)@ == old(s)@ + node_line(*n, depth as nat),
{
    if n.name.as_str().unicode_len() > 0 || n.class_name.as_str().unicode_len() > 0 {
        let indent = repeat_str("  ", depth);
        append_str(s, indent.as_str());
        append_str(s, n.name.as_str());
        append_str(s, " (Class: ");
        append_str(s, n.class_name.as_str());
        append_str(s, ") ");
        append_rect(s, &n.rect);
        append_str(s, "\n");
        assert(final(s)@ =~= old(s)@ + node_line(*n, depth as nat));
    } else {
        assert(final(s)@ =~= old(s)@ + node_line(*n, depth as nat));
    }
}

fn append_rendered(s: &mut String, n: &UiNode, depth: usize, max_depth: usize)
    ensures
        final(s)@ == old(s)@ + rendered(*n, depth as nat, max_depth as nat),
    decreases n,
{
    if depth > max_depth {
        assert(final(s)@ =~= old(s)@ + rendered(*n, depth as nat, max_depth as nat));
        return;
    }
    let ghost start = s@;
    append_line(s, n, depth);
    let ghost after_line = s@;
    if depth < max_depth {
        let mut i: usize = 0;
        while i < n.children.len()
            invariant
                i <= n.children.len(),
                depth < max_depth,
                s@ == after_line + rendered_children(
                    n.children@.subrange(0, i as int),
                    (depth + 1) as nat,
                    max_depth as nat,
                ),
            decreases n.children.len() - i,
        {
            let ghost prefix = n.children@.subrange(0, i as int);
            let ghost next = n.children@.subrange(0, i + 1);
            assert(next.subrange(0, next.len() - 1) =~= prefix);
            assert(decreases_to!(n => n.children@[i as int]));
            append_rendered(s, &n.children[i], depth + 1, max_depth);
            i = i + 1;
            assert(s@ =~= after_line + rendered_children(
                n.children@.subrange(0, i as int),
                (depth + 1) as nat,
                max_depth as nat,
            ));
        }
        assert(n.children@.subrange(0, n.children@.len() as int) =~= n.children@);
    } else {
        proof {
            lemma_children_too_deep(n.children@, (depth + 1) as nat, max_depth as nat);
        }
        assert(s@ =~= after_line + rendered_children(n.children@, (depth + 1) as nat, max_depth as nat));
    }
    assert(s@ =~= start + rendered(*n, depth as nat, max_depth as nat));
}

proof fn lemma_children_too_deep(cs: Seq<UiNode>, depth: nat, max_depth: nat)
    requires
        depth > max_depth,
    ensures
        rendered_children(cs, depth, max_depth) == Seq::<char>::empty(),
    decreases cs.len(),
{
    if cs.len() > 0 {
        lemma_children_too_deep(cs.subrange(0, cs.len() - 1), depth, max_depth);
        assert(rendered(cs[cs.len() - 1], depth, max_depth) == Seq::<char>::empty());
        assert(rendered_children(cs, depth, max_depth) =~= Seq::<char>::empty());
    }
}

/// Describes a UI tree: one line per element with a name or class,
/// indented two spaces per level, down to `max_depth` levels below the
/// root (the root is at `depth`).
pub fn render_tree(root: &UiNode, depth: usize, max_depth: usize) -> (s: String)
    ensures
        s@ == rendered(*root, depth as nat, max_depth as nat),
{
    let mut s = String::new();
    append_rendered(&mut s, root, depth, max_depth);
    assert(s@ =~= rendered(*root, depth as nat, max_depth as nat));
    s
}

} // verus!
