use resugar::capture::AstNode;
use resugar::hygiene_test;
use resugar::ir::{Node, RenderError};
use resugar::render::run;

fn txt(s: &str) -> Node {
    Node::Text(s.to_string())
}

fn bind(sym: u64, id: u64, name: &str) -> Node {
    Node::Binding { sym, id, text: name.to_string() }
}

fn use_of(target: u64, name: &str) -> Node {
    Node::UseSite { target, text: name.to_string() }
}

fn cat(nodes: Vec<Node>) -> Node {
    let mut it = nodes.into_iter();
    let first = it.next().expect("at least one node");
    it.fold(first, |acc, n| Node::Pair(Box::new(acc), Box::new(n)))
}

const X: u64 = 1;

#[test]
fn hygiene_example_renders_suffixes() {
    // let x = 1; (macro referencing the first x) let x = 2; x + first_x!()
    let ir = Node::Body(Box::new(cat(vec![
        txt("let "),
        bind(X, 10, "x"),
        txt(" = 1; let "),
        bind(X, 11, "x"),
        txt(" = 2; "),
        use_of(11, "x"),
        txt(" + "),
        use_of(10, "x"),
    ])));
    let out = run(&AstNode::Plain, &ir).unwrap();
    assert_eq!(out.as_str(), "let x = 1; let x_0 = 2; x_0 + x");
}

#[test]
fn every_use_carries_its_binding_marker() {
    let ir = cat(vec![
        bind(X, 10, "x"),
        bind(X, 11, "x"),
        bind(X, 12, "x"),
        txt(" "),
        use_of(10, "x"),
        use_of(11, "x"),
        use_of(12, "x"),
        use_of(11, "x"),
    ]);
    let out = run(&AstNode::Plain, &ir).unwrap();
    assert_eq!(out.as_str(), "xx_0x_1 xx_0x_1x_0");
}

#[test]
fn sibling_units_restart_unadorned() {
    let unit = || Node::Body(Box::new(cat(vec![bind(X, 10, "x"), bind(X, 11, "x")])));
    let two = Node::Pair(
        Box::new(Node::Body(Box::new(cat(vec![bind(X, 20, "x"), bind(X, 21, "x")])))),
        Box::new(unit()),
    );
    let out = run(&AstNode::Plain, &two).unwrap();
    assert_eq!(out.as_str(), "xx_0xx_0");
}

#[test]
fn format_call_substituted_verbatim() {
    // a structured-formatting call with literal template "{}" and argument x
    let original = "format!(\"{}\", x)";
    let canonical = "FormatArguments::new_v1(&[\"\"], &[ArgumentV1::new_display(&x)])";
    let ast = AstNode::FormatArgs(original.to_string(), Box::new(AstNode::Plain));
    let ir = Node::IntrinsicCall { canonical: canonical.to_string() };
    let out = run(&ast, &ir).unwrap();
    let expected = format!("/* {} */{}", canonical, original);
    assert_eq!(out, expected);
}

#[test]
fn captures_substituted_in_visit_order() {
    // nested matches are captured pre-order: outer, inner, then the sibling
    let ast = AstNode::Concat(
        Box::new(AstNode::FormatArgs(
            "format!(\"{a}\")".to_string(),
            Box::new(AstNode::Concat(
                Box::new(AstNode::Plain),
                Box::new(AstNode::FormatArgs("format!(\"{b}\")".to_string(), Box::new(AstNode::Plain))),
            )),
        )),
        Box::new(AstNode::FormatArgs("format!(\"{c}\")".to_string(), Box::new(AstNode::Plain))),
    );
    let ir = cat(vec![
        Node::IntrinsicCall { canonical: "c1".to_string() },
        txt("\n"),
        Node::IntrinsicCall { canonical: "c2".to_string() },
        txt("\n"),
        Node::IntrinsicCall { canonical: "c3".to_string() },
    ]);
    let out = run(&ast, &ir).unwrap();
    assert_eq!(
        out.as_str(),
        "/* c1 */format!(\"{a}\")\n/* c2 */format!(\"{b}\")\n/* c3 */format!(\"{c}\")"
    );
}

#[test]
fn canonical_reference_comment_then_path() {
    let ir = Node::IntrinsicRef {
        canonical: "#[lang_item] format_arguments".to_string(),
        path: "core::fmt::Arguments".to_string(),
        member: "new_const".to_string(),
    };
    let out = run(&AstNode::Plain, &ir).unwrap();
    assert_eq!(
        out.as_str(),
        "#![allow(internal_features)]\n/* #[lang_item] format_arguments */core::fmt::Arguments::new_const"
    );
}

#[test]
fn compat_decls_only_when_reference_present() {
    let plain = cat(vec![txt("fn main() {}")]);
    let out = run(&AstNode::Plain, &plain).unwrap();
    assert_eq!(out.as_str(), "fn main() {}");

    let with_ref = Node::Body(Box::new(Node::IntrinsicRef {
        canonical: "fa".to_string(),
        path: "core::fmt::Arguments".to_string(),
        member: "new_v1".to_string(),
    }));
    let out = run(&AstNode::Plain, &with_ref).unwrap();
    assert!(out.starts_with("#![allow(internal_features)]\n"));
}

#[test]
fn unbound_use_aborts() {
    let ir = cat(vec![bind(X, 10, "x"), use_of(99, "y")]);
    assert_eq!(run(&AstNode::Plain, &ir), Err(RenderError::UnboundUse));
}

#[test]
fn use_after_unit_boundary_aborts() {
    // the boundary wipes the registration, so a use resolving across it is
    // the internal inconsistency the engine must refuse
    let ir = Node::Pair(
        Box::new(Node::Body(Box::new(bind(X, 10, "x")))),
        Box::new(use_of(10, "x")),
    );
    assert_eq!(run(&AstNode::Plain, &ir), Err(RenderError::UnboundUse));
}

#[test]
fn drained_queue_aborts() {
    let ast = AstNode::FormatArgs("format!(\"{}\", x)".to_string(), Box::new(AstNode::Plain));
    let ir = cat(vec![
        Node::IntrinsicCall { canonical: "c1".to_string() },
        Node::IntrinsicCall { canonical: "c2".to_string() },
    ]);
    assert_eq!(run(&ast, &ir), Err(RenderError::ExhaustedCaptures));
}

#[test]
fn two_digit_suffixes_render() {
    let mut nodes = Vec::new();
    for i in 0..12u64 {
        nodes.push(bind(X, 10 + i, "x"));
    }
    let out = run(&AstNode::Plain, &cat(nodes)).unwrap();
    assert_eq!(out.as_str(), "xx_0x_1x_2x_3x_4x_5x_6x_7x_8x_9x_10");
}

#[test]
fn hygiene_test_resolves_to_first_binding() {
    assert_eq!(hygiene_test(), 3);
}
