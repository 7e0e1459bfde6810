use orzma::preload::{build_dynamic_preload, build_preload, context_preload_js, context_preload_js_role, decimal_string, webview_url};

const BRIDGE: &str = "/* host bridge */";

#[test]
fn context_preload_js_assigns_window_context_with_workspace_bits_as_window_id() {
    let (workspace, pane, surface) = (4294967297u64, 12u64, 13u64);
    let js = context_preload_js(workspace, pane, surface, "memo");
    let s = workspace.to_string();
    assert!(js.starts_with("window.__ozmuxContext="));
    assert!(js.ends_with("};"));
    assert!(js.contains(&format!("sessionId:\"{s}\"")));
    assert!(js.contains(&format!("windowId:\"{s}\"")), "windowId must equal sessionId per the design");
    assert!(js.contains(&format!("paneId:\"{}\"", pane)));
    assert!(js.contains(&format!("surfaceId:\"{}\"", surface)));
    assert!(js.contains("role:\"extension\""));
    assert!(js.contains("extensionName:\"memo\""));
}

#[test]
fn context_script_is_exactly_the_documented_statement() {
    assert_eq!(
        context_preload_js_role(1, 2, 3, "dynamic", ""),
        "window.__ozmuxContext={sessionId:\"1\",windowId:\"1\",paneId:\"2\",surfaceId:\"3\",role:\"dynamic\",extensionName:\"\"};"
    );
}

#[test]
fn build_preload_orders_context_grant_then_bridge() {
    let preload = build_preload(1, 2, 3, "memo", &vec!["fs".to_string()], BRIDGE).unwrap();
    assert_eq!(preload.len(), 3);
    assert!(preload[0].starts_with("window.__ozmuxContext="));
    assert_eq!(preload[1], "window.__ozmuxGranted=[\"fs\"];");
    assert_eq!(preload[2], BRIDGE);
}

#[test]
fn dynamic_preload_has_context_only_no_bridge() {
    let preload = build_dynamic_preload(1, 2, 3);
    assert_eq!(preload.len(), 1, "dynamic preload is context-only");
    assert!(preload[0].starts_with("window.__ozmuxContext="));
    assert!(!preload.iter().any(|s| s.contains("__ozmuxGranted") || s == BRIDGE));
}

#[test]
fn build_preload_serializes_an_empty_grant_as_empty_array() {
    let preload = build_preload(1, 2, 3, "memo", &Vec::new(), BRIDGE).unwrap();
    assert_eq!(preload[1], "window.__ozmuxGranted=[];");
}

#[test]
fn a_grant_name_is_escaped_as_json() {
    let preload = build_preload(1, 2, 3, "memo", &vec!["a\"b".to_string(), "c".to_string()], BRIDGE).unwrap();
    assert_eq!(preload[1], "window.__ozmuxGranted=[\"a\\\"b\",\"c\"];");
}

#[test]
fn names_with_quotes_are_debug_quoted_in_the_context() {
    let js = context_preload_js(1, 2, 3, "m\"x");
    assert!(js.contains("extensionName:\"m\\\"x\""));
}

#[test]
fn webview_url_joins_name_and_entry() {
    assert_eq!(webview_url("memo", "ui/dash.html"), "ozmux-ext://memo/ui/dash.html");
}

#[test]
fn decimal_string_renders_every_digit() {
    assert_eq!(decimal_string(0), "0");
    assert_eq!(decimal_string(7), "7");
    assert_eq!(decimal_string(1234567890), "1234567890");
    assert_eq!(decimal_string(u64::MAX), u64::MAX.to_string());
}

#[test]
fn the_grant_escapes_json_specials_and_keeps_other_characters() {
    let caps = vec!["b\\s".to_string(), "l\nf".to_string(), "c\u{1}t".to_string(), "é✓".to_string()];
    let preload = build_preload(1, 2, 3, "memo", &caps, BRIDGE).unwrap();
    assert_eq!(preload[1], "window.__ozmuxGranted=[\"b\\\\s\",\"l\\nf\",\"c\\u0001t\",\"é✓\"];");
}

#[test]
fn the_grant_names_each_capability_once_in_first_order() {
    let caps = vec!["net".to_string(), "fs".to_string(), "net".to_string()];
    let preload = build_preload(1, 2, 3, "memo", &caps, BRIDGE).unwrap();
    assert_eq!(preload[1], "window.__ozmuxGranted=[\"net\",\"fs\"];");
}
