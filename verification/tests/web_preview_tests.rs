use warp_app::web_preview::{PanelEffect, WebPreviewPanelAction, WebPreviewPanelView};

fn show(s: &str) -> PanelEffect {
    PanelEffect::Show(s.to_string())
}

#[test]
fn new_panel_is_blank() {
    let p = WebPreviewPanelView::new();
    assert_eq!(p.current_url(), "https://");
    assert!(!p.has_page());
}

#[test]
fn navigate_normalizes_and_ignores_blank() {
    let mut p = WebPreviewPanelView::new();
    assert_eq!(p.navigate("".to_string()), PanelEffect::Nothing);
    assert_eq!(p.navigate("https://".to_string()), PanelEffect::Nothing);
    assert_eq!(p.current_url(), "https://");
    assert_eq!(p.navigate("example.com".to_string()), show("https://example.com"));
    assert_eq!(p.current_url(), "https://example.com");
    assert!(p.has_page());
    assert_eq!(p.navigate("http://localhost:3000".to_string()), show("http://localhost:3000"));
    assert_eq!(p.current_url(), "http://localhost:3000");
}

#[test]
fn back_and_forward_walk_history() {
    let mut p = WebPreviewPanelView::new();
    p.navigate("a.com".to_string());
    p.navigate("b.com".to_string());
    assert_eq!(p.go_forward(), PanelEffect::Nothing);
    assert_eq!(p.go_back(), show("https://a.com"));
    assert_eq!(p.go_back(), show("https://"));
    assert_eq!(p.go_back(), PanelEffect::Nothing);
    assert_eq!(p.go_forward(), show("https://a.com"));
    assert_eq!(p.go_forward(), show("https://b.com"));
    assert_eq!(p.go_forward(), PanelEffect::Nothing);
}

#[test]
fn navigate_drops_forward_history() {
    let mut p = WebPreviewPanelView::new();
    p.navigate("a.com".to_string());
    p.navigate("b.com".to_string());
    p.go_back();
    p.navigate("c.com".to_string());
    assert_eq!(p.go_forward(), PanelEffect::Nothing);
    assert_eq!(p.go_back(), show("https://a.com"));
    assert_eq!(p.go_forward(), show("https://c.com"));
}

#[test]
fn handle_action_uses_trimmed_input() {
    let mut p = WebPreviewPanelView::new();
    assert_eq!(p.handle_action(&WebPreviewPanelAction::OpenInBrowser, ""), PanelEffect::Nothing);
    assert_eq!(p.handle_action(&WebPreviewPanelAction::Navigate, "   "), PanelEffect::Nothing);
    assert_eq!(
        p.handle_action(&WebPreviewPanelAction::Navigate, "  docs.rs \n"),
        show("https://docs.rs")
    );
    assert_eq!(
        p.handle_action(&WebPreviewPanelAction::OpenInBrowser, "ignored"),
        PanelEffect::OpenExternal("https://docs.rs".to_string())
    );
    assert_eq!(p.handle_action(&WebPreviewPanelAction::Back, ""), show("https://"));
    assert_eq!(p.handle_action(&WebPreviewPanelAction::Forward, ""), show("https://docs.rs"));
}
