use bevytos::bridge::Bridge;
use bevytos::event::TextEvent;
use bevytos::ui::{canvas_view_for, page_text, placeholder_text, route, submit_text};
use bevytos::ui::{CanvasView, Counter, HostTarget, Page};

#[test]
fn counter_initial_render_shows_zero() {
    let counter = Counter::new();
    assert_eq!(counter.render(), 0);
}

#[test]
fn counter_shows_one_after_one_click() {
    let mut counter = Counter::new();
    counter.click();
    assert_eq!(counter.render(), 1);
}

#[test]
fn counter_shows_click_count() {
    let mut counter = Counter::new();
    for k in 1u64..=100 {
        counter.click();
        assert_eq!(counter.render(), k);
    }
}

#[test]
fn route_serves_counter_page_at_root() {
    assert_eq!(route("/"), Page::Home);
    assert_eq!(page_text(Page::Home), "Welcome to Leptos!");
}

#[test]
fn route_serves_canvas_page() {
    assert_eq!(route("/canvas"), Page::Canvas);
    assert_eq!(page_text(Page::Canvas), "Bevy Canvas Integration");
}

#[test]
fn undefined_path_renders_fallback_only() {
    for path in ["/nope", "", "/canvas/extra", "/CANVAS", "canvas"] {
        assert_eq!(route(path), Page::NotFound);
    }
    let fallback = page_text(Page::NotFound);
    assert_eq!(fallback, "Page not found.");
    assert_ne!(fallback, page_text(Page::Home));
    assert_ne!(fallback, page_text(Page::Canvas));
}

#[test]
fn canvas_page_variant_follows_the_host_target() {
    assert_eq!(canvas_view_for(HostTarget::BrowserCanvas), CanvasView::Live);
    assert_eq!(canvas_view_for(HostTarget::Other), CanvasView::Placeholder);
    assert_eq!(
        placeholder_text(),
        "Bevy Canvas is only available on the client side."
    );
}

#[test]
fn submit_text_sends_over_the_bridge() {
    let mut bridge: Bridge<TextEvent> = Bridge::new();
    bridge.attach_receiver();
    submit_text(&mut bridge, String::from("typed"));
    let mut queue: Vec<TextEvent> = Vec::new();
    bridge.drain_into(&mut queue);
    assert_eq!(queue.len(), 1);
    assert_eq!(queue[0].text, "typed");
}
