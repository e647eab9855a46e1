use vstd::prelude::*;

use crate::bridge::{sent, Bridge};
use crate::event::TextEvent;

verus! {

/// State of the counter page: one integer cell, initialized to zero, with no
/// persistence and no upper bound of its own (only the machine word limits
/// how far it can count).
#[derive(Clone, Copy, Debug, PartialEq, Eq, Structural)]
pub struct Counter {
    count: u64,
}

impl Counter {
    /// The current count.
    pub closed spec fn value(&self) -> u64 {
        self.count
    }

    /// A freshly rendered counter page shows zero.
    pub fn new() -> (counter: Counter)
        ensures
            counter.value() == 0,
    {
        Counter { count: 0 }
    }

    /// The click handler: one click increments the cell by one, and the view
    /// re-renders reactively.
    pub fn click(&mut self)
        requires
            old(self).value() < u64::MAX,
        ensures
            final(self).value() == old(self).value() + 1,
    {
        self.count = self.count + 1;
    }

    /// What the page shows: the current count.
    pub fn render(&self) -> (shown: u64)
        ensures
            shown == self.value(),
    {
        self.count
    }
}

/// The count a fresh counter page shows after `clicks` click events.
pub open spec fn count_after_clicks(clicks: nat) -> nat
    decreases clicks,
{
    if clicks == 0 {
        0
    } else {
        count_after_clicks((clicks - 1) as nat) + 1
    }
}

/// Counter law: starting from the initial render, firing the click handler
/// `clicks` times leaves the page showing exactly `clicks`, for every count
/// of clicks, with no upper bound of the page's own.
pub proof fn lemma_counter_shows_click_count(clicks: nat)
    ensures
        count_after_clicks(clicks) == clicks,
    decreases clicks,
{
    if clicks > 0 {
        lemma_counter_shows_click_count((clicks - 1) as nat);
    }
}

/// One routed view of the application.
#[derive(Clone, Copy, Debug, PartialEq, Eq, Structural)]
pub enum Page {
    /// The counter page, at the root path.
    Home,
    /// The canvas page carrying the input box and the simulation.
    Canvas,
    /// The fallback view for every unmatched path.
    NotFound,
}

/// The route table: the root path serves the counter page, the canvas path
/// serves the canvas page, and every other path falls back to the not-found
/// view. There are no query parameters and no further routing state.
pub open spec fn spec_route(path: Seq<char>) -> Page {
    if path == "/"@ {
        Page::Home
    } else if path == "/canvas"@ {
        Page::Canvas
    } else {
        Page::NotFound
    }
}

/// Resolves a visited path to the view it renders.
pub fn route(path: &str) -> (page: Page)
    ensures
        page == spec_route(path@),
{
    let p = String::from_str(path);
    if p == String::from_str("/") {
        Page::Home
    } else if p == String::from_str("/canvas") {
        Page::Canvas
    } else {
        Page::NotFound
    }
}

/// The heading text each routed view renders; the fallback view renders the
/// not-found text and nothing else.
pub open spec fn spec_page_text(page: Page) -> Seq<char> {
    match page {
        Page::Home => "Welcome to Leptos!"@,
        Page::Canvas => "Bevy Canvas Integration"@,
        Page::NotFound => "Page not found."@,
    }
}

/// The text content a routed view presents.
pub fn page_text(page: Page) -> (text: String)
    ensures
        text@ == spec_page_text(page),
{
    match page {
        Page::Home => String::from_str("Welcome to Leptos!"),
        Page::Canvas => String::from_str("Bevy Canvas Integration"),
        Page::NotFound => String::from_str("Page not found."),
    }
}

/// What the host execution target is capable of. Chosen once, when the canvas
/// page is constructed, never re-examined during rendering.
#[derive(Clone, Copy, Debug, PartialEq, Eq, Structural)]
pub enum HostTarget {
    /// A browser with a canvas: the page can mount the simulation.
    BrowserCanvas,
    /// Any other execution target.
    Other,
}

/// The variant the canvas page renders as.
#[derive(Clone, Copy, Debug, PartialEq, Eq, Structural)]
pub enum CanvasView {
    /// A text input wired to the bridge, plus the mounted simulation canvas.
    Live,
    /// An inert informational placeholder; no bridge and no simulation are
    /// constructed.
    Placeholder,
}

/// Capability check of the canvas page: only a browser target mounts the
/// input box and the simulation; every other target gets the placeholder.
pub fn canvas_view_for(target: HostTarget) -> (view: CanvasView)
    ensures
        view == (match target {
            HostTarget::BrowserCanvas => CanvasView::Live,
            HostTarget::Other => CanvasView::Placeholder,
        }),
{
    match target {
        HostTarget::BrowserCanvas => CanvasView::Live,
        HostTarget::Other => CanvasView::Placeholder,
    }
}

/// The placeholder text the canvas page renders off the browser target.
pub fn placeholder_text() -> (text: String)
    ensures
        text@ == "Bevy Canvas is only available on the client side."@,
{
    String::from_str("Bevy Canvas is only available on the client side.")
}

/// The input-change handler of the canvas page: wraps the input's current
/// text in a `TextEvent` and sends it over the bridge. Fire and forget: the
/// send has no failure path, and the value is silently discarded when the
/// receiver is gone.
pub fn submit_text(bridge: &mut Bridge<TextEvent>, text: String)
    ensures
        final(bridge).is_live() == old(bridge).is_live(),
        final(bridge).pending() == sent(
            old(bridge).pending(),
            old(bridge).is_live(),
            (TextEvent { text }),
        ),
{
    bridge.send(TextEvent { text });
}

} // verus!
