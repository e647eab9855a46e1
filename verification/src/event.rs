use vstd::prelude::*;

verus! {

/// A user text submission, produced by the UI input handler on every input
/// change and consumed exactly once by the simulation's per-frame reader.
///
/// The value has no identity beyond the text it carries: ownership moves into
/// the bridge on send and into the simulation's event queue on receive, and it
/// is never persisted.
pub struct TextEvent {
    pub text: String,
}

impl View for TextEvent {
    type V = Seq<char>;

    open spec fn view(&self) -> Seq<char> {
        self.text@
    }
}

} // verus!
