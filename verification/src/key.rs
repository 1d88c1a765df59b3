use vstd::prelude::*;

verus! {

/// A key event, as far as the editor core cares about it. The
/// surrounding program translates whatever its input source delivers
/// into one of these: the eight navigation keys, the quit chord, and
/// `Other` for every key the core ignores.
#[derive(Clone, Copy, Debug, PartialEq, Eq, Structural)]
pub enum Key {
    Up,
    Down,
    Left,
    Right,
    PageUp,
    PageDown,
    Home,
    End,
    Quit,
    Other,
}

/// The keys that move the cursor.
pub open spec fn is_navigation_key(key: Key) -> bool {
    match key {
        Key::Up | Key::Down | Key::Left | Key::Right | Key::PageUp | Key::PageDown | Key::Home
        | Key::End => true,
        Key::Quit | Key::Other => false,
    }
}

} // verus!
