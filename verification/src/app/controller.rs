use vstd::prelude::*;

verus! {

/// The bit of the control modifier in a set of key modifiers.
pub const CONTROL: u8 = 0b0000_0010u8;

/// A key of the keyboard, as far as the viewer tells keys apart.
#[derive(Clone, Copy, Debug, PartialEq, Eq, Structural)]
pub enum Key {
    Char(char),
    Left,
    Right,
    Up,
    Down,
    PageUp,
    PageDown,
    Home,
    End,
    Other,
}

/// What happened to a key.
#[derive(Clone, Copy, Debug, PartialEq, Eq, Structural)]
pub enum KeyKind {
    Press,
    Repeat,
    Release,
}

/// A key event: the key, the set of modifiers held (one bit each, the
/// control modifier being [`CONTROL`]) and what happened to the key.
#[derive(Clone, Copy, Debug, PartialEq, Eq, Structural)]
pub struct KeyInput {
    pub key: Key,
    pub modifiers: u8,
    pub kind: KeyKind,
}

/// An event of the terminal.
#[derive(Clone, Copy, Debug, PartialEq, Eq, Structural)]
pub enum TerminalEvent {
    Key(KeyInput),
    ScrollWheelUp,
    ScrollWheelDown,
    Resize { width: u16, height: u16 },
    Other,
}

/// What the viewer does next.
#[derive(Clone, Copy, Debug, PartialEq, Eq, Structural)]
pub enum Action {
    Quit,
    BackwardCommit,
    ForwardCommit,
    ScrollLineUp,
    ScrollLineDown,
    ScrollPageUp,
    ScrollPageDown,
    ScrollToTop,
    ScrollToBottom,
    UpdateTerminalHeight(usize),
    Stay,
}

/// The keymap of the viewer: `q`, or `c` or `d` with control alone, quits;
/// Left and Right go to the previous (older) and next (newer) commit; Up and
/// Down, and the scroll wheel, scroll by a line; PageUp and PageDown by a
/// page; Home and End to the top and the bottom. Keys act when pressed. A
/// resize sets the terminal height; anything else changes nothing.
pub open spec fn action_for(e: TerminalEvent) -> Action {
    match e {
        TerminalEvent::Key(k) => if k.kind != KeyKind::Press {
            Action::Stay
        } else {
            match k.key {
                Key::Char(c) => if c == 'q' || ((c == 'c' || c == 'd') && k.modifiers == CONTROL) {
                    Action::Quit
                } else {
                    Action::Stay
                },
                Key::Left => Action::BackwardCommit,
                Key::Right => Action::ForwardCommit,
                Key::Up => Action::ScrollLineUp,
                Key::Down => Action::ScrollLineDown,
                Key::PageUp => Action::ScrollPageUp,
                Key::PageDown => Action::ScrollPageDown,
                Key::Home => Action::ScrollToTop,
                Key::End => Action::ScrollToBottom,
                Key::Other => Action::Stay,
            }
        },
        TerminalEvent::ScrollWheelUp => Action::ScrollLineUp,
        TerminalEvent::ScrollWheelDown => Action::ScrollLineDown,
        TerminalEvent::Resize { width, height } => Action::UpdateTerminalHeight(height as usize),
        TerminalEvent::Other => Action::Stay,
    }
}

/// What the viewer does on `event`, by its keymap.
pub fn next_action(event: &TerminalEvent) -> (a: Action)
    ensures
        a == action_for(*event),
        event matches TerminalEvent::Key(k) && k.kind != KeyKind::Press ==> a == Action::Stay,
{
    proof {
        if let TerminalEvent::Key(k) = *event {
            if k.kind != KeyKind::Press {
                lemma_only_presses_act(k);
            }
        }
    }
    match event {
        TerminalEvent::Key(k) => {
            match k.kind {
                KeyKind::Press => {},
                _ => return Action::Stay,
            }
            match k.key {
                Key::Char(c) => {
                    if c == 'q' || ((c == 'c' || c == 'd') && k.modifiers == CONTROL) {
                        Action::Quit
                    } else {
                        Action::Stay
                    }
                },
                Key::Left => Action::BackwardCommit,
                Key::Right => Action::ForwardCommit,
                Key::Up => Action::ScrollLineUp,
                Key::Down => Action::ScrollLineDown,
                Key::PageUp => Action::ScrollPageUp,
                Key::PageDown => Action::ScrollPageDown,
                Key::Home => Action::ScrollToTop,
                Key::End => Action::ScrollToBottom,
                Key::Other => Action::Stay,
            }
        },
        TerminalEvent::ScrollWheelUp => Action::ScrollLineUp,
        TerminalEvent::ScrollWheelDown => Action::ScrollLineDown,
        TerminalEvent::Resize { width: _, height } => Action::UpdateTerminalHeight(*height as usize),
        TerminalEvent::Other => Action::Stay,
    }
}

/// Only a press acts: a key that is repeated or released leaves everything
/// as it is, whatever the key and the modifiers, so that one press and its
/// release make one move.
pub proof fn lemma_only_presses_act(k: KeyInput)
    requires
        k.kind != KeyKind::Press,
    ensures
        action_for(TerminalEvent::Key(k)) == Action::Stay,
{
}

/// A press of `q` quits whatever the modifiers; `c` and `d` quit only with
/// control alone; no other character key does anything.
pub proof fn lemma_quit_keys(c: char, modifiers: u8)
    ensures
        action_for(TerminalEvent::Key(KeyInput { key: Key::Char('q'), modifiers, kind: KeyKind::Press }))
            == Action::Quit,
        (c == 'c' || c == 'd') ==> (action_for(
            TerminalEvent::Key(KeyInput { key: Key::Char(c), modifiers, kind: KeyKind::Press }),
        ) == Action::Quit <==> modifiers == CONTROL),
        (c != 'q' && c != 'c' && c != 'd') ==> action_for(
            TerminalEvent::Key(KeyInput { key: Key::Char(c), modifiers, kind: KeyKind::Press }),
        ) == Action::Stay,
{
}

/// A resize sets the terminal height to the new number of rows, whatever
/// the number of columns.
pub proof fn lemma_resize_sets_height(width: u16, height: u16)
    ensures
        action_for(TerminalEvent::Resize { width, height }) == Action::UpdateTerminalHeight(
            height as usize,
        ),
{
}

} // verus!
