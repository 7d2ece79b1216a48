use vstd::prelude::*;
use crate::text::same_chars;
use crate::window::{
    GlobalMessage, Message, ScaleFactorShortcut, ScreenPoint, WindowEvent, WindowSize,
};

verus! {

/// An event from the windowing system, reduced to what the application
/// listens to.
#[derive(Clone, Debug)]
pub enum InputEvent {
    WindowMoved(ScreenPoint),
    WindowResized(WindowSize),
    WindowCloseRequested,
    WindowFocused,
    WindowUnfocused,
    /// Any other window event.
    OtherWindowEvent,
    /// A key press: whether the modifiers held are exactly the platform's
    /// command modifier, and the character the key produced, if any.
    KeyPressed { command_only: bool, character: Option<String> },
    /// Any other keyboard event.
    OtherKeyboardEvent,
    /// Any other event.
    Other,
}

/// The message a key press with the command modifier sends.
pub open spec fn spec_shortcut(character: Seq<char>) -> Option<Message> {
    if character == "q"@ {
        Some(Message::Global(GlobalMessage::Event(WindowEvent::CloseRequested)))
    } else if character == "="@ {
        Some(Message::Global(GlobalMessage::Event(WindowEvent::ScaleFactorShortcut(ScaleFactorShortcut::Increase))))
    } else if character == "-"@ {
        Some(Message::Global(GlobalMessage::Event(WindowEvent::ScaleFactorShortcut(ScaleFactorShortcut::Decrease))))
    } else {
        None
    }
}

/// The message an event sends, if any.
pub open spec fn spec_message_for(e: InputEvent) -> Option<Message> {
    match e {
        InputEvent::WindowMoved(p) => Some(Message::Global(GlobalMessage::Event(WindowEvent::Moved(p)))),
        InputEvent::WindowResized(s) => Some(Message::Global(GlobalMessage::Event(WindowEvent::Resized(s)))),
        InputEvent::WindowCloseRequested => Some(Message::Global(GlobalMessage::Event(WindowEvent::CloseRequested))),
        InputEvent::WindowFocused => Some(Message::Global(GlobalMessage::Event(WindowEvent::Focused))),
        InputEvent::WindowUnfocused => Some(Message::Global(GlobalMessage::Event(WindowEvent::Unfocused))),
        InputEvent::KeyPressed { command_only, character } => if command_only {
            match character {
                Some(c) => spec_shortcut(c@),
                None => None,
            }
        } else {
            None
        },
        _ => None,
    }
}

/// Turns an event into the message the application subscribes to: window
/// moves, resizes, close requests and focus changes, and the shortcuts
/// command+`q` (close), command+`=` (larger) and command+`-` (smaller).
pub fn message_for_event(e: &InputEvent) -> (m: Option<Message>)
    ensures
        m == spec_message_for(*e),
{
    match e {
        InputEvent::WindowMoved(p) => Some(Message::Global(GlobalMessage::Event(WindowEvent::Moved(*p)))),
        InputEvent::WindowResized(s) => Some(Message::Global(GlobalMessage::Event(WindowEvent::Resized(*s)))),
        InputEvent::WindowCloseRequested => Some(Message::Global(GlobalMessage::Event(WindowEvent::CloseRequested))),
        InputEvent::WindowFocused => Some(Message::Global(GlobalMessage::Event(WindowEvent::Focused))),
        InputEvent::WindowUnfocused => Some(Message::Global(GlobalMessage::Event(WindowEvent::Unfocused))),
        InputEvent::KeyPressed { command_only, character } => {
            if !*command_only {
                return None;
            }
            match character {
                Some(c) => {
                    let c = c.as_str();
                    if same_chars(c, "q") {
                        Some(Message::Global(GlobalMessage::Event(WindowEvent::CloseRequested)))
                    } else if same_chars(c, "=") {
                        Some(Message::Global(GlobalMessage::Event(WindowEvent::ScaleFactorShortcut(ScaleFactorShortcut::Increase))))
                    } else if same_chars(c, "-") {
                        Some(Message::Global(GlobalMessage::Event(WindowEvent::ScaleFactorShortcut(ScaleFactorShortcut::Decrease))))
                    } else {
                        None
                    }
                },
                None => None,
            }
        },
        _ => None,
    }
}

/// Each window event becomes the matching window message; key presses
/// count only with exactly the command modifier held, where `q` closes, `=`
/// enlarges and `-` shrinks the interface; everything else sends nothing.
pub proof fn lemma_event_translation(e: InputEvent)
    ensures
        e matches InputEvent::WindowMoved(p) ==> spec_message_for(e) == Some(
            Message::Global(GlobalMessage::Event(WindowEvent::Moved(p))),
        ),
        e matches InputEvent::WindowResized(s) ==> spec_message_for(e) == Some(
            Message::Global(GlobalMessage::Event(WindowEvent::Resized(s))),
        ),
        e is WindowCloseRequested ==> spec_message_for(e) == Some(
            Message::Global(GlobalMessage::Event(WindowEvent::CloseRequested)),
        ),
        e is WindowFocused ==> spec_message_for(e) == Some(Message::Global(GlobalMessage::Event(WindowEvent::Focused))),
        e is WindowUnfocused ==> spec_message_for(e) == Some(
            Message::Global(GlobalMessage::Event(WindowEvent::Unfocused)),
        ),
        (e is OtherWindowEvent || e is OtherKeyboardEvent || e is Other) ==> spec_message_for(e) is None,
        e matches InputEvent::KeyPressed { command_only, character } ==> {
            &&& !command_only ==> spec_message_for(e) is None
            &&& character is None ==> spec_message_for(e) is None
            &&& (command_only && character is Some) ==> {
                let c = character.unwrap()@;
                &&& c == seq!['q'] ==> spec_message_for(e) == Some(
                    Message::Global(GlobalMessage::Event(WindowEvent::CloseRequested)),
                )
                &&& c == seq!['='] ==> spec_message_for(e) == Some(
                    Message::Global(
                        GlobalMessage::Event(WindowEvent::ScaleFactorShortcut(ScaleFactorShortcut::Increase)),
                    ),
                )
                &&& c == seq!['-'] ==> spec_message_for(e) == Some(
                    Message::Global(
                        GlobalMessage::Event(WindowEvent::ScaleFactorShortcut(ScaleFactorShortcut::Decrease)),
                    ),
                )
                &&& (c != seq!['q'] && c != seq!['='] && c != seq!['-']) ==> spec_message_for(e) is None
            }
        },
{
    reveal_strlit("q");
    reveal_strlit("=");
    reveal_strlit("-");
    assert("q"@ =~= seq!['q']);
    assert("="@ =~= seq!['=']);
    assert("-"@ =~= seq!['-']);
    assert(seq!['='][0] != seq!['q'][0]);
    assert(seq!['-'][0] != seq!['q'][0]);
    assert(seq!['-'][0] != seq!['='][0]);
}

} // verus!
