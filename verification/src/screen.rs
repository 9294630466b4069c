//! Pure state for the terminal front end: the UI phases and the chat
//! screen's section cycling. Rendering and input handling live with the
//! caller; nothing here touches a terminal.

use vstd::prelude::*;

verus! {

/// The UI phases a client session moves through.
#[derive(Debug, PartialEq, Eq)]
pub enum Phase {
    Connect,
    Connecting,
    Welcome,
    Chat,
    Search,
}

/// Which welcome action the user picked.
#[derive(Debug, Copy, Clone, PartialEq, Eq)]
pub enum WelcomeMode {
    Login,
    Register,
}

/// The focusable sections of the chat screen, in cycling order.
#[derive(Debug, Clone, Copy, PartialEq, Eq, Structural)]
pub enum ChatSection {
    Contacts,
    Messages,
    Input,
}

/// The position of a section in the cycling order.
pub open spec fn section_index(s: ChatSection) -> int {
    match s {
        ChatSection::Contacts => 0,
        ChatSection::Messages => 1,
        ChatSection::Input => 2,
    }
}

/// The section at a position; anything past the end falls back to `Input`.
pub open spec fn section_at(i: int) -> ChatSection {
    if i == 0 {
        ChatSection::Contacts
    } else if i == 1 {
        ChatSection::Messages
    } else {
        ChatSection::Input
    }
}

impl ChatSection {
    /// Every section, in cycling order.
    pub fn all() -> (v: Vec<ChatSection>)
        ensures
            v@ == seq![ChatSection::Contacts, ChatSection::Messages, ChatSection::Input],
    {
        let mut v: Vec<ChatSection> = Vec::new();
        v.push(ChatSection::Contacts);
        v.push(ChatSection::Messages);
        v.push(ChatSection::Input);
        proof {
            assert(v@ =~= seq![
                ChatSection::Contacts,
                ChatSection::Messages,
                ChatSection::Input,
            ]);
        }
        v
    }

    /// The section after this one; stepping past the end stays on `Input`.
    pub fn next(&self) -> (s: ChatSection)
        ensures
            s == section_at(section_index(*self) + 1),
    {
        let idx = self.to_index();
        ChatSection::from_index(idx + 1)
    }

    /// The section before this one; stepping before the start stays on
    /// `Contacts`.
    pub fn prev(&self) -> (s: ChatSection)
        ensures
            s == section_at(
                if section_index(*self) == 0 {
                    0int
                } else {
                    section_index(*self) - 1
                },
            ),
    {
        let idx = self.to_index();
        if idx == 0 {
            ChatSection::from_index(0)
        } else {
            ChatSection::from_index(idx - 1)
        }
    }

    /// This section's position in the cycling order.
    pub fn to_index(&self) -> (i: usize)
        ensures
            i == section_index(*self),
    {
        match self {
            ChatSection::Contacts => 0,
            ChatSection::Messages => 1,
            ChatSection::Input => 2,
        }
    }

    /// The section at a position, falling back to `Input` past the end.
    pub fn from_index(i: usize) -> (s: ChatSection)
        ensures
            s == section_at(i as int),
    {
        if i == 0 {
            ChatSection::Contacts
        } else if i == 1 {
            ChatSection::Messages
        } else {
            ChatSection::Input
        }
    }
}

} // verus!
