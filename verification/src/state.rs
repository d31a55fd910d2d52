use vstd::prelude::*;

verus! {

/// An event handed to the shell by the host's event loop.
#[derive(Debug, Clone, PartialEq, Eq)]
pub enum Message {
    /// The address bar's text changed; the shell takes no note of it.
    Empty,
    /// The address bar's text was submitted.
    Load,
}

/// What the shell asks of its host after handling a message.
#[derive(Debug, Clone, PartialEq, Eq)]
pub enum Action {
    /// Nothing: no navigation or fetch path exists yet.
    NoOp,
}

/// Ways loading a saved session could fail. Nothing produces or consumes
/// these yet; they stand ahead of the feature.
#[derive(Debug, Clone, PartialEq, Eq)]
pub enum LoadError {
    FileError,
    FormatError,
}

/// Ways saving a session could fail. Nothing produces or consumes these yet.
#[derive(Debug, Clone, PartialEq, Eq)]
pub enum SaveError {
    FileError,
    WriteError,
    FormatError,
}

/// The state of one browser tab: a loading flag, the address bar's text, and
/// the addresses visited before the current one. No code path mutates any of
/// these yet; the host's text input echoes keystrokes on its own.
#[derive(Debug)]
pub struct Tab {
    /// Whether a page load is in flight. No load path sets it.
    pub is_loading: bool,
    /// The text in the address bar.
    pub address: String,
    /// Addresses visited before the current one. Nothing pushes or pops.
    pub address_stack: Vec<String>,
}

impl Tab {
    /// A fresh tab: not loading, with an empty address bar and no history.
    pub fn new() -> (t: Tab)
        ensures
            !t.is_loading,
            t.address@ == Seq::<char>::empty(),
            t.address_stack@ == Seq::<String>::empty(),
    {
        Tab { is_loading: false, address: String::new(), address_stack: Vec::new() }
    }

    /// The window title, the same for every tab state.
    pub fn title(&self) -> (r: String)
        ensures
            r@ == "Rover Browser"@,
    {
        String::from_str("Rover Browser")
    }

    /// Handle one message. Every message, including the submit of the address
    /// bar, leaves the tab exactly as it was and asks nothing of the host:
    /// the shell has no navigation to perform yet.
    pub fn update(&mut self, message: Message) -> (a: Action)
        ensures
            *final(self) == *old(self),
            a == Action::NoOp,
    {
        match message {
            Message::Empty => Action::NoOp,
            Message::Load => Action::NoOp,
        }
    }
}

impl Default for Tab {
    /// The same blank state as `Tab::new`.
    fn default() -> (t: Tab)
        ensures
            !t.is_loading,
            t.address@ == Seq::<char>::empty(),
            t.address_stack@ == Seq::<String>::empty(),
    {
        Tab::new()
    }
}

} // verus!
