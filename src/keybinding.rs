//! Hotkey bindings and the closed set of actions they trigger.
use vstd::prelude::*;
use crate::text::same_text;

verus! {

#[derive(Clone, Copy, Debug, PartialEq, Eq, Structural)]
pub enum Direction {
    Left,
    Right,
    Up,
    Down,
}

#[derive(Clone, Copy, Debug, PartialEq, Eq, Structural)]
pub enum SplitDirection {
    Horizontal,
    Vertical,
}

/// The direction a name stands for.
pub open spec fn direction_named(name: Seq<char>) -> Option<Direction> {
    if name == "Left"@ {
        Some(Direction::Left)
    } else if name == "Right"@ {
        Some(Direction::Right)
    } else if name == "Up"@ {
        Some(Direction::Up)
    } else if name == "Down"@ {
        Some(Direction::Down)
    } else {
        None
    }
}

/// The split direction a name stands for.
pub open spec fn split_direction_named(name: Seq<char>) -> Option<SplitDirection> {
    if name == "Horizontal"@ {
        Some(SplitDirection::Horizontal)
    } else if name == "Vertical"@ {
        Some(SplitDirection::Vertical)
    } else {
        None
    }
}

impl Direction {
    /// Parses `Left`, `Right`, `Up` or `Down`.
    pub fn parse(name: &str) -> (r: Option<Direction>)
        ensures
            r == direction_named(name@),
    {
        if same_text(name, "Left") {
            Some(Direction::Left)
        } else if same_text(name, "Right") {
            Some(Direction::Right)
        } else if same_text(name, "Up") {
            Some(Direction::Up)
        } else if same_text(name, "Down") {
            Some(Direction::Down)
        } else {
            None
        }
    }
}

impl SplitDirection {
    /// Parses `Horizontal` or `Vertical`.
    pub fn parse(name: &str) -> (r: Option<SplitDirection>)
        ensures
            r == split_direction_named(name@),
    {
        if same_text(name, "Horizontal") {
            Some(SplitDirection::Horizontal)
        } else if same_text(name, "Vertical") {
            Some(SplitDirection::Vertical)
        } else {
            None
        }
    }
}

/// What a hotkey does.
#[derive(Clone, Debug)]
pub enum KeybindingType {
    CloseTile,
    IgnoreTile,
    MinimizeTile,
    ResetRow,
    ResetColumn,
    Quit,
    ChangeWorkspace(i32),
    MoveToWorkspace(i32),
    MoveWorkspaceToMonitor(i32),
    ToggleFloatingMode,
    ToggleFullscreen,
    ToggleWorkMode,
    ToggleMode(String),
    IncrementConfig(String, i32),
    DecrementConfig(String, i32),
    ToggleConfig(String),
    Launch(String),
    Focus(Direction),
    Resize(Direction, i32),
    Swap(Direction),
    Split(SplitDirection),
    /// A scripted callback, by the key it was registered under.
    Callback(usize),
}

/// An action with its texts as characters.
pub enum ActionView {
    CloseTile,
    IgnoreTile,
    MinimizeTile,
    ResetRow,
    ResetColumn,
    Quit,
    ChangeWorkspace(i32),
    MoveToWorkspace(i32),
    MoveWorkspaceToMonitor(i32),
    ToggleFloatingMode,
    ToggleFullscreen,
    ToggleWorkMode,
    ToggleMode(Seq<char>),
    IncrementConfig(Seq<char>, i32),
    DecrementConfig(Seq<char>, i32),
    ToggleConfig(Seq<char>),
    Launch(Seq<char>),
    Focus(Direction),
    Resize(Direction, i32),
    Swap(Direction),
    Split(SplitDirection),
    Callback(usize),
}

impl View for KeybindingType {
    type V = ActionView;

    open spec fn view(&self) -> ActionView {
        match self {
            KeybindingType::CloseTile => ActionView::CloseTile,
            KeybindingType::IgnoreTile => ActionView::IgnoreTile,
            KeybindingType::MinimizeTile => ActionView::MinimizeTile,
            KeybindingType::ResetRow => ActionView::ResetRow,
            KeybindingType::ResetColumn => ActionView::ResetColumn,
            KeybindingType::Quit => ActionView::Quit,
            KeybindingType::ChangeWorkspace(i) => ActionView::ChangeWorkspace(*i),
            KeybindingType::MoveToWorkspace(i) => ActionView::MoveToWorkspace(*i),
            KeybindingType::MoveWorkspaceToMonitor(i) => ActionView::MoveWorkspaceToMonitor(*i),
            KeybindingType::ToggleFloatingMode => ActionView::ToggleFloatingMode,
            KeybindingType::ToggleFullscreen => ActionView::ToggleFullscreen,
            KeybindingType::ToggleWorkMode => ActionView::ToggleWorkMode,
            KeybindingType::ToggleMode(m) => ActionView::ToggleMode(m@),
            KeybindingType::IncrementConfig(f, v) => ActionView::IncrementConfig(f@, *v),
            KeybindingType::DecrementConfig(f, v) => ActionView::DecrementConfig(f@, *v),
            KeybindingType::ToggleConfig(f) => ActionView::ToggleConfig(f@),
            KeybindingType::Launch(c) => ActionView::Launch(c@),
            KeybindingType::Focus(d) => ActionView::Focus(*d),
            KeybindingType::Resize(d, a) => ActionView::Resize(*d, *a),
            KeybindingType::Swap(d) => ActionView::Swap(*d),
            KeybindingType::Split(d) => ActionView::Split(*d),
            KeybindingType::Callback(k) => ActionView::Callback(*k),
        }
    }
}

/// A binding with its texts as characters.
pub struct KeybindingView {
    pub key: Seq<char>,
    pub typ: ActionView,
}

/// A key chord and the action bound to it.
#[derive(Clone, Debug)]
pub struct Keybinding {
    pub key: String,
    pub typ: KeybindingType,
}

impl View for Keybinding {
    type V = KeybindingView;

    open spec fn view(&self) -> KeybindingView {
        KeybindingView { key: self.key@, typ: self.typ@ }
    }
}

/// Index of the binding that is in force for `key`: the last one bound to it.
pub open spec fn binding_in_force(bindings: Seq<Keybinding>, key: Seq<char>, r: Option<usize>) -> bool {
    match r {
        Some(i) => {
            &&& i < bindings.len()
            &&& bindings[i as int].key@ == key
            &&& forall|j: int| i < j < bindings.len() ==> (#[trigger] bindings[j]).key@ != key
        },
        None => forall|j: int| 0 <= j < bindings.len() ==> (#[trigger] bindings[j]).key@ != key,
    }
}

/// The binding that a press of `key` triggers: a later binding of the same
/// chord shadows every earlier one.
pub fn find_binding(bindings: &Vec<Keybinding>, key: &str) -> (r: Option<usize>)
    ensures
        binding_in_force(bindings@, key@, r),
{
    let mut i: usize = bindings.len();
    while i > 0
        invariant
            i <= bindings@.len(),
            forall|j: int| i <= j < bindings@.len() ==> (#[trigger] bindings@[j]).key@ != key@,
        decreases i,
    {
        i = i - 1;
        if same_text(bindings[i].key.as_str(), key) {
            return Some(i);
        }
    }
    None
}

} // verus!
