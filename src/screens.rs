use vstd::prelude::*;

verus! {

/// The keys the screens tell apart.
#[derive(Clone, Copy, Debug, PartialEq, Eq, Structural)]
pub enum Key {
    Up,
    Down,
    Left,
    Right,
    Enter,
    Esc,
    Char(char),
    Other,
}

// ---------------------------------------------------------------------------
// The query screen

/// The pane of the query screen that has the focus, and whether its text
/// is being edited.
#[derive(Clone, Copy, Debug, PartialEq, Eq, Structural)]
pub enum QueryFocus {
    Query(bool),
    Results(bool),
}

/// What the query screen does after a key.
#[derive(Clone, Copy, Debug, PartialEq, Eq, Structural)]
pub enum QueryAction {
    Nothing,
    /// The key goes to the query text.
    EditQuery,
    /// The key goes to the results text.
    EditResults,
    /// The query text is run in the background.
    RunQuery,
    OpenSettings,
    OpenRemove,
    Close,
}

pub open spec fn query_step(focus: QueryFocus, key: Key) -> (QueryFocus, QueryAction) {
    match focus {
        QueryFocus::Query(true) => match key {
            Key::Esc => (QueryFocus::Query(false), QueryAction::Nothing),
            Key::Enter => (QueryFocus::Results(false), QueryAction::RunQuery),
            _ => (focus, QueryAction::EditQuery),
        },
        QueryFocus::Results(true) => match key {
            Key::Esc => (QueryFocus::Results(false), QueryAction::Nothing),
            _ => (focus, QueryAction::EditResults),
        },
        _ => match key {
            Key::Up => (QueryFocus::Query(false), QueryAction::Nothing),
            Key::Down => (QueryFocus::Results(false), QueryAction::Nothing),
            Key::Char('s') => (focus, QueryAction::OpenSettings),
            Key::Char('q') | Key::Esc => (focus, QueryAction::Close),
            Key::Char('d') => (focus, QueryAction::OpenRemove),
            Key::Enter => (
                match focus {
                    QueryFocus::Query(_) => QueryFocus::Query(true),
                    QueryFocus::Results(_) => QueryFocus::Results(true),
                },
                QueryAction::Nothing,
            ),
            _ => (focus, QueryAction::Nothing),
        },
    }
}

/// The query screen's reaction to a key: while a pane is edited, keys go to
/// its text (Enter in the query runs it, Esc leaves editing); otherwise Up
/// and Down move between the panes, Enter starts editing, `s` opens the
/// settings, `d` the removal screen, and `q` or Esc closes the screen.
pub fn query_key(focus: QueryFocus, key: Key) -> (r: (QueryFocus, QueryAction))
    ensures
        r == query_step(focus, key),
{
    match focus {
        QueryFocus::Query(true) => match key {
            Key::Esc => (QueryFocus::Query(false), QueryAction::Nothing),
            Key::Enter => (QueryFocus::Results(false), QueryAction::RunQuery),
            _ => (focus, QueryAction::EditQuery),
        },
        QueryFocus::Results(true) => match key {
            Key::Esc => (QueryFocus::Results(false), QueryAction::Nothing),
            _ => (focus, QueryAction::EditResults),
        },
        _ => match key {
            Key::Up => (QueryFocus::Query(false), QueryAction::Nothing),
            Key::Down => (QueryFocus::Results(false), QueryAction::Nothing),
            Key::Char('s') => (focus, QueryAction::OpenSettings),
            Key::Char('q') | Key::Esc => (focus, QueryAction::Close),
            Key::Char('d') => (focus, QueryAction::OpenRemove),
            Key::Enter => (
                match focus {
                    QueryFocus::Query(_) => QueryFocus::Query(true),
                    QueryFocus::Results(_) => QueryFocus::Results(true),
                },
                QueryAction::Nothing,
            ),
            _ => (focus, QueryAction::Nothing),
        },
    }
}

// ---------------------------------------------------------------------------
// The removal screen

/// What has the focus on the removal screen: the query (and whether it is
/// being edited), or the Delete (left) or Cancel (right) button.
#[derive(Clone, Copy, Debug, PartialEq, Eq, Structural)]
pub enum RemoveFocus {
    Query(bool),
    DeleteButton,
    CancelButton,
}

#[derive(Clone, Copy, Debug, PartialEq, Eq, Structural)]
pub enum RemoveAction {
    Nothing,
    /// The key goes to the query text.
    EditQuery,
    /// A confirmation is asked before the delete request is sent.
    ConfirmDelete,
    Close,
}

pub open spec fn is_button(focus: RemoveFocus) -> bool {
    focus != RemoveFocus::Query(true) && focus != RemoveFocus::Query(false)
}

pub open spec fn remove_step(focus: RemoveFocus, key: Key) -> (RemoveFocus, RemoveAction) {
    match focus {
        RemoveFocus::Query(true) => match key {
            Key::Esc | Key::Enter => (RemoveFocus::Query(false), RemoveAction::Nothing),
            _ => (focus, RemoveAction::EditQuery),
        },
        _ => match key {
            Key::Char('q') | Key::Esc => (focus, RemoveAction::Close),
            Key::Down => (RemoveFocus::CancelButton, RemoveAction::Nothing),
            Key::Up => (RemoveFocus::Query(false), RemoveAction::Nothing),
            Key::Left => (
                if is_button(focus) {
                    RemoveFocus::DeleteButton
                } else {
                    focus
                },
                RemoveAction::Nothing,
            ),
            Key::Right => (
                if is_button(focus) {
                    RemoveFocus::CancelButton
                } else {
                    focus
                },
                RemoveAction::Nothing,
            ),
            Key::Enter => match focus {
                RemoveFocus::Query(_) => (RemoveFocus::Query(true), RemoveAction::Nothing),
                RemoveFocus::CancelButton => (focus, RemoveAction::Close),
                RemoveFocus::DeleteButton => (focus, RemoveAction::ConfirmDelete),
            },
            _ => (focus, RemoveAction::Nothing),
        },
    }
}

/// The removal screen's reaction to a key: while the query is edited, keys
/// go to it and Enter or Esc leave editing; otherwise Down moves to the
/// buttons (on Cancel), Up back to the query, Left and Right move between
/// the buttons, Enter edits the query, cancels, or asks to confirm the
/// delete, and `q` or Esc closes the screen.
pub fn remove_key(focus: RemoveFocus, key: Key) -> (r: (RemoveFocus, RemoveAction))
    ensures
        r == remove_step(focus, key),
{
    let button = match focus {
        RemoveFocus::Query(_) => false,
        _ => true,
    };
    match focus {
        RemoveFocus::Query(true) => match key {
            Key::Esc | Key::Enter => (RemoveFocus::Query(false), RemoveAction::Nothing),
            _ => (focus, RemoveAction::EditQuery),
        },
        _ => match key {
            Key::Char('q') | Key::Esc => (focus, RemoveAction::Close),
            Key::Down => (RemoveFocus::CancelButton, RemoveAction::Nothing),
            Key::Up => (RemoveFocus::Query(false), RemoveAction::Nothing),
            Key::Left => (
                if button {
                    RemoveFocus::DeleteButton
                } else {
                    focus
                },
                RemoveAction::Nothing,
            ),
            Key::Right => (
                if button {
                    RemoveFocus::CancelButton
                } else {
                    focus
                },
                RemoveAction::Nothing,
            ),
            Key::Enter => match focus {
                RemoveFocus::Query(_) => (RemoveFocus::Query(true), RemoveAction::Nothing),
                RemoveFocus::CancelButton => (focus, RemoveAction::Close),
                RemoveFocus::DeleteButton => (focus, RemoveAction::ConfirmDelete),
            },
            _ => (focus, RemoveAction::Nothing),
        },
    }
}

// ---------------------------------------------------------------------------
// The settings screen

#[derive(Clone, Copy, Debug, PartialEq, Eq, Structural)]
pub enum SettingsFocus {
    /// The address is being edited.
    Url,
    Idle,
}

#[derive(Clone, Copy, Debug, PartialEq, Eq, Structural)]
pub enum SettingsAction {
    Nothing,
    /// The key goes to the address text.
    EditUrl,
    /// The address is kept in the configuration and the screen closes.
    SaveAndClose,
}

pub open spec fn settings_step(focus: SettingsFocus, key: Key) -> (SettingsFocus, SettingsAction) {
    match focus {
        SettingsFocus::Url => match key {
            Key::Esc | Key::Enter => (SettingsFocus::Idle, SettingsAction::Nothing),
            _ => (focus, SettingsAction::EditUrl),
        },
        SettingsFocus::Idle => match key {
            Key::Esc | Key::Char('q') => (focus, SettingsAction::SaveAndClose),
            Key::Enter => (SettingsFocus::Url, SettingsAction::Nothing),
            _ => (focus, SettingsAction::Nothing),
        },
    }
}

/// The settings screen's reaction to a key: Enter starts editing the
/// address, keys then go to it until Enter or Esc; otherwise Esc or `q`
/// keeps the address and closes the screen.
pub fn settings_key(focus: SettingsFocus, key: Key) -> (r: (SettingsFocus, SettingsAction))
    ensures
        r == settings_step(focus, key),
{
    match focus {
        SettingsFocus::Url => match key {
            Key::Esc | Key::Enter => (SettingsFocus::Idle, SettingsAction::Nothing),
            _ => (focus, SettingsAction::EditUrl),
        },
        SettingsFocus::Idle => match key {
            Key::Esc | Key::Char('q') => (focus, SettingsAction::SaveAndClose),
            Key::Enter => (SettingsFocus::Url, SettingsAction::Nothing),
            _ => (focus, SettingsAction::Nothing),
        },
    }
}

} // verus!
