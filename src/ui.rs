use vstd::prelude::*;

use crate::screens::Key;

verus! {

/// The lines shown as query results, and whether they changed since they
/// were last drawn.
pub struct Store {
    pub results: Vec<String>,
    pub results_changed: bool,
}

impl Default for Store {
    /// The help text shown before the first query.
    fn default() -> (r: Self)
        ensures
            r.results_changed,
            r.results@.len() == 3,
            r.results@[0]@ == "Type a query above and press enter to see the results"@,
            r.results@[1]@ == "You can switch between query and results with ⬆️  and ⬇️."@,
            r.results@[2]@ == "Press q or esc to quit"@,
    {
        Store {
            results_changed: true,
            results: vec![
                String::from_str("Type a query above and press enter to see the results"),
                String::from_str("You can switch between query and results with ⬆️  and ⬇️."),
                String::from_str("Press q or esc to quit"),
            ],
        }
    }
}

/// The button of an alert that has the focus: Cancel or Ok.
#[derive(Clone, Copy, Debug, PartialEq, Eq, Structural)]
pub enum Selection {
    Cancel,
    Confirm,
}

/// A dialog with a title, a text, an Ok and a Cancel button, and an
/// optional action run when Ok is confirmed.
pub struct Alert<F> {
    pub should_close: bool,
    pub selection: Selection,
    pub text: &'static str,
    pub title: &'static str,
    pub action: Option<F>,
}

impl<F> Alert<F> {
    pub fn with_action(title: &'static str, text: &'static str, action: F) -> (r: Self)
        ensures
            r.title@ == title@,
            r.text@ == text@,
            r.action == Some(action),
            !r.should_close,
            r.selection == Selection::Cancel,
    {
        Alert { title, text, action: Some(action), should_close: false, selection: Selection::Cancel }
    }

    pub fn new(title: &'static str, text: &'static str) -> (r: Self)
        ensures
            r.title@ == title@,
            r.text@ == text@,
            r.action is None,
            !r.should_close,
            r.selection == Selection::Cancel,
    {
        Alert { title, text, action: None, should_close: false, selection: Selection::Cancel }
    }

    pub fn should_close(&self) -> (r: bool)
        ensures
            r == self.should_close,
    {
        self.should_close
    }

    /// Reacts to a key: Enter closes the alert, and returns whether the
    /// action is to run (Ok was selected and there is an action); Left
    /// selects Ok, Right selects Cancel; other keys change nothing.
    pub fn handle_key(&mut self, key: Key) -> (run_action: bool)
        ensures
            final(self).text == old(self).text,
            final(self).title == old(self).title,
            final(self).action == old(self).action,
            run_action == (key == Key::Enter && old(self).selection == Selection::Confirm
                && old(self).action is Some),
            final(self).should_close == (old(self).should_close || key == Key::Enter),
            final(self).selection == match key {
                Key::Left => Selection::Confirm,
                Key::Right => Selection::Cancel,
                _ => old(self).selection,
            },
    {
        match key {
            Key::Enter => {
                self.should_close = true;
                match self.selection {
                    Selection::Cancel => false,
                    Selection::Confirm => self.action.is_some(),
                }
            },
            Key::Right => {
                self.selection = Selection::Cancel;
                false
            },
            Key::Left => {
                self.selection = Selection::Confirm;
                false
            },
            _ => false,
        }
    }
}

} // verus!
