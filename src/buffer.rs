//! The single-line edit buffer: text plus a cursor that never leaves it.
use vstd::prelude::*;
use crate::keys::Action;

verus! {

/// What an edit buffer holds: its characters and the cursor, an index
/// between characters.
pub struct BufferModel {
    pub text: Seq<char>,
    pub cursor: nat,
}

impl BufferModel {
    /// The cursor lies within the text, at either end included.
    pub open spec fn in_bounds(self) -> bool {
        self.cursor <= self.text.len()
    }
}

/// The empty buffer that a session starts from.
pub open spec fn empty_model() -> BufferModel {
    BufferModel { text: Seq::empty(), cursor: 0 }
}

/// The buffer after one action. Only cursor moves, deletion and insertion
/// touch it; deleting or moving past an end changes nothing.
pub open spec fn edit_model(m: BufferModel, a: Action) -> BufferModel {
    match a {
        Action::CursorLeft => if m.cursor == 0 {
            m
        } else {
            BufferModel { text: m.text, cursor: (m.cursor - 1) as nat }
        },
        Action::CursorRight => if m.cursor >= m.text.len() {
            m
        } else {
            BufferModel { text: m.text, cursor: m.cursor + 1 }
        },
        Action::DeleteBack => if m.cursor == 0 {
            m
        } else {
            BufferModel {
                text: m.text.remove(m.cursor - 1),
                cursor: (m.cursor - 1) as nat,
            }
        },
        Action::Insert(c) => BufferModel {
            text: m.text.insert(m.cursor as int, c),
            cursor: m.cursor + 1,
        },
        _ => m,
    }
}

/// Whether an action changes the text, and so calls for running it again.
pub open spec fn edits_text(m: BufferModel, a: Action) -> bool {
    match a {
        Action::Insert(_) => true,
        Action::DeleteBack => m.cursor > 0,
        _ => false,
    }
}

/// The buffer after a sequence of actions, from the empty buffer.
pub open spec fn model_after(actions: Seq<Action>) -> BufferModel
    decreases actions.len(),
{
    if actions.len() == 0 {
        empty_model()
    } else {
        edit_model(model_after(actions.drop_last()), actions.last())
    }
}

/// Every action keeps the cursor within the text.
pub proof fn lemma_edit_in_bounds(m: BufferModel, a: Action)
    requires
        m.in_bounds(),
    ensures
        edit_model(m, a).in_bounds(),
{
}

/// Every buffer reachable from the empty one by actions has its cursor
/// within its text.
pub proof fn lemma_reachable_in_bounds(actions: Seq<Action>)
    ensures
        model_after(actions).in_bounds(),
    decreases actions.len(),
{
    if actions.len() > 0 {
        lemma_reachable_in_bounds(actions.drop_last());
        lemma_edit_in_bounds(model_after(actions.drop_last()), actions.last());
    }
}

/// Moving left at the start, moving right at the end and deleting at the
/// start leave the buffer as it was and do not call for a run.
pub proof fn lemma_edge_actions_change_nothing(m: BufferModel)
    requires
        m.in_bounds(),
    ensures
        m.cursor == 0 ==> edit_model(m, Action::CursorLeft) == m
            && !edits_text(m, Action::CursorLeft),
        m.cursor == m.text.len() ==> edit_model(m, Action::CursorRight) == m
            && !edits_text(m, Action::CursorRight),
        m.cursor == 0 ==> edit_model(m, Action::DeleteBack) == m
            && !edits_text(m, Action::DeleteBack),
{
}

/// A text being edited and the cursor within it.
pub struct EditBuffer {
    text: Vec<char>,
    cursor: usize,
}

impl View for EditBuffer {
    type V = BufferModel;

    closed spec fn view(&self) -> BufferModel {
        BufferModel { text: self.text@, cursor: self.cursor as nat }
    }
}

impl EditBuffer {
    /// The buffer's invariant.
    pub open spec fn wf(&self) -> bool {
        self@.in_bounds()
    }

    /// An empty buffer with the cursor at its start.
    pub fn new() -> (r: EditBuffer)
        ensures
            r@ == empty_model(),
            r.wf(),
    {
        EditBuffer { text: Vec::new(), cursor: 0 }
    }

    /// The cursor's position.
    pub fn cursor(&self) -> (r: usize)
        ensures
            r == self@.cursor,
    {
        self.cursor
    }

    /// The characters of the buffer.
    pub fn chars(&self) -> (r: &Vec<char>)
        ensures
            r@ == self@.text,
    {
        &self.text
    }

    /// The text of the buffer as a `String`.
    pub fn text(&self) -> (r: String)
        ensures
            r@ == self@.text,
    {
        crate::text::string_of_chars(&self.text)
    }

    /// Inserts `c` at the cursor and moves the cursor past it.
    pub fn insert(&mut self, c: char)
        requires
            old(self).wf(),
        ensures
            final(self)@ == edit_model(old(self)@, Action::Insert(c)),
            final(self).wf(),
    {
        self.text.insert(self.cursor, c);
        let len = self.text.len();
        assert(self.cursor < len);
        self.cursor = self.cursor + 1;
    }

    /// Removes the character before the cursor; nothing at the start.
    /// Tells whether the text changed.
    pub fn delete_back(&mut self) -> (changed: bool)
        requires
            old(self).wf(),
        ensures
            final(self)@ == edit_model(old(self)@, Action::DeleteBack),
            changed == edits_text(old(self)@, Action::DeleteBack),
            final(self).wf(),
    {
        if self.cursor == 0 {
            false
        } else {
            self.cursor = self.cursor - 1;
            self.text.remove(self.cursor);
            true
        }
    }

    /// Moves the cursor one place left; nothing at the start.
    pub fn move_left(&mut self)
        requires
            old(self).wf(),
        ensures
            final(self)@ == edit_model(old(self)@, Action::CursorLeft),
            final(self).wf(),
    {
        if self.cursor > 0 {
            self.cursor = self.cursor - 1;
        }
    }

    /// Moves the cursor one place right; nothing at the end.
    pub fn move_right(&mut self)
        requires
            old(self).wf(),
        ensures
            final(self)@ == edit_model(old(self)@, Action::CursorRight),
            final(self).wf(),
    {
        if self.cursor < self.text.len() {
            self.cursor = self.cursor + 1;
        }
    }

    /// Applies one action to the buffer and tells whether its text changed.
    pub fn apply(&mut self, a: Action) -> (changed: bool)
        requires
            old(self).wf(),
        ensures
            final(self)@ == edit_model(old(self)@, a),
            changed == edits_text(old(self)@, a),
            final(self).wf(),
    {
        match a {
            Action::CursorLeft => {
                self.move_left();
                false
            },
            Action::CursorRight => {
                self.move_right();
                false
            },
            Action::DeleteBack => self.delete_back(),
            Action::Insert(c) => {
                self.insert(c);
                true
            },
            _ => false,
        }
    }
}

} // verus!
