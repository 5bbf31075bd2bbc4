//! The focus coordinator: which input field holds focus, how keyboard edits
//! reach it, and what to do when focus leaves for something unfocusable.
use vstd::prelude::*;

use crate::keyboard::Edit;
use crate::text::str_equal;

verus! {

/// The input fields of the form.
#[derive(Clone, Copy, Debug, PartialEq, Eq, Structural)]
pub enum FieldId {
    /// The master password.
    MasterPassword,
    /// The repeated master password, asked when the vault is created.
    MasterPasswordRepeat,
    /// The alias.
    Alias,
    /// The alias's secret.
    Secret,
}

/// The element identifier of each field.
pub open spec fn element_id(f: FieldId) -> Seq<char> {
    match f {
        FieldId::MasterPassword => "mp-input"@,
        FieldId::MasterPasswordRepeat => "mp2-input"@,
        FieldId::Alias => "alias-input"@,
        FieldId::Secret => "secret-input"@,
    }
}

/// The field with element identifier `id`, if any.
pub open spec fn field_of_element(id: Seq<char>) -> Option<FieldId> {
    if id == element_id(FieldId::MasterPassword) {
        Some(FieldId::MasterPassword)
    } else if id == element_id(FieldId::MasterPasswordRepeat) {
        Some(FieldId::MasterPasswordRepeat)
    } else if id == element_id(FieldId::Alias) {
        Some(FieldId::Alias)
    } else if id == element_id(FieldId::Secret) {
        Some(FieldId::Secret)
    } else {
        None
    }
}

/// The element identifier of field `f`.
pub fn field_element_id(f: FieldId) -> (r: &'static str)
    ensures
        r@ == element_id(f),
{
    match f {
        FieldId::MasterPassword => "mp-input",
        FieldId::MasterPasswordRepeat => "mp2-input",
        FieldId::Alias => "alias-input",
        FieldId::Secret => "secret-input",
    }
}

/// The field whose element identifier is `id`, if any.
pub fn field_from_element_id(id: &str) -> (r: Option<FieldId>)
    ensures
        r == field_of_element(id@),
{
    if str_equal(id, "mp-input") {
        Some(FieldId::MasterPassword)
    } else if str_equal(id, "mp2-input") {
        Some(FieldId::MasterPasswordRepeat)
    } else if str_equal(id, "alias-input") {
        Some(FieldId::Alias)
    } else if str_equal(id, "secret-input") {
        Some(FieldId::Secret)
    } else {
        None
    }
}

/// Which field has focus; `None` stands for the neutral anchor that holds
/// focus after an alias was processed, or for no field at all.
pub struct FocusCoordinator {
    pub current: Option<FieldId>,
}

impl FocusCoordinator {
    /// No field has focus.
    pub fn new() -> (r: FocusCoordinator)
        ensures
            r.current is None,
    {
        FocusCoordinator { current: None }
    }

    /// Focus moves to `f` (`None`: the neutral anchor).
    pub fn set_focused(&mut self, f: Option<FieldId>)
        ensures
            final(self).current == f,
    {
        self.current = f;
    }

    /// The field that has focus.
    pub fn current_focus(&self) -> (r: Option<FieldId>)
        ensures
            r == self.current,
    {
        self.current
    }

    /// Whether `f` has focus.
    pub fn is_focused(&self, f: FieldId) -> (r: bool)
        ensures
            r == (self.current == Some(f)),
    {
        match self.current {
            Some(g) => g == f,
            None => false,
        }
    }
}

/// What to do when focus leaves a field.
#[derive(Clone, Copy, Debug, PartialEq, Eq, Structural)]
pub enum Refocus {
    /// Focus went to another focusable element: leave it there.
    Leave,
    /// Give focus back to the field at once.
    Now,
    /// Give focus back to the field after one tick of the event loop.
    AfterTick,
}

/// Focus left a field. Where it went to nothing focusable (the user
/// dismissed some on-screen affordance) the field takes it back: at once on
/// platforms whose own keyboard manages focus, else one tick later so as not
/// to fight the platform's own focus handling.
pub fn focus_out_action(target_focusable: bool, native_keyboard: bool) -> (r: Refocus)
    ensures
        target_focusable ==> r == Refocus::Leave,
        !target_focusable && native_keyboard ==> r == Refocus::Now,
        !target_focusable && !native_keyboard ==> r == Refocus::AfterTick,
{
    if target_focusable {
        Refocus::Leave
    } else if native_keyboard {
        Refocus::Now
    } else {
        Refocus::AfterTick
    }
}

/// The text after edit `e`.
pub open spec fn edited(value: Seq<char>, e: Edit) -> Seq<char> {
    match e {
        Edit::Append(c) => value.push(c),
        Edit::DeleteLast => if value.len() > 0 {
            value.drop_last()
        } else {
            value
        },
    }
}

/// Relies on `String::push`: appends the character to the string.
#[verifier::external_body]
fn push_char(s: &mut String, c: char)
    ensures
        final(s)@ == old(s)@.push(c),
{
    s.push(c)
}

/// Applies edit `e` to a field's text.
pub fn apply_edit(value: &str, e: Edit) -> (r: String)
    ensures
        r@ == edited(value@, e),
{
    match e {
        Edit::Append(c) => {
            let mut s = value.to_string();
            push_char(&mut s, c);
            s
        },
        Edit::DeleteLast => {
            let n = value.unicode_len();
            if n > 0 {
                let t = value.substring_char(0, n - 1);
                assert(value@.subrange(0, n - 1) =~= value@.drop_last());
                t.to_string()
            } else {
                value.to_string()
            }
        },
    }
}

} // verus!
