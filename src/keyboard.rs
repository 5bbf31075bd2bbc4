//! The multi-tap on-screen keyboard. Each glyph key carries two characters;
//! tapping the same key again switches between them, and the pending
//! character is committed when another key is tapped or when the debounce
//! timer fires.
use vstd::prelude::*;

verus! {

/// One key of the on-screen keyboard.
#[derive(Clone, Copy, Debug, PartialEq, Eq, Structural)]
pub enum KeySlot {
    /// A key with a primary and a secondary character.
    Pair(char, char),
    /// The space bar: commits at once.
    Space,
    /// Deletes the last character of the focused field.
    Backspace,
    /// A key that does nothing.
    Empty,
}

/// An edit of the focused field.
#[derive(Clone, Copy, Debug, PartialEq, Eq, Structural)]
pub enum Edit {
    /// Append the character.
    Append(char),
    /// Remove the last character, if any.
    DeleteLast,
}

/// What to do with the debounce timer.
#[derive(Clone, Copy, Debug, PartialEq, Eq, Structural)]
pub enum TimerCmd {
    /// Leave it as it is.
    Keep,
    /// Cancel the running timer, if any, and start a new one.
    Restart,
    /// Cancel the running timer, if any.
    Cancel,
}

/// The key whose character is not yet committed, and which of its two
/// characters is showing.
#[derive(Clone, Copy, Debug, PartialEq, Eq, Structural)]
pub struct Pending {
    pub primary: char,
    pub secondary: char,
    pub is_primary: bool,
}

/// The character that a pending key commits.
pub open spec fn glyph(p: Pending) -> char {
    if p.is_primary {
        p.primary
    } else {
        p.secondary
    }
}

/// The edits that committing the pending key (if any) produces.
pub open spec fn commit_edits(pending: Option<Pending>) -> Seq<Edit> {
    match pending {
        Some(p) => seq![Edit::Append(glyph(p))],
        None => Seq::empty(),
    }
}

/// What a key press does: the new pending key, the edits emitted, and the
/// timer command.
pub open spec fn press_step(pending: Option<Pending>, slot: KeySlot) -> (
    Option<Pending>,
    Seq<Edit>,
    TimerCmd,
) {
    match slot {
        KeySlot::Pair(a, b) => match pending {
            Some(p) => if p.primary == a && p.secondary == b {
                (
                    Some(Pending { primary: a, secondary: b, is_primary: !p.is_primary }),
                    Seq::empty(),
                    TimerCmd::Restart,
                )
            } else {
                (
                    Some(Pending { primary: a, secondary: b, is_primary: true }),
                    commit_edits(pending),
                    TimerCmd::Restart,
                )
            },
            None => (
                Some(Pending { primary: a, secondary: b, is_primary: true }),
                Seq::empty(),
                TimerCmd::Restart,
            ),
        },
        KeySlot::Space => (None, commit_edits(pending).push(Edit::Append(' ')), TimerCmd::Cancel),
        KeySlot::Backspace => (None, seq![Edit::DeleteLast], TimerCmd::Cancel),
        KeySlot::Empty => (pending, Seq::empty(), TimerCmd::Keep),
    }
}

/// What the debounce timer's firing does: the pending key is committed.
pub open spec fn fire_step(pending: Option<Pending>) -> (Option<Pending>, Seq<Edit>) {
    (None, commit_edits(pending))
}

/// The edits and timer command that one event produces.
pub struct KeyOutput {
    pub edits: Vec<Edit>,
    pub timer: TimerCmd,
}

/// The keyboard's state: at most one pending key. The debounce timer runs
/// exactly while a key is pending.
pub struct MultiTap {
    pub pending: Option<Pending>,
}

impl MultiTap {
    /// A keyboard with nothing pending.
    pub fn new() -> (r: MultiTap)
        ensures
            r.pending is None,
    {
        MultiTap { pending: None }
    }

    /// The committed edits for the pending key, if any.
    fn commit(&self) -> (r: Vec<Edit>)
        ensures
            r@ == commit_edits(self.pending),
    {
        let mut v: Vec<Edit> = Vec::new();
        if let Some(p) = self.pending {
            let c = if p.is_primary {
                p.primary
            } else {
                p.secondary
            };
            v.push(Edit::Append(c));
        }
        proof {
            if self.pending is Some {
                assert(v@ =~= commit_edits(self.pending));
            } else {
                assert(v@ =~= commit_edits(self.pending));
            }
        }
        v
    }

    /// A key is tapped.
    pub fn press(&mut self, slot: KeySlot) -> (out: KeyOutput)
        ensures
            (final(self).pending, out.edits@, out.timer) == press_step(old(self).pending, slot),
    {
        match slot {
            KeySlot::Pair(a, b) => {
                match self.pending {
                    Some(p) => {
                        if p.primary == a && p.secondary == b {
                            self.pending = Some(
                                Pending { primary: a, secondary: b, is_primary: !p.is_primary },
                            );
                            KeyOutput { edits: Vec::new(), timer: TimerCmd::Restart }
                        } else {
                            let edits = self.commit();
                            self.pending = Some(Pending { primary: a, secondary: b, is_primary: true });
                            KeyOutput { edits, timer: TimerCmd::Restart }
                        }
                    },
                    None => {
                        self.pending = Some(Pending { primary: a, secondary: b, is_primary: true });
                        KeyOutput { edits: Vec::new(), timer: TimerCmd::Restart }
                    },
                }
            },
            KeySlot::Space => {
                let mut edits = self.commit();
                edits.push(Edit::Append(' '));
                self.pending = None;
                KeyOutput { edits, timer: TimerCmd::Cancel }
            },
            KeySlot::Backspace => {
                self.pending = None;
                let mut edits: Vec<Edit> = Vec::new();
                edits.push(Edit::DeleteLast);
                assert(edits@ =~= seq![Edit::DeleteLast]);
                KeyOutput { edits, timer: TimerCmd::Cancel }
            },
            KeySlot::Empty => KeyOutput { edits: Vec::new(), timer: TimerCmd::Keep },
        }
    }

    /// The debounce timer fired: the pending key is committed.
    pub fn timer_fired(&mut self) -> (edits: Vec<Edit>)
        ensures
            (final(self).pending, edits@) == fire_step(old(self).pending),
    {
        let edits = self.commit();
        self.pending = None;
        edits
    }

    /// Whether the keyboard shows the secondary characters of the key
    /// `(a, b)`, that is, it is pending with its secondary character.
    pub fn shows_secondary(&self, a: char, b: char) -> (r: bool)
        ensures
            r == (self.pending == Some(Pending { primary: a, secondary: b, is_primary: false })),
    {
        match self.pending {
            Some(p) => p.primary == a && p.secondary == b && !p.is_primary,
            None => false,
        }
    }
}

/// The debounce timer runs exactly while a key is pending: a press that
/// leaves a key pending (re)starts it, one that leaves none cancels it, and
/// one that changes nothing leaves it be; firing leaves nothing pending.
pub proof fn lemma_timer_tracks_pending(pending: Option<Pending>, slot: KeySlot)
    ensures
        ({
            let (p, e, t) = press_step(pending, slot);
            &&& (t == TimerCmd::Restart <==> p is Some && slot != KeySlot::Empty)
            &&& (t == TimerCmd::Cancel <==> p is None && slot != KeySlot::Empty)
            &&& (t == TimerCmd::Keep ==> p == pending && e.len() == 0)
            &&& e.len() <= 2
        }),
        fire_step(pending).0 is None,
{
}

/// Tapping a glyph key once and letting the timer fire commits exactly its
/// primary character; tapping it twice before the timer fires commits
/// exactly its secondary character.
pub proof fn lemma_debounce_commit(a: char, b: char)
    ensures
        ({
            let (p1, e1, t1) = press_step(None, KeySlot::Pair(a, b));
            let (p2, e2) = fire_step(p1);
            &&& t1 == TimerCmd::Restart
            &&& e1 + e2 == seq![Edit::Append(a)]
            &&& p2 is None
        }),
        ({
            let (p1, e1, t1) = press_step(None, KeySlot::Pair(a, b));
            let (p2, e2, t2) = press_step(p1, KeySlot::Pair(a, b));
            let (p3, e3) = fire_step(p2);
            &&& t2 == TimerCmd::Restart
            &&& e1 + e2 + e3 == seq![Edit::Append(b)]
            &&& p3 is None
        }),
{
    let (p1, e1, t1) = press_step(None, KeySlot::Pair(a, b));
    let (p2, e2) = fire_step(p1);
    assert(e1 + e2 =~= seq![Edit::Append(a)]);
    let (q2, f2, u2) = press_step(p1, KeySlot::Pair(a, b));
    let (q3, f3) = fire_step(q2);
    assert(e1 + f2 + f3 =~= seq![Edit::Append(b)]);
}

/// Tapping a different glyph key while one is pending commits exactly the
/// pending key's character as it shows, and leaves the new key pending with
/// its primary character.
pub proof fn lemma_commit_on_switch(p: Pending, a: char, b: char)
    requires
        p.primary != a || p.secondary != b,
    ensures
        press_step(Some(p), KeySlot::Pair(a, b)) == (
            Some(Pending { primary: a, secondary: b, is_primary: true }),
            seq![Edit::Append(glyph(p))],
            TimerCmd::Restart,
        ),
{
}

} // verus!
