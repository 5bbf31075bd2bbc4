//! The alias autocomplete box: a text field whose dropdown lists the known
//! aliases that contain the typed text, navigable with the arrow keys and the
//! mouse.
use vstd::prelude::*;

use crate::text::{contains_str, has_substring, list_contains, str_equal, views};

verus! {

/// A key pressed in the alias field, as far as the dropdown cares.
#[derive(Clone, Copy, Debug, PartialEq, Eq, Structural)]
pub enum NavKey {
    Enter,
    ArrowDown,
    ArrowUp,
    Escape,
    Other,
}

/// What the field reports to its owner after an event.
#[derive(Debug, PartialEq, Eq)]
pub enum ComboOutput {
    /// Nothing to report.
    Nothing,
    /// The text changed to the given one; the flag tells whether it is a
    /// known alias.
    Changed(String, bool),
    /// Enter was pressed with no candidate selected: the owning form's own
    /// action applies.
    Submit,
}

/// The key that a keyboard event's key name stands for.
pub open spec fn nav_key_of(name: Seq<char>) -> NavKey {
    if name == "Enter"@ {
        NavKey::Enter
    } else if name == "ArrowDown"@ {
        NavKey::ArrowDown
    } else if name == "ArrowUp"@ {
        NavKey::ArrowUp
    } else if name == "Escape"@ {
        NavKey::Escape
    } else {
        NavKey::Other
    }
}

/// Classifies a keyboard event's key name.
pub fn nav_key_from_name(name: &str) -> (r: NavKey)
    ensures
        r == nav_key_of(name@),
{
    if str_equal(name, "Enter") {
        NavKey::Enter
    } else if str_equal(name, "ArrowDown") {
        NavKey::ArrowDown
    } else if str_equal(name, "ArrowUp") {
        NavKey::ArrowUp
    } else if str_equal(name, "Escape") {
        NavKey::Escape
    } else {
        NavKey::Other
    }
}

/// The candidates that contain `text`, in their order.
pub open spec fn matches_of(cands: Seq<Seq<char>>, text: Seq<char>) -> Seq<Seq<char>>
    decreases cands.len(),
{
    if cands.len() == 0 {
        Seq::empty()
    } else {
        let rest = matches_of(cands.drop_last(), text);
        if has_substring(cands.last(), text) {
            rest.push(cands.last())
        } else {
            rest
        }
    }
}

/// The selection after `ArrowDown` over `n` matches: the first one when
/// nothing is selected, else the next one, wrapping round to the first.
pub open spec fn select_down(sel: Option<usize>, n: nat) -> Option<usize> {
    if n == 0 {
        sel
    } else {
        match sel {
            None => Some(0),
            Some(i) => if i + 1 < n {
                Some((i + 1) as usize)
            } else {
                Some(0)
            },
        }
    }
}

/// The selection after `ArrowUp` over `n` matches: the last one when nothing
/// is selected, else the previous one, wrapping round to the last.
pub open spec fn select_up(sel: Option<usize>, n: nat) -> Option<usize> {
    if n == 0 {
        sel
    } else {
        match sel {
            None => Some((n - 1) as usize),
            Some(i) => if i == 0 || i >= n {
                Some((n - 1) as usize)
            } else {
                Some((i - 1) as usize)
            },
        }
    }
}

/// The selection after the matches change from `old` to `new`: the entry
/// that was selected keeps its highlight where it is still listed (at its
/// first place in `new`); otherwise nothing is selected.
pub open spec fn reselect(old: Seq<Seq<char>>, sel: Option<usize>, new: Seq<Seq<char>>) -> Option<
    usize,
> {
    match sel {
        Some(i) => if i < old.len() {
            match new.index_of_first(old[i as int]) {
                Some(k) => Some(k as usize),
                None => None,
            }
        } else {
            None
        },
        None => None,
    }
}

/// The text field with its dropdown of matching candidates.
pub struct Combobox {
    /// The text in the field.
    pub text: String,
    /// The known aliases offered for completion.
    pub candidates: Vec<String>,
    /// The candidates that contain `text`.
    pub matches: Vec<String>,
    /// The highlighted entry of `matches`, if any.
    pub selected: Option<usize>,
    /// Whether the dropdown is shown.
    pub open: bool,
    /// Set by a selection that changes the text: the next text change then
    /// does not reopen the dropdown.
    pub suppress_reopen_once: bool,
    /// Whether the field has input focus.
    pub focused: bool,
}

impl Combobox {
    /// The matches agree with the candidates and the text, and the selection
    /// lies inside them.
    pub open spec fn wf(&self) -> bool {
        &&& views(self.matches@) == matches_of(views(self.candidates@), self.text@)
        &&& (self.selected matches Some(i) ==> i < self.matches@.len())
    }

    /// Whether `s` is one of the candidates.
    pub open spec fn knows(&self, s: Seq<char>) -> bool {
        views(self.candidates@).contains(s)
    }

    /// A closed, unfocused field holding `text`, with nothing selected.
    pub fn new(candidates: Vec<String>, text: String) -> (r: Combobox)
        ensures
            r.wf(),
            r.text@ == text@,
            r.candidates == candidates,
            r.selected is None,
            !r.open,
            !r.suppress_reopen_once,
            !r.focused,
    {
        let matches = filter_matches(&candidates, text.as_str());
        Combobox {
            text,
            candidates,
            matches,
            selected: None,
            open: false,
            suppress_reopen_once: false,
            focused: false,
        }
    }

    /// Whether `s` is one of the candidates.
    pub fn is_known(&self, s: &str) -> (r: bool)
        ensures
            r == self.knows(s@),
    {
        list_contains(&self.candidates, s)
    }

    /// Recomputes the matches and carries the selection over to them.
    fn refilter(&mut self)
        ensures
            final(self).wf(),
            final(self).text == old(self).text,
            final(self).candidates == old(self).candidates,
            final(self).selected == reselect(views(old(self).matches@), old(self).selected, views(
                final(self).matches@,
            )),
            final(self).open == old(self).open,
            final(self).suppress_reopen_once == old(self).suppress_reopen_once,
            final(self).focused == old(self).focused,
    {
        let new_matches = filter_matches(&self.candidates, self.text.as_str());
        let sel = match self.selected {
            Some(i) => if i < self.matches.len() {
                index_in(&new_matches, self.matches[i].as_str())
            } else {
                None
            },
            None => None,
        };
        proof {
            if let Some(i) = self.selected {
                if i < self.matches@.len() {
                    assert(views(self.matches@)[i as int] == self.matches@[i as int]@);
                    views(new_matches@).index_of_first_ensures(self.matches@[i as int]@);
                }
            }
        }
        self.matches = new_matches;
        self.selected = sel;
    }

    /// The candidate list changes (the known aliases were refreshed).
    pub fn set_candidates(&mut self, candidates: Vec<String>)
        ensures
            final(self).wf(),
            final(self).text == old(self).text,
            final(self).candidates == candidates,
            final(self).selected == reselect(views(old(self).matches@), old(self).selected, views(
                final(self).matches@,
            )),
            final(self).open == old(self).open,
            final(self).suppress_reopen_once == old(self).suppress_reopen_once,
            final(self).focused == old(self).focused,
    {
        self.candidates = candidates;
        self.refilter();
    }

    /// The field's text is set to `text`, by typing or by the owning form.
    /// A change opens the dropdown of a focused field, unless a selection
    /// just made it, in which case it only consumes that mark.
    pub fn set_text(&mut self, text: String)
        requires
            old(self).wf(),
        ensures
            final(self).wf(),
            final(self).text@ == text@,
            final(self).candidates == old(self).candidates,
            old(self).text@ == text@ ==> final(self).selected == old(self).selected,
            old(self).text@ != text@ ==> final(self).selected == reselect(
                views(old(self).matches@),
                old(self).selected,
                views(final(self).matches@),
            ),
            final(self).open == (if old(self).text@ != text@ && old(self).focused
                && !old(self).suppress_reopen_once {
                true
            } else {
                old(self).open
            }),
            final(self).suppress_reopen_once == (old(self).suppress_reopen_once && !(old(
                self,
            ).text@ != text@ && old(self).focused)),
            final(self).focused == old(self).focused,
    {
        if str_equal(self.text.as_str(), text.as_str()) {
            self.text = text;
            assert(views(self.matches@) == matches_of(views(self.candidates@), self.text@));
            return ;
        }
        self.text = text;
        self.refilter();
        if self.focused {
            if self.suppress_reopen_once {
                self.suppress_reopen_once = false;
            } else {
                self.open = true;
            }
        }
    }

    /// The user typed: the field now holds `text`. Reports the new text and
    /// whether it is a known alias.
    pub fn input(&mut self, text: String) -> (out: ComboOutput)
        requires
            old(self).wf(),
        ensures
            final(self).wf(),
            final(self).text@ == text@,
            final(self).candidates == old(self).candidates,
            old(self).text@ == text@ ==> final(self).selected == old(self).selected,
            old(self).text@ != text@ ==> final(self).selected == reselect(
                views(old(self).matches@),
                old(self).selected,
                views(final(self).matches@),
            ),
            final(self).open == (if old(self).text@ != text@ && old(self).focused
                && !old(self).suppress_reopen_once {
                true
            } else {
                old(self).open
            }),
            final(self).suppress_reopen_once == (old(self).suppress_reopen_once && !(old(
                self,
            ).text@ != text@ && old(self).focused)),
            final(self).focused == old(self).focused,
            out matches ComboOutput::Changed(t, k) && t@ == text@ && k == old(self).knows(
                text@,
            ),
    {
        let known = self.is_known(text.as_str());
        let reported = text.clone();
        self.set_text(text);
        ComboOutput::Changed(reported, known)
    }

    /// The field receives focus: the dropdown opens.
    pub fn focus(&mut self)
        requires
            old(self).wf(),
        ensures
            final(self).wf(),
            final(self).focused,
            final(self).open,
            final(self).text == old(self).text,
            final(self).candidates == old(self).candidates,
            final(self).matches == old(self).matches,
            final(self).selected == old(self).selected,
            final(self).suppress_reopen_once == old(self).suppress_reopen_once,
    {
        self.focused = true;
        self.open = true;
    }

    /// The field loses focus: the dropdown closes.
    pub fn blur(&mut self)
        requires
            old(self).wf(),
        ensures
            final(self).wf(),
            !final(self).focused,
            !final(self).open,
            final(self).text == old(self).text,
            final(self).candidates == old(self).candidates,
            final(self).matches == old(self).matches,
            final(self).selected == old(self).selected,
            final(self).suppress_reopen_once == old(self).suppress_reopen_once,
    {
        self.focused = false;
        self.open = false;
    }

    /// Commits the match at `i`: the dropdown closes, the selection clears,
    /// and the match is reported as the new text.
    fn commit(&mut self, i: usize) -> (out: ComboOutput)
        requires
            old(self).wf(),
            i < old(self).matches@.len(),
        ensures
            final(self).wf(),
            final(self).text == old(self).text,
            final(self).candidates == old(self).candidates,
            final(self).matches == old(self).matches,
            final(self).selected is None,
            !final(self).open,
            final(self).suppress_reopen_once == (old(self).suppress_reopen_once
                || old(self).matches@[i as int]@ != old(self).text@),
            final(self).focused == old(self).focused,
            out == ComboOutput::Changed(old(self).matches@[i as int], true),
    {
        let alias = self.matches[i].clone();
        proof {
            lemma_matches_are_candidates(views(self.candidates@), self.text@);
            assert(views(self.matches@)[i as int] == alias@);
        }
        if !str_equal(alias.as_str(), self.text.as_str()) {
            self.suppress_reopen_once = true;
        }
        self.open = false;
        self.selected = None;
        ComboOutput::Changed(alias, true)
    }

    /// A key is pressed in the field.
    pub fn key_down(&mut self, key: NavKey) -> (out: ComboOutput)
        requires
            old(self).wf(),
        ensures
            final(self).wf(),
            final(self).text == old(self).text,
            final(self).candidates == old(self).candidates,
            final(self).matches == old(self).matches,
            final(self).focused == old(self).focused,
            key == NavKey::Enter ==> match old(self).selected {
                Some(i) => {
                    &&& out == ComboOutput::Changed(old(self).matches@[i as int], true)
                    &&& final(self).selected is None
                    &&& !final(self).open
                    &&& final(self).suppress_reopen_once == (old(self).suppress_reopen_once
                        || old(self).matches@[i as int]@ != old(self).text@)
                },
                None => {
                    &&& out == ComboOutput::Submit
                    &&& final(self).selected is None
                    &&& final(self).open == old(self).open
                    &&& final(self).suppress_reopen_once == old(self).suppress_reopen_once
                },
            },
            key != NavKey::Enter ==> out == ComboOutput::Nothing
                && final(self).suppress_reopen_once == old(self).suppress_reopen_once,
            key == NavKey::ArrowDown ==> final(self).selected == select_down(
                old(self).selected,
                old(self).matches@.len(),
            ) && final(self).open == (old(self).open || old(self).matches@.len() > 0),
            key == NavKey::ArrowUp ==> final(self).selected == select_up(
                old(self).selected,
                old(self).matches@.len(),
            ) && final(self).open == (old(self).open || old(self).matches@.len() > 0),
            key == NavKey::Escape ==> if old(self).selected is None {
                !final(self).open && final(self).selected is None
            } else {
                final(self).open && final(self).selected is None
            },
            key == NavKey::Other ==> final(self).open && final(self).selected is None,
    {
        let n = self.matches.len();
        match key {
            NavKey::Enter => match self.selected {
                Some(i) => self.commit(i),
                None => ComboOutput::Submit,
            },
            NavKey::ArrowDown => {
                if n > 0 {
                    self.selected = match self.selected {
                        None => Some(0),
                        Some(i) => if i + 1 < n {
                            Some(i + 1)
                        } else {
                            Some(0)
                        },
                    };
                    self.open = true;
                }
                ComboOutput::Nothing
            },
            NavKey::ArrowUp => {
                if n > 0 {
                    self.selected = match self.selected {
                        None => Some(n - 1),
                        Some(i) => if i == 0 || i >= n {
                            Some(n - 1)
                        } else {
                            Some(i - 1)
                        },
                    };
                    self.open = true;
                }
                ComboOutput::Nothing
            },
            NavKey::Escape => {
                if self.selected.is_none() {
                    self.open = false;
                } else {
                    self.selected = None;
                    self.open = true;
                }
                ComboOutput::Nothing
            },
            NavKey::Other => {
                self.selected = None;
                self.open = true;
                ComboOutput::Nothing
            },
        }
    }

    /// The pointer moves over the match at `i`, or (`None`) leaves the
    /// dropdown: the highlight follows it.
    pub fn hover(&mut self, i: Option<usize>)
        requires
            old(self).wf(),
        ensures
            final(self).wf(),
            final(self).selected == (match i {
                Some(k) => if k < old(self).matches@.len() {
                    Some(k)
                } else {
                    None
                },
                None => None,
            }),
            final(self).text == old(self).text,
            final(self).candidates == old(self).candidates,
            final(self).matches == old(self).matches,
            final(self).open == old(self).open,
            final(self).suppress_reopen_once == old(self).suppress_reopen_once,
            final(self).focused == old(self).focused,
    {
        self.selected = match i {
            Some(k) => if k < self.matches.len() {
                Some(k)
            } else {
                None
            },
            None => None,
        };
    }

    /// The match at `i` is clicked: it is committed as `Enter` commits a
    /// selected one. A position outside the matches is ignored.
    pub fn click(&mut self, i: usize) -> (out: ComboOutput)
        requires
            old(self).wf(),
        ensures
            final(self).wf(),
            final(self).text == old(self).text,
            final(self).candidates == old(self).candidates,
            final(self).matches == old(self).matches,
            final(self).focused == old(self).focused,
            i < old(self).matches@.len() ==> {
                &&& out == ComboOutput::Changed(old(self).matches@[i as int], true)
                &&& final(self).selected is None
                &&& !final(self).open
                &&& final(self).suppress_reopen_once == (old(self).suppress_reopen_once
                    || old(self).matches@[i as int]@ != old(self).text@)
            },
            i >= old(self).matches@.len() ==> out == ComboOutput::Nothing && *final(self) == *old(
                self,
            ),
    {
        if i < self.matches.len() {
            self.commit(i)
        } else {
            ComboOutput::Nothing
        }
    }

    /// Whether the match at `i` is drawn highlighted.
    pub fn is_highlighted(&self, i: usize) -> (r: bool)
        ensures
            r == (self.selected == Some(i)),
    {
        match self.selected {
            Some(k) => k == i,
            None => false,
        }
    }
}

/// The selection after `k` presses of `ArrowDown` over `n` matches.
pub open spec fn select_down_times(sel: Option<usize>, n: nat, k: nat) -> Option<usize>
    decreases k,
{
    if k == 0 {
        sel
    } else {
        select_down(select_down_times(sel, n, (k - 1) as nat), n)
    }
}

/// The selection after `k` presses of `ArrowUp` over `n` matches.
pub open spec fn select_up_times(sel: Option<usize>, n: nat, k: nat) -> Option<usize>
    decreases k,
{
    if k == 0 {
        sel
    } else {
        select_up(select_up_times(sel, n, (k - 1) as nat), n)
    }
}

/// Navigation with `ArrowDown` cycles: from no selection over `n > 0`
/// matches, the `k`-th press selects entry `k - 1` for `k` up to `n`, and
/// the press after the `n`-th selects the first entry again.
pub proof fn lemma_arrow_down_cycles(n: nat)
    requires
        0 < n <= usize::MAX,
    ensures
        forall|k: nat| 1 <= k <= n ==> #[trigger] select_down_times(None, n, k) == Some(
            (k - 1) as usize,
        ),
        select_down_times(None, n, n + 1) == Some(0usize),
{
    assert forall|k: nat| 1 <= k <= n implies #[trigger] select_down_times(None, n, k) == Some(
        (k - 1) as usize,
    ) by {
        lemma_down_steps(n, k);
    }
    lemma_down_steps(n, n);
}

proof fn lemma_down_steps(n: nat, k: nat)
    requires
        0 < n <= usize::MAX,
        1 <= k <= n,
    ensures
        select_down_times(None, n, k) == Some((k - 1) as usize),
    decreases k,
{
    assert(select_down_times(None, n, 0) == None::<usize>);
    if k > 1 {
        lemma_down_steps(n, (k - 1) as nat);
    }
    assert(select_down_times(None, n, k) == select_down(
        select_down_times(None, n, (k - 1) as nat),
        n,
    ));
}

/// Navigation with `ArrowUp` cycles the other way: from no selection over
/// `n > 0` matches, the `k`-th press selects entry `n - k` for `k` up to `n`,
/// and the press after the `n`-th selects the last entry again.
pub proof fn lemma_arrow_up_cycles(n: nat)
    requires
        0 < n <= usize::MAX,
    ensures
        forall|k: nat| 1 <= k <= n ==> #[trigger] select_up_times(None, n, k) == Some(
            (n - k) as usize,
        ),
        select_up_times(None, n, n + 1) == Some((n - 1) as usize),
{
    assert forall|k: nat| 1 <= k <= n implies #[trigger] select_up_times(None, n, k) == Some(
        (n - k) as usize,
    ) by {
        lemma_up_steps(n, k);
    }
    lemma_up_steps(n, n);
}

proof fn lemma_up_steps(n: nat, k: nat)
    requires
        0 < n <= usize::MAX,
        1 <= k <= n,
    ensures
        select_up_times(None, n, k) == Some((n - k) as usize),
    decreases k,
{
    assert(select_up_times(None, n, 0) == None::<usize>);
    if k > 1 {
        lemma_up_steps(n, (k - 1) as nat);
    }
    assert(select_up_times(None, n, k) == select_up(select_up_times(None, n, (k - 1) as nat), n));
}

/// Every match is a candidate.
pub proof fn lemma_matches_are_candidates(cands: Seq<Seq<char>>, text: Seq<char>)
    ensures
        forall|k: int|
            0 <= k < matches_of(cands, text).len() ==> cands.contains(
                #[trigger] matches_of(cands, text)[k],
            ),
    decreases cands.len(),
{
    if cands.len() > 0 {
        let rest = cands.drop_last();
        lemma_matches_are_candidates(rest, text);
        assert forall|k: int| 0 <= k < matches_of(cands, text).len() implies cands.contains(
            #[trigger] matches_of(cands, text)[k],
        ) by {
            let m = matches_of(cands, text);
            if k < matches_of(rest, text).len() {
                let j = choose|j: int| 0 <= j < rest.len() && rest[j] == matches_of(rest, text)[k];
                assert(cands[j] == rest[j]);
            } else {
                assert(m[k] == cands[cands.len() - 1]);
            }
        }
    }
}

/// The candidates that contain `text`, in their order.
pub fn filter_matches(candidates: &Vec<String>, text: &str) -> (r: Vec<String>)
    ensures
        views(r@) == matches_of(views(candidates@), text@),
{
    let mut out: Vec<String> = Vec::new();
    let mut i: usize = 0;
    while i < candidates.len()
        invariant
            i <= candidates.len(),
            views(out@) == matches_of(views(candidates@).subrange(0, i as int), text@),
        decreases candidates.len() - i,
    {
        let c = candidates[i].clone();
        let ghost pre = views(candidates@).subrange(0, i as int);
        let ghost cur = views(candidates@).subrange(0, i + 1);
        assert(cur.drop_last() =~= pre);
        assert(cur.last() == candidates@[i as int]@);
        if contains_str(c.as_str(), text) {
            let ghost before = out@;
            let ghost cv = c@;
            out.push(c);
            assert(views(out@) =~= views(before).push(cv));
        }
        i = i + 1;
    }
    assert(views(candidates@).subrange(0, candidates@.len() as int) =~= views(candidates@));
    out
}

/// The first position of `s` in `v`, if it is there.
fn index_in(v: &Vec<String>, s: &str) -> (r: Option<usize>)
    ensures
        r == (match views(v@).index_of_first(s@) {
            Some(k) => Some(k as usize),
            None => None::<usize>,
        }),
{
    let mut i: usize = 0;
    while i < v.len()
        invariant
            i <= v.len(),
            forall|j: int| 0 <= j < i ==> views(v@)[j] != s@,
        decreases v.len() - i,
    {
        if str_equal(v[i].as_str(), s) {
            proof {
                assert(views(v@)[i as int] == s@);
                lemma_first_index(views(v@), s@, i as int);
            }
            return Some(i);
        }
        assert(views(v@)[i as int] == v@[i as int]@);
        i = i + 1;
    }
    proof {
        views(v@).index_of_first_ensures(s@);
        if views(v@).contains(s@) {
            let k = choose|k: int| 0 <= k < views(v@).len() && views(v@)[k] == s@;
        }
    }
    None
}

/// A position holding `x` with no `x` before it is `x`'s index.
proof fn lemma_first_index(v: Seq<Seq<char>>, x: Seq<char>, i: int)
    requires
        0 <= i < v.len(),
        v[i] == x,
        forall|j: int| 0 <= j < i ==> v[j] != x,
    ensures
        v.index_of_first(x) == Some(i),
{
    assert(v.contains(x));
    v.index_of_first_ensures(x);
}

} // verus!
