//! The session controller: unlocking and locking the vault, the alias
//! policy that follows the alias field, and the processing of an alias into
//! a derived password. Calls into the derivation engine are not made here:
//! the controller hands out requests and takes back their results.
use vstd::prelude::*;
use vstd::utf8::encode_utf8;

use crate::focus::{edited, apply_edit, FieldId, FocusCoordinator};
use crate::keyboard::{Edit, TimerCmd};
use crate::text::{str_equal, trim, trimmed};

verus! {

/// Where the session stands.
#[derive(Clone, Copy, Debug, PartialEq, Eq, Structural)]
pub enum SessionState {
    /// Locked: the entrance form asks for the master password.
    New,
    /// The master password is being checked by the engine.
    Unlocking,
    /// Unlocked: the engine is at hand.
    Initialized,
}

/// What processing does with the alias.
#[derive(Clone, Copy, Debug, PartialEq, Eq, Structural)]
pub enum AliasHandle {
    /// Derive the password and remember an unknown alias.
    Store,
    /// Derive the password, do not remember the alias.
    Ignore,
    /// Forget a known alias.
    Remove,
}

/// Which characters a derived password is made of.
#[derive(Clone, Copy, Debug, PartialEq, Eq, Structural)]
pub enum Charset {
    Standard,
    RequireAll,
    Reduced,
}

/// The position of an alias handle among the options offered.
pub open spec fn handle_position(handle: AliasHandle) -> usize {
    match handle {
        AliasHandle::Store => 0,
        AliasHandle::Ignore => 1,
        AliasHandle::Remove => 2,
    }
}

/// The position of a charset among the options offered.
pub open spec fn charset_position(charset: Charset) -> usize {
    match charset {
        Charset::Standard => 0,
        Charset::RequireAll => 1,
        Charset::Reduced => 2,
    }
}

/// The position of an alias handle among the options offered.
pub fn alias_handle_id(handle: AliasHandle) -> (r: usize)
    ensures
        r == handle_position(handle),
{
    match handle {
        AliasHandle::Store => 0,
        AliasHandle::Ignore => 1,
        AliasHandle::Remove => 2,
    }
}

/// The position of a charset among the options offered.
pub fn charset_id(charset: Charset) -> (r: usize)
    ensures
        r == charset_position(charset),
{
    match charset {
        Charset::Standard => 0,
        Charset::RequireAll => 1,
        Charset::Reduced => 2,
    }
}

/// The alias handle at a position among the options offered.
pub fn alias_handle_from_id(id: usize) -> (r: Option<AliasHandle>)
    ensures
        id < 3 ==> (r matches Some(h) && handle_position(h) == id),
        id >= 3 ==> r is None,
{
    if id == 0 {
        Some(AliasHandle::Store)
    } else if id == 1 {
        Some(AliasHandle::Ignore)
    } else if id == 2 {
        Some(AliasHandle::Remove)
    } else {
        None
    }
}

/// The charset at a position among the options offered.
pub fn charset_from_id(id: usize) -> (r: Option<Charset>)
    ensures
        id < 3 ==> (r matches Some(c) && charset_position(c) == id),
        id >= 3 ==> r is None,
{
    if id == 0 {
        Some(Charset::Standard)
    } else if id == 1 {
        Some(Charset::RequireAll)
    } else if id == 2 {
        Some(Charset::Reduced)
    } else {
        None
    }
}

/// The option position written in an option's value, if it is one.
pub open spec fn option_position(value: Seq<char>) -> Option<usize> {
    if value == "0"@ {
        Some(0)
    } else if value == "1"@ {
        Some(1)
    } else if value == "2"@ {
        Some(2)
    } else {
        None
    }
}

/// Reads the option position written in an option's value.
pub fn parse_option(value: &str) -> (r: Option<usize>)
    ensures
        r == option_position(value@),
{
    if str_equal(value, "0") {
        Some(0)
    } else if str_equal(value, "1") {
        Some(1)
    } else if str_equal(value, "2") {
        Some(2)
    } else {
        None
    }
}

/// A known alias with the settings it was stored with.
pub struct AliasInfo {
    pub name: String,
    pub uses_secret: bool,
    pub charset: Charset,
}

/// The names of a list of known aliases.
pub open spec fn alias_names(list: Seq<AliasInfo>) -> Seq<Seq<char>> {
    list.map_values(|a: AliasInfo| a.name@)
}

/// The settings stored for alias `name`: those of its first entry.
pub open spec fn lookup(list: Seq<AliasInfo>, name: Seq<char>) -> Option<(bool, Charset)> {
    match alias_names(list).index_of_first(name) {
        Some(i) => Some((list[i].uses_secret, list[i].charset)),
        None => None,
    }
}

/// The settings stored for alias `name`, if it is known.
pub fn find_alias(list: &Vec<AliasInfo>, name: &str) -> (r: Option<(bool, Charset)>)
    ensures
        r == lookup(list@, name@),
{
    let mut i: usize = 0;
    while i < list.len()
        invariant
            i <= list.len(),
            forall|j: int| 0 <= j < i ==> alias_names(list@)[j] != name@,
        decreases list.len() - i,
    {
        assert(alias_names(list@)[i as int] == list@[i as int].name@);
        if str_equal(list[i].name.as_str(), name) {
            proof {
                alias_names(list@).index_of_first_ensures(name@);
                assert(alias_names(list@).contains(name@));
            }
            return Some((list[i].uses_secret, list[i].charset));
        }
        i = i + 1;
    }
    proof {
        alias_names(list@).index_of_first_ensures(name@);
        if alias_names(list@).contains(name@) {
            let k = choose|k: int| 0 <= k < alias_names(list@).len() && alias_names(list@)[k] == name@;
        }
    }
    None
}

/// The alias policy: what processing will do, and with which settings.
#[derive(Clone, Copy, Debug, PartialEq, Eq, Structural)]
pub struct Policy {
    /// What processing does with the alias.
    pub handle: AliasHandle,
    /// The handle the user last chose.
    pub handle_choice: AliasHandle,
    /// Whether the alias takes a secret.
    pub use_secret: bool,
    /// The charset in force.
    pub charset: Charset,
    /// The charset the user last chose.
    pub charset_choice: Charset,
    /// Whether the alias is a known one.
    pub known: bool,
}

/// The policy of a fresh form.
pub open spec fn default_policy() -> Policy {
    Policy {
        handle: AliasHandle::Store,
        handle_choice: AliasHandle::Store,
        use_secret: true,
        charset: Charset::Standard,
        charset_choice: Charset::Standard,
        known: false,
    }
}

/// The handle in force for an unknown alias: the user's last choice, but
/// `Store` where that was `Remove`, which only applies to known aliases.
pub open spec fn handle_for_unknown(choice: AliasHandle) -> AliasHandle {
    if choice == AliasHandle::Remove {
        AliasHandle::Store
    } else {
        choice
    }
}

/// The policy once the alias changed to one whose stored settings are
/// `info` (`None`: an unknown alias). A known alias is stored, with its own
/// settings; an unknown one takes the user's last choices and a secret.
pub open spec fn policy_for(p: Policy, info: Option<(bool, Charset)>) -> Policy {
    match info {
        Some((uses_secret, charset)) => Policy {
            handle: AliasHandle::Store,
            use_secret: uses_secret,
            charset: charset,
            known: true,
            ..p
        },
        None => Policy {
            handle: handle_for_unknown(p.handle_choice),
            use_secret: true,
            charset: p.charset_choice,
            known: false,
            ..p
        },
    }
}

/// The policy once the alias changed to one whose stored settings are
/// `info` (`None`: an unknown alias).
pub fn policy_after(p: Policy, info: Option<(bool, Charset)>) -> (r: Policy)
    ensures
        r == policy_for(p, info),
{
    match info {
        Some((uses_secret, charset)) => Policy {
            handle: AliasHandle::Store,
            use_secret: uses_secret,
            charset: charset,
            known: true,
            ..p
        },
        None => Policy {
            handle: if p.handle_choice == AliasHandle::Remove {
                AliasHandle::Store
            } else {
                p.handle_choice
            },
            use_secret: true,
            charset: p.charset_choice,
            known: false,
            ..p
        },
    }
}

/// A policy's invariant: `Remove` only for a known alias, and `Ignore` not
/// for one (a known alias is already stored).
pub open spec fn policy_wf(p: Policy) -> bool {
    &&& (p.handle == AliasHandle::Remove ==> p.known)
    &&& (p.known ==> p.handle != AliasHandle::Ignore)
}

/// Whether the user may pick handle `h` under policy `p`.
pub open spec fn handle_allowed(p: Policy, h: AliasHandle) -> bool {
    match h {
        AliasHandle::Store => true,
        AliasHandle::Ignore => !p.known,
        AliasHandle::Remove => p.known,
    }
}

/// Selecting a known alias and then typing it into an unknown one gives
/// back the user's last choices (`Store` for a last choice of `Remove`) and
/// asks for a secret again, whatever the known alias's stored settings were.
pub proof fn lemma_policy_reconciles(
    p: Policy,
    list: Seq<AliasInfo>,
    known: Seq<char>,
    unknown: Seq<char>,
)
    requires
        lookup(list, known) is Some,
        lookup(list, unknown) is None,
    ensures
        ({
            let q = policy_for(policy_for(p, lookup(list, known)), lookup(list, unknown));
            &&& q.handle == handle_for_unknown(p.handle_choice)
            &&& q.use_secret
            &&& q.charset == p.charset_choice
            &&& !q.known
            &&& q.handle_choice == p.handle_choice
            &&& q.charset_choice == p.charset_choice
        }),
{
}

/// Every policy that the alias field produces keeps the invariant.
pub proof fn lemma_policy_for_wf(p: Policy, info: Option<(bool, Charset)>)
    ensures
        policy_wf(policy_for(p, info)),
{
}

/// The lock timer after the app goes to the background: armed (replacing
/// any timer already armed) unless the session is locked.
pub open spec fn pause_step(state: SessionState, armed: bool) -> (bool, TimerCmd) {
    if state != SessionState::New {
        (true, TimerCmd::Restart)
    } else {
        (armed, TimerCmd::Keep)
    }
}

/// The lock timer after the app comes back: cancelled, armed or not.
pub open spec fn resume_step(armed: bool) -> (bool, TimerCmd) {
    (false, TimerCmd::Cancel)
}

/// Going to the background twice arms the same single timer as going once
/// (the second time replaces it), and coming back with no timer armed
/// leaves none armed.
pub proof fn lemma_lock_idempotent(state: SessionState, armed: bool)
    ensures
        pause_step(state, pause_step(state, armed).0) == pause_step(state, armed),
        pause_step(state, armed).1 != TimerCmd::Keep ==> pause_step(state, armed).1
            == TimerCmd::Restart,
        resume_step(false).0 == false,
        resume_step(resume_step(armed).0) == resume_step(armed),
{
}

/// What the Enter key does in a form.
#[derive(Clone, Copy, Debug, PartialEq, Eq, Structural)]
pub enum EnterAction {
    /// Unlock the vault.
    Login,
    /// Process the alias.
    Process,
    /// Nothing: the form is not ready.
    Ignore,
}

/// A call that processing asks of the derivation engine.
#[derive(Debug, PartialEq, Eq)]
pub enum EngineRequest {
    /// Forget the alias.
    Remove { alias: String },
    /// Derive the alias's password with the given secret and charset; where
    /// `store` is set, remember the alias with `uses_secret` and the charset.
    Derive {
        alias: String,
        secret: Option<String>,
        charset: Charset,
        store: bool,
        uses_secret: bool,
    },
}

/// What the engine did with a processing request.
pub struct ProcessOutcome {
    /// The derived password (for a derivation).
    pub derived: Option<String>,
    /// The known aliases as listed after the engine changed them, where it
    /// did so successfully.
    pub aliases: Option<Vec<AliasInfo>>,
}

/// The whole state of the form and its session.
pub struct Session {
    pub state: SessionState,
    /// The master password typed.
    pub master_password: String,
    /// The repeated master password, asked when the vault is created.
    pub master_password2: String,
    /// Set when the last unlock failed.
    pub mp_wrong: bool,
    /// The aliases stored in the vault.
    pub known_aliases: Vec<AliasInfo>,
    /// The alias typed.
    pub alias: String,
    /// The alias's secret typed.
    pub secret: String,
    pub policy: Policy,
    /// The derived password shown.
    pub password_msg: String,
    /// Whether the lock timer is armed.
    pub lock_timer_armed: bool,
    pub focus: FocusCoordinator,
    /// Whether the policy options are shown.
    pub options_visible: bool,
    /// Whether the on-screen keyboard is shown.
    pub keyboard_visible: bool,
}

/// Whether an alias's text holds something to process.
pub open spec fn alias_present(alias: Seq<char>) -> bool {
    trimmed(alias).len() > 0
}

impl Session {
    /// The session's invariant.
    pub open spec fn wf(&self) -> bool {
        &&& policy_wf(self.policy)
        &&& (self.lock_timer_armed ==> self.state != SessionState::New)
        &&& (self.state != SessionState::Initialized ==> self.known_aliases@.len() == 0)
    }

    /// The fields of the entrance form are those of `o`.
    pub open spec fn same_entry(&self, o: &Session) -> bool {
        &&& self.master_password == o.master_password
        &&& self.master_password2 == o.master_password2
        &&& self.mp_wrong == o.mp_wrong
    }

    /// The fields of the unlocked form are those of `o`.
    pub open spec fn same_work(&self, o: &Session) -> bool {
        &&& self.known_aliases == o.known_aliases
        &&& self.alias == o.alias
        &&& self.secret == o.secret
        &&& self.policy == o.policy
        &&& self.password_msg == o.password_msg
    }

    /// The session state, timer, focus and visibility are those of `o`.
    pub open spec fn same_frame(&self, o: &Session) -> bool {
        &&& self.state == o.state
        &&& self.lock_timer_armed == o.lock_timer_armed
        &&& self.focus == o.focus
        &&& self.options_visible == o.options_visible
        &&& self.keyboard_visible == o.keyboard_visible
    }

    /// Whether the master password may be submitted: at least eight bytes
    /// (as `str::len` counts them), and, where no vault exists yet, typed
    /// the same twice.
    pub open spec fn mp_valid(&self, vault_exists: bool) -> bool {
        &&& encode_utf8(self.master_password@).len() as usize >= 8
        &&& (!vault_exists ==> self.master_password@ == self.master_password2@)
    }

    /// Whether the alias may be processed: a known alias may always be
    /// removed; otherwise the alias must be present, and a known alias that
    /// takes a secret needs one.
    pub open spec fn alias_processable(&self) -> bool {
        if self.policy.handle == AliasHandle::Remove {
            self.policy.known
        } else {
            alias_present(self.alias@) && (!self.policy.use_secret || self.secret@.len() > 0
                || !self.policy.known)
        }
    }

    /// A locked session with empty forms.
    pub fn new() -> (r: Session)
        ensures
            r.wf(),
            r.state == SessionState::New,
            r.master_password@.len() == 0,
            r.master_password2@.len() == 0,
            !r.mp_wrong,
            r.known_aliases@.len() == 0,
            r.alias@.len() == 0,
            r.secret@.len() == 0,
            r.policy == default_policy(),
            r.password_msg@.len() == 0,
            !r.lock_timer_armed,
            r.focus.current is None,
            !r.options_visible,
            r.keyboard_visible,
    {
        Session {
            state: SessionState::New,
            master_password: String::new(),
            master_password2: String::new(),
            mp_wrong: false,
            known_aliases: Vec::new(),
            alias: String::new(),
            secret: String::new(),
            policy: Policy {
                handle: AliasHandle::Store,
                handle_choice: AliasHandle::Store,
                use_secret: true,
                charset: Charset::Standard,
                charset_choice: Charset::Standard,
                known: false,
            },
            password_msg: String::new(),
            lock_timer_armed: false,
            focus: FocusCoordinator::new(),
            options_visible: false,
            keyboard_visible: true,
        }
    }

    /// Whether the master password may be submitted.
    pub fn mp_looks_valid(&self, vault_exists: bool) -> (r: bool)
        ensures
            r == self.mp_valid(vault_exists),
    {
        let long_enough = self.master_password.as_str().len() >= 8;
        if !long_enough {
            return false;
        }
        if !vault_exists {
            str_equal(self.master_password.as_str(), self.master_password2.as_str())
        } else {
            true
        }
    }

    /// Whether the alias may be processed.
    pub fn can_process_alias(&self) -> (r: bool)
        ensures
            r == self.alias_processable(),
    {
        if self.policy.handle == AliasHandle::Remove {
            self.policy.known
        } else {
            let t = trim(self.alias.as_str());
            t.as_str().unicode_len() > 0 && (!self.policy.use_secret
                || self.secret.as_str().unicode_len() > 0 || !self.policy.known)
        }
    }

    /// The app goes to the background: unless the session is locked, the
    /// lock timer is armed, replacing any armed before.
    pub fn on_pause(&mut self) -> (cmd: TimerCmd)
        requires
            old(self).wf(),
        ensures
            final(self).wf(),
            (final(self).lock_timer_armed, cmd) == pause_step(
                old(self).state,
                old(self).lock_timer_armed,
            ),
            final(self).state == old(self).state,
            final(self).same_entry(old(self)),
            final(self).same_work(old(self)),
            final(self).focus == old(self).focus,
            final(self).options_visible == old(self).options_visible,
            final(self).keyboard_visible == old(self).keyboard_visible,
    {
        if self.state != SessionState::New {
            self.lock_timer_armed = true;
            TimerCmd::Restart
        } else {
            TimerCmd::Keep
        }
    }

    /// The app comes back: the lock timer is cancelled, armed or not.
    pub fn on_resume(&mut self) -> (cmd: TimerCmd)
        requires
            old(self).wf(),
        ensures
            final(self).wf(),
            (final(self).lock_timer_armed, cmd) == resume_step(old(self).lock_timer_armed),
            final(self).state == old(self).state,
            final(self).same_entry(old(self)),
            final(self).same_work(old(self)),
            final(self).focus == old(self).focus,
            final(self).options_visible == old(self).options_visible,
            final(self).keyboard_visible == old(self).keyboard_visible,
    {
        self.lock_timer_armed = false;
        TimerCmd::Cancel
    }

    /// The alias becomes unknown and empty, with the policy that follows.
    fn reset_alias(&mut self)
        ensures
            final(self).alias@.len() == 0,
            final(self).policy == policy_for(old(self).policy, None),
            final(self).state == old(self).state,
            final(self).same_entry(old(self)),
            final(self).known_aliases == old(self).known_aliases,
            final(self).secret == old(self).secret,
            final(self).password_msg == old(self).password_msg,
            final(self).same_frame(old(self)),
    {
        self.alias = String::new();
        self.policy = policy_after(self.policy, None);
    }

    /// The lock timer fired: the session locks, and the passwords, known
    /// aliases, alias, secret and derived password are discarded.
    pub fn lock(&mut self) -> (cmd: TimerCmd)
        requires
            old(self).wf(),
        ensures
            final(self).wf(),
            cmd == TimerCmd::Cancel,
            final(self).state == SessionState::New,
            !final(self).lock_timer_armed,
            final(self).master_password@.len() == 0,
            final(self).master_password2@.len() == 0,
            final(self).mp_wrong == old(self).mp_wrong,
            final(self).known_aliases@.len() == 0,
            final(self).alias@.len() == 0,
            final(self).secret@.len() == 0,
            final(self).password_msg@.len() == 0,
            final(self).policy == policy_for(old(self).policy, None),
            final(self).focus == old(self).focus,
            final(self).options_visible == old(self).options_visible,
            final(self).keyboard_visible == old(self).keyboard_visible,
    {
        self.state = SessionState::New;
        self.master_password = String::new();
        self.master_password2 = String::new();
        self.known_aliases = Vec::new();
        self.reset_alias();
        self.secret = String::new();
        self.password_msg = String::new();
        self.lock_timer_armed = false;
        TimerCmd::Cancel
    }

    /// Field `f` (`None`: the neutral anchor) receives focus. The derived
    /// password is cleared when focus moves elsewhere.
    pub fn on_field_focus(&mut self, f: Option<FieldId>)
        requires
            old(self).wf(),
        ensures
            final(self).wf(),
            final(self).focus.current == f,
            old(self).focus.current != f ==> final(self).password_msg@.len() == 0,
            old(self).focus.current == f ==> final(self).password_msg == old(self).password_msg,
            final(self).state == old(self).state,
            final(self).lock_timer_armed == old(self).lock_timer_armed,
            final(self).same_entry(old(self)),
            final(self).known_aliases == old(self).known_aliases,
            final(self).alias == old(self).alias,
            final(self).secret == old(self).secret,
            final(self).policy == old(self).policy,
            final(self).options_visible == old(self).options_visible,
            final(self).keyboard_visible == old(self).keyboard_visible,
    {
        let same = match (self.focus.current_focus(), f) {
            (Some(a), Some(b)) => a == b,
            (None, None) => true,
            _ => false,
        };
        if !same {
            self.password_msg = String::new();
        }
        self.focus.set_focused(f);
    }

    /// The master password field now holds `input`.
    pub fn on_password_input(&mut self, input: String)
        requires
            old(self).wf(),
        ensures
            final(self).wf(),
            final(self).master_password == input,
            !final(self).mp_wrong,
            final(self).master_password2 == old(self).master_password2,
            final(self).same_work(old(self)),
            final(self).same_frame(old(self)),
    {
        self.master_password = input;
        self.mp_wrong = false;
    }

    /// The repeated master password field now holds `input`.
    pub fn on_password2_input(&mut self, input: String)
        requires
            old(self).wf(),
        ensures
            final(self).wf(),
            final(self).master_password2 == input,
            final(self).master_password == old(self).master_password,
            final(self).mp_wrong == old(self).mp_wrong,
            final(self).same_work(old(self)),
            final(self).same_frame(old(self)),
    {
        self.master_password2 = input;
    }

    /// The secret field now holds `input`.
    pub fn on_secret_input(&mut self, input: String)
        requires
            old(self).wf(),
        ensures
            final(self).wf(),
            final(self).secret == input,
            final(self).same_entry(old(self)),
            final(self).known_aliases == old(self).known_aliases,
            final(self).alias == old(self).alias,
            final(self).policy == old(self).policy,
            final(self).password_msg == old(self).password_msg,
            final(self).same_frame(old(self)),
    {
        self.secret = input;
    }

    /// The alias field now holds `input`. The policy follows the alias: a
    /// known alias takes its stored settings, an unknown one the user's last
    /// choices. A change of the alias clears the derived password.
    pub fn on_alias_input(&mut self, input: String)
        requires
            old(self).wf(),
        ensures
            final(self).wf(),
            final(self).alias == input,
            final(self).policy == policy_for(
                old(self).policy,
                lookup(old(self).known_aliases@, input@),
            ),
            input@ != old(self).alias@ ==> final(self).password_msg@.len() == 0,
            input@ == old(self).alias@ ==> final(self).password_msg == old(self).password_msg,
            final(self).same_entry(old(self)),
            final(self).known_aliases == old(self).known_aliases,
            final(self).secret == old(self).secret,
            final(self).same_frame(old(self)),
    {
        if !str_equal(self.alias.as_str(), input.as_str()) {
            self.password_msg = String::new();
        }
        let info = find_alias(&self.known_aliases, input.as_str());
        self.policy = policy_after(self.policy, info);
        self.alias = input;
    }

    /// The user picks alias handle `h`; one that does not apply to the
    /// alias (`Remove` for an unknown alias, `Ignore` for a known one) is
    /// refused and changes nothing.
    pub fn set_alias_handle(&mut self, h: AliasHandle) -> (accepted: bool)
        requires
            old(self).wf(),
        ensures
            final(self).wf(),
            accepted == handle_allowed(old(self).policy, h),
            accepted ==> final(self).policy == (Policy {
                handle: h,
                handle_choice: h,
                ..old(self).policy
            }),
            !accepted ==> final(self).policy == old(self).policy,
            final(self).same_entry(old(self)),
            final(self).known_aliases == old(self).known_aliases,
            final(self).alias == old(self).alias,
            final(self).secret == old(self).secret,
            final(self).password_msg == old(self).password_msg,
            final(self).same_frame(old(self)),
    {
        let allowed = match h {
            AliasHandle::Store => true,
            AliasHandle::Ignore => !self.policy.known,
            AliasHandle::Remove => self.policy.known,
        };
        if allowed {
            self.policy.handle = h;
            self.policy.handle_choice = h;
        }
        allowed
    }

    /// The user picks charset `c`; a known alias keeps its stored charset,
    /// so there the choice is refused and changes nothing.
    pub fn set_charset(&mut self, c: Charset) -> (accepted: bool)
        requires
            old(self).wf(),
        ensures
            final(self).wf(),
            accepted == !old(self).policy.known,
            accepted ==> final(self).policy == (Policy {
                charset: c,
                charset_choice: c,
                ..old(self).policy
            }),
            !accepted ==> final(self).policy == old(self).policy,
            final(self).same_entry(old(self)),
            final(self).known_aliases == old(self).known_aliases,
            final(self).alias == old(self).alias,
            final(self).secret == old(self).secret,
            final(self).password_msg == old(self).password_msg,
            final(self).same_frame(old(self)),
    {
        if self.policy.known {
            false
        } else {
            self.policy.charset = c;
            self.policy.charset_choice = c;
            true
        }
    }

    /// The policy options are shown or hidden.
    pub fn set_options_visible(&mut self, visible: bool)
        ensures
            final(self).options_visible == visible,
            final(self).state == old(self).state,
            final(self).lock_timer_armed == old(self).lock_timer_armed,
            final(self).focus == old(self).focus,
            final(self).keyboard_visible == old(self).keyboard_visible,
            final(self).same_entry(old(self)),
            final(self).same_work(old(self)),
    {
        self.options_visible = visible;
    }

    /// The on-screen keyboard is shown or hidden.
    pub fn set_keyboard_visible(&mut self, visible: bool)
        ensures
            final(self).keyboard_visible == visible,
            final(self).state == old(self).state,
            final(self).lock_timer_armed == old(self).lock_timer_armed,
            final(self).focus == old(self).focus,
            final(self).options_visible == old(self).options_visible,
            final(self).same_entry(old(self)),
            final(self).same_work(old(self)),
    {
        self.keyboard_visible = visible;
    }

    /// What Enter does: in the entrance form, unlock once the master
    /// password may be submitted; in the unlocked form, process once the
    /// alias may be processed. No form takes input while unlocking.
    pub fn on_enter(&self, vault_exists: bool) -> (r: EnterAction)
        requires
            self.state != SessionState::Unlocking,
        ensures
            self.state == SessionState::New ==> r == (if self.mp_valid(vault_exists) {
                EnterAction::Login
            } else {
                EnterAction::Ignore
            }),
            self.state == SessionState::Initialized ==> r == (if self.alias_processable() {
                EnterAction::Process
            } else {
                EnterAction::Ignore
            }),
    {
        if self.state == SessionState::New {
            if self.mp_looks_valid(vault_exists) {
                EnterAction::Login
            } else {
                EnterAction::Ignore
            }
        } else {
            if self.can_process_alias() {
                EnterAction::Process
            } else {
                EnterAction::Ignore
            }
        }
    }

    /// Unlocking starts, where the session is locked and the master password
    /// may be submitted. The engine is then asked to open the vault with
    /// `unlock_password`, once the app has had a moment to show that it is
    /// busy.
    pub fn login(&mut self, vault_exists: bool) -> (started: bool)
        requires
            old(self).wf(),
        ensures
            final(self).wf(),
            started == (old(self).state == SessionState::New && old(self).mp_valid(
                vault_exists,
            )),
            started ==> final(self).state == SessionState::Unlocking,
            !started ==> final(self).state == old(self).state,
            final(self).lock_timer_armed == old(self).lock_timer_armed,
            final(self).focus == old(self).focus,
            final(self).options_visible == old(self).options_visible,
            final(self).keyboard_visible == old(self).keyboard_visible,
            final(self).same_entry(old(self)),
            final(self).same_work(old(self)),
    {
        if self.state == SessionState::New && self.mp_looks_valid(vault_exists) {
            self.state = SessionState::Unlocking;
            true
        } else {
            false
        }
    }

    /// The master password to open the vault with, while unlocking.
    pub fn unlock_password(&self) -> (r: Option<String>)
        ensures
            self.state == SessionState::Unlocking ==> (r matches Some(p) && p@
                == self.master_password@),
            self.state != SessionState::Unlocking ==> r is None,
    {
        if self.state == SessionState::Unlocking {
            Some(self.master_password.clone())
        } else {
            None
        }
    }

    /// The engine answered the unlock request: with the known aliases where
    /// the master password opened the vault, `None` where it did not. The
    /// master password is cleared either way; a failure flags it wrong and
    /// locks again. An answer that comes after the session left
    /// `Unlocking` (it was locked meanwhile) is refused and changes nothing.
    pub fn on_unlock_result(&mut self, aliases: Option<Vec<AliasInfo>>) -> (r: (bool, TimerCmd))
        requires
            old(self).wf(),
        ensures
            final(self).wf(),
            r.0 == (old(self).state == SessionState::Unlocking),
            !r.0 ==> r.1 == TimerCmd::Keep && *final(self) == *old(self),
            r.0 && aliases is Some ==> {
                &&& final(self).state == SessionState::Initialized
                &&& final(self).known_aliases == aliases.unwrap()
                &&& final(self).mp_wrong == old(self).mp_wrong
                &&& final(self).lock_timer_armed == old(self).lock_timer_armed
                &&& r.1 == TimerCmd::Keep
            },
            r.0 && aliases is None ==> {
                &&& final(self).state == SessionState::New
                &&& final(self).known_aliases@.len() == 0
                &&& final(self).mp_wrong
                &&& !final(self).lock_timer_armed
                &&& r.1 == TimerCmd::Cancel
            },
            r.0 ==> {
                &&& final(self).master_password@.len() == 0
                &&& final(self).master_password2@.len() == 0
                &&& final(self).alias == old(self).alias
                &&& final(self).secret == old(self).secret
                &&& final(self).policy == old(self).policy
                &&& final(self).password_msg == old(self).password_msg
                &&& final(self).focus == old(self).focus
                &&& final(self).options_visible == old(self).options_visible
                &&& final(self).keyboard_visible == old(self).keyboard_visible
            },
    {
        if self.state != SessionState::Unlocking {
            return (false, TimerCmd::Keep);
        }
        self.master_password = String::new();
        self.master_password2 = String::new();
        match aliases {
            Some(list) => {
                self.state = SessionState::Initialized;
                self.known_aliases = list;
                (true, TimerCmd::Keep)
            },
            None => {
                self.state = SessionState::New;
                self.mp_wrong = true;
                self.lock_timer_armed = false;
                (true, TimerCmd::Cancel)
            },
        }
    }

    /// The request that processing the alias makes of the engine, where the
    /// session is unlocked and the alias may be processed. The alias goes
    /// without surrounding whitespace. `Remove` forgets it; otherwise its
    /// password is derived, with the secret where one is typed and the
    /// alias takes one, and an unknown alias under `Store` is remembered.
    pub fn process_request(&self) -> (r: Option<EngineRequest>)
        ensures
            !(self.state == SessionState::Initialized && self.alias_processable()) ==> r is None,
            self.state == SessionState::Initialized && self.alias_processable() ==> match r {
                Some(EngineRequest::Remove { alias }) => {
                    &&& self.policy.handle == AliasHandle::Remove
                    &&& alias@ == trimmed(self.alias@)
                },
                Some(EngineRequest::Derive { alias, secret, charset, store, uses_secret }) => {
                    &&& self.policy.handle != AliasHandle::Remove
                    &&& alias@ == trimmed(self.alias@)
                    &&& charset == self.policy.charset
                    &&& (self.policy.use_secret && self.secret@.len() > 0 ==> (secret matches Some(
                        s,
                    ) && s@ == self.secret@))
                    &&& (!(self.policy.use_secret && self.secret@.len() > 0) ==> secret is None)
                    &&& uses_secret == secret is Some
                    &&& store == (self.policy.handle == AliasHandle::Store && !alias_names(
                        self.known_aliases@,
                    ).contains(trimmed(self.alias@)))
                },
                None => false,
            },
    {
        if self.state != SessionState::Initialized || !self.can_process_alias() {
            return None;
        }
        let alias = trim(self.alias.as_str());
        if self.policy.handle == AliasHandle::Remove {
            return Some(EngineRequest::Remove { alias });
        }
        let secret = if self.policy.use_secret && self.secret.as_str().unicode_len() > 0 {
            Some(self.secret.clone())
        } else {
            None
        };
        let uses_secret = secret.is_some();
        let known = find_alias(&self.known_aliases, alias.as_str());
        proof {
            alias_names(self.known_aliases@).index_of_first_ensures(alias@);
        }
        let store = self.policy.handle == AliasHandle::Store && known.is_none();
        Some(
            EngineRequest::Derive {
                alias,
                secret,
                charset: self.policy.charset,
                store,
                uses_secret,
            },
        )
    }

    /// Processing is done: the derived password (if any) is shown, the
    /// known aliases are replaced where the engine listed them anew, and the
    /// alias, secret and policy go back to their defaults. Focus moves to
    /// the neutral anchor, so that the next action does not seem to aim at
    /// the field just cleared.
    pub fn finish_process(&mut self, outcome: ProcessOutcome)
        requires
            old(self).wf(),
            old(self).state == SessionState::Initialized,
        ensures
            final(self).wf(),
            final(self).state == SessionState::Initialized,
            match outcome.derived {
                Some(p) => final(self).password_msg == p,
                None => final(self).password_msg@.len() == 0,
            },
            match outcome.aliases {
                Some(list) => final(self).known_aliases == list,
                None => final(self).known_aliases == old(self).known_aliases,
            },
            final(self).alias@.len() == 0,
            final(self).secret@.len() == 0,
            final(self).policy == default_policy(),
            final(self).focus.current is None,
            final(self).lock_timer_armed == old(self).lock_timer_armed,
            final(self).same_entry(old(self)),
            final(self).options_visible == old(self).options_visible,
            final(self).keyboard_visible == old(self).keyboard_visible,
    {
        self.password_msg = match outcome.derived {
            Some(p) => p,
            None => String::new(),
        };
        if let Some(list) = outcome.aliases {
            self.known_aliases = list;
        }
        self.alias = String::new();
        self.secret = String::new();
        self.policy = Policy {
            handle: AliasHandle::Store,
            handle_choice: AliasHandle::Store,
            use_secret: true,
            charset: Charset::Standard,
            charset_choice: Charset::Standard,
            known: false,
        };
        self.focus.set_focused(None);
    }

    /// An on-screen keyboard edit reaches the focused field, which then
    /// takes the new text as if typed (the alias without surrounding
    /// whitespace). Returns the field edited, if any field has focus.
    pub fn on_keyboard_edit(&mut self, e: Edit) -> (r: Option<FieldId>)
        requires
            old(self).wf(),
        ensures
            final(self).wf(),
            r == old(self).focus.current,
            r == Some(FieldId::MasterPassword) ==> final(self).master_password@ == edited(
                old(self).master_password@,
                e,
            ) && !final(self).mp_wrong && final(self).same_work(old(self)),
            r == Some(FieldId::MasterPasswordRepeat) ==> final(self).master_password2@ == edited(
                old(self).master_password2@,
                e,
            ) && final(self).same_work(old(self)),
            r == Some(FieldId::Alias) ==> {
                &&& final(self).alias@ == trimmed(edited(old(self).alias@, e))
                &&& final(self).policy == policy_for(
                    old(self).policy,
                    lookup(old(self).known_aliases@, final(self).alias@),
                )
                &&& final(self).secret == old(self).secret
                &&& final(self).same_entry(old(self))
            },
            r == Some(FieldId::Secret) ==> final(self).secret@ == edited(old(self).secret@, e)
                && final(self).same_entry(old(self)),
            r is None ==> final(self).same_entry(old(self)) && final(self).same_work(old(self)),
            final(self).known_aliases == old(self).known_aliases,
            final(self).same_frame(old(self)),
    {
        match self.focus.current_focus() {
            Some(FieldId::MasterPassword) => {
                let v = apply_edit(self.master_password.as_str(), e);
                self.on_password_input(v);
                Some(FieldId::MasterPassword)
            },
            Some(FieldId::MasterPasswordRepeat) => {
                let v = apply_edit(self.master_password2.as_str(), e);
                self.on_password2_input(v);
                Some(FieldId::MasterPasswordRepeat)
            },
            Some(FieldId::Alias) => {
                let v = apply_edit(self.alias.as_str(), e);
                let t = trim(v.as_str());
                self.on_alias_input(t);
                Some(FieldId::Alias)
            },
            Some(FieldId::Secret) => {
                let v = apply_edit(self.secret.as_str(), e);
                self.on_secret_input(v);
                Some(FieldId::Secret)
            },
            None => None,
        }
    }

    /// Whether the secret field is disabled: no alias, or an alias that
    /// takes no secret.
    pub fn secret_disabled(&self) -> (r: bool)
        ensures
            r == (!alias_present(self.alias@) || !self.policy.use_secret),
    {
        let t = trim(self.alias.as_str());
        t.as_str().unicode_len() == 0 || !self.policy.use_secret
    }

    /// Which alias handle options are disabled, by position: `Ignore` for a
    /// known alias, `Remove` for an unknown one.
    pub fn alias_handle_options_disabled(&self) -> (r: [bool; 3])
        ensures
            r@ == seq![false, self.policy.known, !self.policy.known],
    {
        let r = [false, self.policy.known, !self.policy.known];
        assert(r@ =~= seq![false, self.policy.known, !self.policy.known]);
        r
    }

    /// Which charset options are disabled, by position: all of them for a
    /// known alias, whose charset is stored.
    pub fn charset_options_disabled(&self) -> (r: [bool; 3])
        ensures
            r@ == seq![self.policy.known, self.policy.known, self.policy.known],
    {
        let k = self.policy.known;
        let r = [k, k, k];
        assert(r@ =~= seq![k, k, k]);
        r
    }
}

} // verus!
