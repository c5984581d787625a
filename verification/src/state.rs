//! State that the whole application shares: which turn is the present one,
//! whether the user muted the microphone, and the chosen devices.
use vstd::prelude::*;
use vstd::string::*;

use crate::json::opt_view;
use crate::text::same;

verus! {

/// The flags of all cancellation tokens. They are kept in one place, so that
/// everyone who holds a token sees the same flag.
#[derive(Debug)]
pub struct CancelFlags {
    flags: Vec<bool>,
}

impl CancelFlags {
    /// Whether each of the tokens was cancelled, in the order in which they
    /// were made.
    pub closed spec fn view(&self) -> Seq<bool> {
        self.flags@
    }
}

impl Default for CancelFlags {
    fn default() -> (r: CancelFlags)
        ensures
            r@ == Seq::<bool>::empty(),
    {
        CancelFlags { flags: Vec::new() }
    }
}

/// The name of a flag that says whether one turn was cancelled. A copy names
/// the same flag.
#[derive(Debug, Clone, Copy)]
pub struct CancelToken {
    flag: usize,
}

impl CancelToken {
    /// The place of the flag.
    pub closed spec fn view(&self) -> nat {
        self.flag as nat
    }

    /// A token with a flag of its own, not cancelled.
    pub fn new(flags: &mut CancelFlags) -> (r: CancelToken)
        ensures
            final(flags)@ == old(flags)@.push(false),
            r@ == old(flags)@.len(),
    {
        let flag: usize = flags.flags.len();
        flags.flags.push(false);
        CancelToken { flag }
    }

    /// Cancels the turn, for everyone who holds the token.
    pub fn cancel(&self, flags: &mut CancelFlags)
        requires
            self@ < old(flags)@.len(),
        ensures
            final(flags)@ == old(flags)@.update(self@ as int, true),
    {
        flags.flags.set(self.flag, true);
    }

    /// Whether the turn was cancelled.
    pub fn is_cancelled(&self, flags: &CancelFlags) -> (r: bool)
        requires
            self@ < flags@.len(),
        ensures
            r == flags@[self@ as int],
    {
        flags.flags[self.flag]
    }
}

/// A call that concerns cancellation; the tokens are given by the places of
/// their flags.
pub enum CancelCall {
    New,
    Cancel(nat),
    IsCancelled(nat),
}

/// The flags after a call.
pub open spec fn after_call(flags: Seq<bool>, call: CancelCall) -> Seq<bool> {
    match call {
        CancelCall::New => flags.push(false),
        CancelCall::Cancel(token) => if token < flags.len() {
            flags.update(token as int, true)
        } else {
            flags
        },
        CancelCall::IsCancelled(_) => flags,
    }
}

/// The flags after several calls.
pub open spec fn after_calls(flags: Seq<bool>, calls: Seq<CancelCall>) -> Seq<bool>
    decreases calls.len(),
{
    if calls.len() == 0 {
        flags
    } else {
        after_call(after_calls(flags, calls.drop_last()), calls.last())
    }
}

/// Equal tokens answer alike: cancelling either of them cancels both, and a
/// token with another flag answers as before.
pub proof fn equal_tokens_answer_alike(
    token: CancelToken,
    copy: CancelToken,
    other: CancelToken,
    flags: Seq<bool>,
)
    requires
        token == copy,
        token@ < flags.len(),
        other@ < flags.len(),
    ensures
        flags[token@ as int] == flags[copy@ as int],
        flags.update(token@ as int, true)[copy@ as int],
        flags.update(copy@ as int, true)[token@ as int],
        other@ != token@ ==> flags.update(token@ as int, true)[other@ as int]
            == flags[other@ as int],
{
}

/// A token that is cancelled stays cancelled, whatever is called later.
pub proof fn a_cancelled_token_stays_cancelled(
    flags: Seq<bool>,
    token: nat,
    calls: Seq<CancelCall>,
)
    requires
        token < flags.len(),
        flags[token as int],
    ensures
        token < after_calls(flags, calls).len(),
        after_calls(flags, calls)[token as int],
    decreases calls.len(),
{
    if calls.len() > 0 {
        a_cancelled_token_stays_cancelled(flags, token, calls.drop_last());
    }
}

/// A token that is not cancelled stays so until it is cancelled itself,
/// whatever else is called.
pub proof fn a_token_is_cancelled_by_its_own_call_only(
    flags: Seq<bool>,
    token: nat,
    calls: Seq<CancelCall>,
)
    requires
        token < flags.len(),
        !flags[token as int],
        forall|i: int| 0 <= i < calls.len() ==> #[trigger] calls[i] != CancelCall::Cancel(token),
    ensures
        token < after_calls(flags, calls).len(),
        !after_calls(flags, calls)[token as int],
    decreases calls.len(),
{
    if calls.len() > 0 {
        let before = calls.drop_last();
        assert forall|i: int| 0 <= i < before.len() implies #[trigger] before[i]
            != CancelCall::Cancel(token) by {
            assert(before[i] == calls[i]);
        }
        a_token_is_cancelled_by_its_own_call_only(flags, token, before);
        assert(calls.last() == calls[calls.len() - 1]);
    }
}

/// The flags of all mute signals, kept in one place.
#[derive(Debug)]
pub struct MuteFlags {
    flags: Vec<bool>,
}

impl MuteFlags {
    /// Whether each of the signals says that the microphone is muted, in the
    /// order in which they were made.
    pub closed spec fn view(&self) -> Seq<bool> {
        self.flags@
    }
}

impl Default for MuteFlags {
    fn default() -> (r: MuteFlags)
        ensures
            r@ == Seq::<bool>::empty(),
    {
        MuteFlags { flags: Vec::new() }
    }
}

/// The user's own mute of the microphone: the name of a flag. A copy names the
/// same flag.
#[derive(Debug, Clone, Copy)]
pub struct MicMuteSignal {
    flag: usize,
}

impl MicMuteSignal {
    /// The place of the flag.
    pub closed spec fn view(&self) -> nat {
        self.flag as nat
    }

    /// A signal with a flag of its own: the microphone is not muted.
    pub fn new(flags: &mut MuteFlags) -> (r: MicMuteSignal)
        ensures
            final(flags)@ == old(flags)@.push(false),
            r@ == old(flags)@.len(),
    {
        let flag: usize = flags.flags.len();
        flags.flags.push(false);
        MicMuteSignal { flag }
    }

    pub fn set_muted(&self, flags: &mut MuteFlags, muted: bool)
        requires
            self@ < old(flags)@.len(),
        ensures
            final(flags)@ == old(flags)@.update(self@ as int, muted),
    {
        flags.flags.set(self.flag, muted);
    }

    pub fn is_muted(&self, flags: &MuteFlags) -> (r: bool)
        requires
            self@ < flags@.len(),
        ensures
            r == flags@[self@ as int],
    {
        flags.flags[self.flag]
    }
}

/// Whoever holds the signal, or a copy of it, sees what was set last; other
/// signals do not change.
pub proof fn a_mute_reaches_every_copy(
    signal: MicMuteSignal,
    other: MicMuteSignal,
    flags: Seq<bool>,
    muted: bool,
)
    requires
        signal@ < flags.len(),
        other@ < flags.len(),
    ensures
        other@ == signal@ ==> flags.update(signal@ as int, muted)[other@ as int] == muted,
        other@ != signal@ ==> flags.update(signal@ as int, muted)[other@ as int]
            == flags[other@ as int],
{
}

/// The devices that the user chose; none means the system's own choice.
#[derive(Debug)]
pub struct SelectedDevices {
    pub input_id: Option<String>,
    pub output_id: Option<String>,
}

/// An optional text equal to this one.
fn copy_text(s: &Option<String>) -> (r: Option<String>)
    ensures
        opt_view(r) == opt_view(*s),
{
    match s {
        Some(t) => Some(t.clone()),
        None => None,
    }
}

impl SelectedDevices {
    pub fn input(&self) -> (r: Option<String>)
        ensures
            opt_view(r) == opt_view(self.input_id),
    {
        copy_text(&self.input_id)
    }

    pub fn output(&self) -> (r: Option<String>)
        ensures
            opt_view(r) == opt_view(self.output_id),
    {
        copy_text(&self.output_id)
    }

    pub fn set_input(&mut self, id: Option<String>)
        ensures
            final(self).input_id == id,
            final(self).output_id == old(self).output_id,
    {
        self.input_id = id;
    }

    pub fn set_output(&mut self, id: Option<String>)
        ensures
            final(self).output_id == id,
            final(self).input_id == old(self).input_id,
    {
        self.output_id = id;
    }
}

impl Default for SelectedDevices {
    fn default() -> (r: SelectedDevices)
        ensures
            r.input_id is None,
            r.output_id is None,
    {
        SelectedDevices { input_id: None, output_id: None }
    }
}

/// The turns that were begun, each with its token.
#[derive(Debug)]
pub struct AppState {
    flags: CancelFlags,
    current_turn: Option<CancelToken>,
}

/// The view of the turns: the flags of all tokens that were handed out, and
/// the token of the present turn.
pub struct TurnsView {
    pub flags: Seq<bool>,
    pub current: Option<nat>,
}

impl TurnsView {
    /// No turn was begun yet.
    pub open spec fn fresh() -> TurnsView {
        TurnsView { flags: Seq::empty(), current: None }
    }

    /// The present turn is the newest, and all turns before it are cancelled.
    pub open spec fn wf(self) -> bool {
        &&& match self.current {
            Some(token) => token + 1 == self.flags.len(),
            None => self.flags.len() == 0,
        }
        &&& forall|i: int| 0 <= i < self.flags.len() - 1 ==> #[trigger] self.flags[i]
    }

    /// The turn with this token was cancelled.
    pub open spec fn cancelled(self, token: nat) -> bool {
        token < self.flags.len() && self.flags[token as int]
    }

    /// The present turn is cancelled, where there is one.
    pub open spec fn cancel_current(self) -> TurnsView {
        match self.current {
            Some(token) => TurnsView { flags: self.flags.update(token as int, true), ..self },
            None => self,
        }
    }

    /// The present turn is cancelled, and a new one is begun.
    pub open spec fn begin(self) -> TurnsView {
        TurnsView {
            flags: self.cancel_current().flags.push(false),
            current: Some(self.flags.len()),
        }
    }
}

impl AppState {
    pub closed spec fn view(&self) -> TurnsView {
        TurnsView {
            flags: self.flags@,
            current: match self.current_turn {
                Some(token) => Some(token@),
                None => None,
            },
        }
    }

    #[verifier::type_invariant]
    spec fn inv(self) -> bool {
        self@.wf()
    }

    /// Takes the flags and the present turn's token, leaving no turn behind.
    fn take_apart(&mut self) -> (r: (CancelFlags, Option<CancelToken>))
        ensures
            old(self)@.wf(),
            r.0 == old(self).flags,
            r.1 == old(self).current_turn,
    {
        proof {
            use_type_invariant(&*self);
        }
        let mut before: AppState = AppState { flags: CancelFlags::default(), current_turn: None };
        std::mem::swap(self, &mut before);
        let AppState { flags, current_turn } = before;
        (flags, current_turn)
    }

    /// The token of the present turn, where there is one.
    pub fn current_turn(&self) -> (r: Option<CancelToken>)
        ensures
            match r {
                Some(token) => self@.current == Some(token@),
                None => self@.current is None,
            },
            self@.wf(),
    {
        proof {
            use_type_invariant(self);
        }
        self.current_turn
    }

    /// Begins a turn and cancels the one before it. Gives the turn's token.
    pub fn begin_turn(&mut self) -> (r: CancelToken)
        ensures
            final(self)@ == old(self)@.begin(),
            final(self)@.current == Some(r@),
            old(self)@.wf() && final(self)@.wf(),
    {
        let (mut flags, current_turn) = self.take_apart();
        if let Some(previous) = current_turn {
            previous.cancel(&mut flags);
        }
        let token: CancelToken = CancelToken::new(&mut flags);
        *self = AppState { flags, current_turn: Some(token) };
        token
    }

    /// Cancels the present turn, where there is one.
    pub fn cancel_current_turn(&mut self)
        ensures
            final(self)@ == old(self)@.cancel_current(),
            old(self)@.wf() && final(self)@.wf(),
    {
        let (mut flags, current_turn) = self.take_apart();
        if let Some(token) = current_turn {
            token.cancel(&mut flags);
        }
        *self = AppState { flags, current_turn };
    }

    /// Whether the turn with this token was cancelled.
    pub fn is_cancelled(&self, token: CancelToken) -> (r: bool)
        ensures
            r == self@.cancelled(token@),
    {
        token.flag < self.flags.flags.len() && token.is_cancelled(&self.flags)
    }
}

impl Default for AppState {
    fn default() -> (r: AppState)
        ensures
            r@ == TurnsView::fresh(),
    {
        AppState { flags: CancelFlags::default(), current_turn: None }
    }
}

/// A new turn cancels every turn begun before it and is not cancelled itself,
/// until the present turn is cancelled; no turn is ever uncancelled.
pub proof fn a_new_turn_supersedes_the_others(turns: TurnsView, token: nat)
    requires
        turns.wf(),
        token < turns.flags.len(),
    ensures
        turns.begin().cancelled(token),
        !turns.begin().cancelled(turns.flags.len()),
        turns.begin().current == Some(turns.flags.len()),
        turns.begin().cancel_current().cancelled(turns.flags.len()),
        turns.cancelled(token) ==> turns.cancel_current().cancelled(token),
        turns.current == Some(token) ==> turns.cancel_current().cancelled(token),
{
}

/// A call that concerns the turns.
pub enum TurnCall {
    Begin,
    CancelCurrent,
}

/// The turns after several calls.
pub open spec fn after_turn_calls(turns: TurnsView, calls: Seq<TurnCall>) -> TurnsView
    decreases calls.len(),
{
    if calls.len() == 0 {
        turns
    } else {
        let before = after_turn_calls(turns, calls.drop_last());
        match calls.last() {
            TurnCall::Begin => before.begin(),
            TurnCall::CancelCurrent => before.cancel_current(),
        }
    }
}

/// Of all turns that were ever begun only the newest can be anything but
/// cancelled; and a turn that was cancelled stays so, whatever is called
/// later.
pub proof fn only_the_newest_turn_goes_on(turns: TurnsView, calls: Seq<TurnCall>, token: nat)
    requires
        turns.wf(),
    ensures
        after_turn_calls(turns, calls).wf(),
        token + 1 < after_turn_calls(turns, calls).flags.len() ==> after_turn_calls(
            turns,
            calls,
        ).cancelled(token),
        turns.cancelled(token) ==> after_turn_calls(turns, calls).cancelled(token),
    decreases calls.len(),
{
    if calls.len() > 0 {
        only_the_newest_turn_goes_on(turns, calls.drop_last(), token);
    }
}

/// The question that was claimed last, and when.
#[derive(Debug)]
pub struct AskClaims {
    last: Option<(String, u64)>,
}

impl AskClaims {
    /// The question that was claimed last, and when.
    pub closed spec fn view(&self) -> Option<(Seq<char>, u64)> {
        match self.last {
            Some(claim) => Some((claim.0@, claim.1)),
            None => None,
        }
    }

    pub fn new() -> (r: AskClaims)
        ensures
            r@ is None,
    {
        AskClaims { last: None }
    }

    /// Claims a question. The same question cannot be claimed again within
    /// `window_ms`.
    pub fn try_claim_ask(&mut self, text: &str, now_ms: u64, window_ms: u64) -> (r: bool)
        ensures
            r <==> !(old(self)@ matches Some(claim) && claim.0 == text@ && now_ms - claim.1
                < window_ms),
            final(self)@ == (if r {
                Some((text@, now_ms))
            } else {
                old(self)@
            }),
    {
        if let Some(claim) = &self.last {
            let recent: bool = now_ms < claim.1 || now_ms - claim.1 < window_ms;
            if recent && same(claim.0.as_str(), text) {
                return false;
            }
        }
        self.last = Some((text.to_owned(), now_ms));
        true
    }
}

} // verus!
