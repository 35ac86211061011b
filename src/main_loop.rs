use vstd::prelude::*;

verus! {

/// One step of work that a scheduler drives: a state that, when ticked, moves
/// to a determined next state and hands back a determined output.
pub trait Tick: Sized {
    type Output;

    /// Whether a tick can run from this state.
    spec fn can_tick(&self) -> bool;

    /// The state after one tick.
    spec fn ticked(&self) -> Self;

    /// What one tick from this state hands back.
    spec fn tick_output(&self) -> Self::Output;

    /// Whether a tick can run from this state.
    fn is_ready(&self) -> (r: bool)
        ensures
            r == self.can_tick(),
    ;

    /// Run one tick.
    fn tick(&mut self) -> (out: Self::Output)
        requires
            old(self).can_tick(),
        ensures
            *final(self) == old(self).ticked(),
            out == old(self).tick_output(),
    ;
}

/// The state after `n` ticks.
pub open spec fn ticked_n<C: Tick>(c: C, n: nat) -> C
    decreases n,
{
    if n == 0 {
        c
    } else {
        ticked_n(c, (n - 1) as nat).ticked()
    }
}

/// What a scheduling substrate is asked for when the loop starts: call the
/// trampoline `fps` times a second; `simulate_infinite_loop` tells the host
/// whether to treat the registration as a loop that never returns.
#[derive(Clone, Copy, Debug, PartialEq, Eq, Structural)]
pub struct Registration {
    pub fps: usize,
    pub simulate_infinite_loop: bool,
}

/// The slot after a start with `callback`: the new callback, whatever was there.
pub open spec fn slot_after_start<C>(slot: Option<C>, callback: C) -> Option<C> {
    Some(callback)
}

/// The slot after one trampoline call: the callback ticked once, if present.
pub open spec fn slot_after_invoke<C: Tick>(slot: Option<C>) -> Option<C> {
    match slot {
        Some(c) => Some(c.ticked()),
        None => None,
    }
}

/// What one trampoline call hands back: the callback's output, if present.
pub open spec fn invoke_output<C: Tick>(slot: Option<C>) -> Option<C::Output> {
    match slot {
        Some(c) => Some(c.tick_output()),
        None => None,
    }
}

/// The slot after `n` trampoline calls.
pub open spec fn slot_after_invokes<C: Tick>(slot: Option<C>, n: nat) -> Option<C>
    decreases n,
{
    if n == 0 {
        slot
    } else {
        slot_after_invoke(slot_after_invokes(slot, (n - 1) as nat))
    }
}

/// The single-slot bridge between a host scheduler, which can only call a
/// plain function with no arguments, and the callback that does the work.
/// It starts empty, is filled by `start`, and each trampoline call runs the
/// callback it holds, if any.
pub struct MainLoop<C: Tick> {
    slot: Option<C>,
}

impl<C: Tick> View for MainLoop<C> {
    type V = Option<C>;

    closed spec fn view(&self) -> Option<C> {
        self.slot
    }
}

impl<C: Tick> MainLoop<C> {
    /// An empty bridge: no callback registered yet.
    pub fn new() -> (l: MainLoop<C>)
        ensures
            l@ == None::<C>,
    {
        MainLoop { slot: None }
    }

    /// Whether a callback is registered.
    pub fn is_started(&self) -> (r: bool)
        ensures
            r == self@.is_some(),
    {
        self.slot.is_some()
    }

    /// Whether the trampoline may be called now: the bridge is empty, or its
    /// callback can tick.
    pub fn can_invoke(&self) -> (r: bool)
        ensures
            r == (self@ matches Some(c) ==> c.can_tick()),
    {
        match &self.slot {
            Some(c) => c.is_ready(),
            None => true,
        }
    }

    /// Store `callback`, replacing any earlier one, and return at once with
    /// the registration that the scheduling substrate is to perform.
    pub fn start(&mut self, callback: C, fps: usize, simulate_infinite_loop: bool) -> (r: Registration)
        ensures
            final(self)@ == slot_after_start(old(self)@, callback),
            r == (Registration { fps, simulate_infinite_loop }),
    {
        self.slot = Some(callback);
        Registration { fps, simulate_infinite_loop }
    }

    /// The trampoline's work: run the registered callback once and return its
    /// output; before any `start`, do nothing and return `None`.
    pub fn invoke_if_present(&mut self) -> (r: Option<C::Output>)
        requires
            old(self)@ matches Some(c) ==> c.can_tick(),
        ensures
            final(self)@ == slot_after_invoke(old(self)@),
            r == invoke_output(old(self)@),
            old(self)@ is None ==> r is None && final(self)@ == old(self)@,
    {
        match &mut self.slot {
            Some(c) => Some(c.tick()),
            None => None,
        }
    }
}

/// Called before any start, the trampoline runs nothing, returns nothing and
/// leaves the bridge empty, however often it is called.
pub proof fn lemma_trampoline_before_start<C: Tick>(n: nat)
    ensures
        invoke_output(None::<C>) is None,
        slot_after_invokes(None::<C>, n) is None,
    decreases n,
{
    if n > 0 {
        lemma_trampoline_before_start::<C>((n - 1) as nat);
    }
}

/// The last start wins: after starting with `first` and then with `second`,
/// the bridge holds `second` alone, and every later trampoline call ticks
/// `second` and never `first`.
pub proof fn lemma_last_start_wins<C: Tick>(slot: Option<C>, first: C, second: C, n: nat)
    ensures
        slot_after_start(slot_after_start(slot, first), second) == Some(second),
        slot_after_invokes(slot_after_start(slot_after_start(slot, first), second), n)
            == Some(ticked_n(second, n)),
    decreases n,
{
    if n > 0 {
        lemma_last_start_wins(slot, first, second, (n - 1) as nat);
    }
}

} // verus!
