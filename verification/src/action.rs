//! Actions, the contexts they are bound in, and bound instances.

use vstd::prelude::*;
use vstd::arithmetic::div_mod::{lemma_add_mod_noop, lemma_small_mod, lemma_mod_self_0};
use crate::error::{Error, Invalid};

verus! {

/// What one state of an action shows.
#[derive(Debug, PartialEq, Eq)]
pub struct ActionState {
    pub name: String,
    pub image: String,
}

/// A catalog entry: a behaviour that can be bound to a position.
#[derive(Debug, PartialEq, Eq)]
pub struct Action {
    pub uuid: String,
    pub name: String,
    pub category: String,
    pub states: Vec<ActionState>,
}

/// Where an action is bound.
#[derive(Debug, PartialEq, Eq)]
pub struct ActionContext {
    pub device: String,
    pub profile: String,
    pub position: u8,
}

/// An action bound to a position, with its own copy of the states.
#[derive(Debug, PartialEq, Eq)]
pub struct ActionInstance {
    pub action: Action,
    pub context: ActionContext,
    pub states: Vec<ActionState>,
    pub current_state: usize,
    /// Owned by the action; `None` until the action stores something.
    pub settings: Option<String>,
}

pub struct ActionStateView {
    pub name: Seq<char>,
    pub image: Seq<char>,
}

pub struct ActionView {
    pub uuid: Seq<char>,
    pub name: Seq<char>,
    pub category: Seq<char>,
    pub states: Seq<ActionStateView>,
}

pub struct ActionContextView {
    pub device: Seq<char>,
    pub profile: Seq<char>,
    pub position: nat,
}

pub struct ActionInstanceView {
    pub action: ActionView,
    pub context: ActionContextView,
    pub states: Seq<ActionStateView>,
    pub current_state: nat,
    pub settings: Option<Seq<char>>,
}

impl View for ActionState {
    type V = ActionStateView;

    open spec fn view(&self) -> ActionStateView {
        ActionStateView { name: self.name@, image: self.image@ }
    }
}

impl DeepView for ActionState {
    type V = ActionStateView;

    open spec fn deep_view(&self) -> ActionStateView {
        self.view()
    }
}

impl View for Action {
    type V = ActionView;

    open spec fn view(&self) -> ActionView {
        ActionView {
            uuid: self.uuid@,
            name: self.name@,
            category: self.category@,
            states: self.states.deep_view(),
        }
    }
}

impl DeepView for Action {
    type V = ActionView;

    open spec fn deep_view(&self) -> ActionView {
        self.view()
    }
}

impl View for ActionContext {
    type V = ActionContextView;

    open spec fn view(&self) -> ActionContextView {
        ActionContextView {
            device: self.device@,
            profile: self.profile@,
            position: self.position as nat,
        }
    }
}

impl View for ActionInstance {
    type V = ActionInstanceView;

    open spec fn view(&self) -> ActionInstanceView {
        ActionInstanceView {
            action: self.action@,
            context: self.context@,
            states: self.states.deep_view(),
            current_state: self.current_state as nat,
            settings: match self.settings {
                Some(text) => Some(text@),
                None => None,
            },
        }
    }
}

impl DeepView for ActionInstance {
    type V = ActionInstanceView;

    open spec fn deep_view(&self) -> ActionInstanceView {
        self.view()
    }
}

impl Clone for ActionState {
    fn clone(&self) -> (copy: Self)
        ensures
            copy@ == self@,
    {
        ActionState { name: self.name.clone(), image: self.image.clone() }
    }
}

/// A copy of `states`, state by state.
pub fn clone_states(states: &Vec<ActionState>) -> (copy: Vec<ActionState>)
    ensures
        copy.deep_view() == states.deep_view(),
{
    let mut copy: Vec<ActionState> = Vec::new();
    let mut i: usize = 0;
    while i < states.len()
        invariant
            i <= states@.len(),
            copy@.len() == i,
            forall|j: int| 0 <= j < i ==> copy@[j]@ == states@[j]@,
        decreases states@.len() - i,
    {
        copy.push(states[i].clone());
        i += 1;
    }
    assert(copy.deep_view() =~= states.deep_view());
    copy
}

impl Clone for Action {
    fn clone(&self) -> (copy: Self)
        ensures
            copy@ == self@,
    {
        Action {
            uuid: self.uuid.clone(),
            name: self.name.clone(),
            category: self.category.clone(),
            states: clone_states(&self.states),
        }
    }
}

impl Clone for ActionContext {
    fn clone(&self) -> (copy: Self)
        ensures
            copy@ == self@,
    {
        ActionContext {
            device: self.device.clone(),
            profile: self.profile.clone(),
            position: self.position,
        }
    }
}

/// A copy of `settings`.
pub fn clone_settings(settings: &Option<String>) -> (copy: Option<String>)
    ensures
        copy.deep_view() == settings.deep_view(),
{
    match settings {
        Some(text) => Some(text.clone()),
        None => None,
    }
}

impl Clone for ActionInstance {
    fn clone(&self) -> (copy: Self)
        ensures
            copy@ == self@,
    {
        ActionInstance {
            action: self.action.clone(),
            context: self.context.clone(),
            states: clone_states(&self.states),
            current_state: self.current_state,
            settings: clone_settings(&self.settings),
        }
    }
}

/// The state that follows `current` in a cycle of `count` states.
pub open spec fn next_state(current: nat, count: nat) -> nat
    recommends
        count > 0,
{
    (current + 1) % count
}

/// The state reached from `current` after `steps` advances.
pub open spec fn state_after(current: nat, count: nat, steps: nat) -> nat
    recommends
        count > 0,
    decreases steps,
{
    if steps == 0 {
        current
    } else {
        next_state(state_after(current, count, (steps - 1) as nat), count)
    }
}

impl ActionInstanceView {
    /// The instance that binding `action` in `context` creates: the action's
    /// states copied, the first of them current, nothing stored yet.
    pub open spec fn bound(action: ActionView, context: ActionContextView) -> ActionInstanceView {
        ActionInstanceView {
            action,
            context,
            states: action.states,
            current_state: 0,
            settings: None,
        }
    }

    /// The current state indexes one of the states, or there are none and it is 0.
    pub open spec fn wf(self) -> bool {
        if self.states.len() == 0 {
            self.current_state == 0
        } else {
            self.current_state < self.states.len()
        }
    }

    /// This instance moved on by one state.
    pub open spec fn advanced(self) -> ActionInstanceView
        recommends
            self.states.len() > 0,
    {
        ActionInstanceView {
            current_state: next_state(self.current_state, self.states.len()),
            ..self
        }
    }
}

impl ActionInstance {
    /// Binds `action` in `context`.
    pub fn new(action: &Action, context: &ActionContext) -> (instance: ActionInstance)
        ensures
            instance@ == ActionInstanceView::bound(action@, context@),
            instance@.wf(),
    {
        ActionInstance {
            action: action.clone(),
            context: context.clone(),
            states: clone_states(&action.states),
            current_state: 0,
            settings: None,
        }
    }

    /// Moves on to the next state, the first one following the last.
    /// An instance without states has nowhere to go and is left as it is.
    pub fn advance(&mut self) -> (outcome: Result<(), Error>)
        ensures
            old(self)@.states.len() == 0 ==> outcome == Err::<(), Error>(
                Error::InvalidState(Invalid::NoStates),
            ) && *final(self) == *old(self),
            old(self)@.states.len() > 0 ==> outcome is Ok && final(self)@ == old(self)@.advanced()
                && final(self)@.wf(),
    {
        let count = self.states.len();
        if count == 0 {
            return Err(Error::InvalidState(Invalid::NoStates));
        }
        let within: usize = self.current_state % count;
        let next: usize = if within == count - 1 {
            0
        } else {
            within + 1
        };
        proof {
            let c = self.current_state as int;
            let n = count as int;
            lemma_add_mod_noop(c, 1, n);
            if n == 1 {
                assert((c + 1) % n == 0);
            } else {
                lemma_small_mod(1, n as nat);
                if within == count - 1 {
                    lemma_mod_self_0(n);
                } else {
                    lemma_small_mod((within + 1) as nat, n as nat);
                }
            }
            assert(next == (c + 1) % n);
        }
        self.current_state = next;
        Ok(())
    }
}

/// However many states an instance has, advancing it once for each of them
/// brings it back to the state it started in: from the first state, to the first.
pub proof fn lemma_advance_cycles(current: nat, count: nat)
    requires
        count > 0,
        current < count,
    ensures
        state_after(current, count, count) == current,
        state_after(0, count, count) == 0,
{
    lemma_state_after(current, count, count);
    lemma_state_after(0, count, count);
    lemma_mod_self_0(count as int);
    lemma_add_mod_noop(current as int, count as int, count as int);
    lemma_small_mod(current, count);
    lemma_add_mod_noop(0, count as int, count as int);
    lemma_small_mod(0, count);
}

/// `steps` advances add `steps` to the state, modulo the number of states.
pub proof fn lemma_state_after(current: nat, count: nat, steps: nat)
    requires
        count > 0,
        current < count,
    ensures
        state_after(current, count, steps) == (current + steps) % count,
    decreases steps,
{
    if steps == 0 {
        lemma_small_mod(current, count);
    } else {
        let before = (current + steps - 1) as int;
        let m = count as int;
        lemma_state_after(current, count, (steps - 1) as nat);
        assert(state_after(current, count, steps) == ((before % m) + 1) % m);
        lemma_add_mod_noop(before, 1, m);
        if m == 1 {
            assert((before + 1) % m == 0);
            assert(((before % m) + 1) % m == 0);
        } else {
            lemma_small_mod(1, count);
        }
    }
}

} // verus!
