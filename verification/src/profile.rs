//! The two documents: what is kept of a device, and the grid of a profile.

use vstd::prelude::*;
use crate::action::{Action, ActionContext, ActionInstance, ActionInstanceView, ActionView, ActionContextView, clone_settings};
use crate::error::{Error, Invalid, Unresolved};

verus! {

/// What is kept of a device: the profile selected on it, and settings of
/// the device that this crate carries along without reading them.
#[derive(Debug, PartialEq, Eq)]
pub struct DeviceStoreValue {
    pub selected_profile: String,
    pub settings: Option<String>,
}

pub struct DeviceStoreValueView {
    pub selected_profile: Seq<char>,
    pub settings: Option<Seq<char>>,
}

impl View for DeviceStoreValue {
    type V = DeviceStoreValueView;

    open spec fn view(&self) -> DeviceStoreValueView {
        DeviceStoreValueView {
            selected_profile: self.selected_profile@,
            settings: self.settings.deep_view(),
        }
    }
}

impl DeviceStoreValueView {
    /// What a device starts out with: the profile `default`, no settings.
    pub open spec fn initial() -> DeviceStoreValueView {
        DeviceStoreValueView { selected_profile: "default"@, settings: None }
    }
}

impl Clone for DeviceStoreValue {
    fn clone(&self) -> (copy: Self)
        ensures
            copy@ == self@,
    {
        DeviceStoreValue {
            selected_profile: self.selected_profile.clone(),
            settings: clone_settings(&self.settings),
        }
    }
}

impl DeviceStoreValue {
    /// The document of a device that has none yet.
    pub fn new() -> (value: Self)
        ensures
            value@ == DeviceStoreValueView::initial(),
    {
        DeviceStoreValue { selected_profile: "default".to_owned(), settings: None }
    }
}

/// The grid of a profile: for each position the instance bound there, if any.
#[derive(Debug, PartialEq, Eq)]
pub struct ProfileStoreValue {
    pub keys: Vec<Option<ActionInstance>>,
}

impl View for ProfileStoreValue {
    type V = Seq<Option<ActionInstanceView>>;

    open spec fn view(&self) -> Seq<Option<ActionInstanceView>> {
        self.keys.deep_view()
    }
}

/// A grid of `length` positions with nothing bound.
pub open spec fn empty_grid(length: nat) -> Seq<Option<ActionInstanceView>> {
    Seq::new(length, |i: int| None)
}

/// `grid` after `action` was bound in `context`: the new instance stands
/// at the context's position, whatever stood there before.
pub open spec fn bound_grid(
    grid: Seq<Option<ActionInstanceView>>,
    action: ActionView,
    context: ActionContextView,
) -> Seq<Option<ActionInstanceView>>
    recommends
        context.position < grid.len(),
{
    grid.update(context.position as int, Some(ActionInstanceView::bound(action, context)))
}

/// `grid` after `position` was unbound.
pub open spec fn unbound_grid(grid: Seq<Option<ActionInstanceView>>, position: nat) -> Seq<
    Option<ActionInstanceView>,
>
    recommends
        position < grid.len(),
{
    grid.update(position as int, None)
}

/// `grid` after the instance at `position` has moved on by one state.
pub open spec fn advanced_grid(grid: Seq<Option<ActionInstanceView>>, position: nat) -> Seq<
    Option<ActionInstanceView>,
>
    recommends
        position < grid.len(),
        grid[position as int] is Some,
{
    grid.update(position as int, Some(grid[position as int]->0.advanced()))
}

/// The failure for a position that a grid of `length` slots does not have.
pub open spec fn out_of_bounds(position: u8, length: usize) -> Error {
    Error::Resolution(Unresolved::Position { position, length })
}

impl Clone for ProfileStoreValue {
    fn clone(&self) -> (copy: Self)
        ensures
            copy@ == self@,
    {
        let mut keys: Vec<Option<ActionInstance>> = Vec::new();
        let mut i: usize = 0;
        while i < self.keys.len()
            invariant
                i <= self.keys@.len(),
                keys@.len() == i,
                forall|j: int| 0 <= j < i ==> keys@[j].deep_view() == self.keys@[j].deep_view(),
            decreases self.keys@.len() - i,
        {
            let slot = match &self.keys[i] {
                Some(instance) => Some(instance.clone()),
                None => None,
            };
            keys.push(slot);
            i += 1;
        }
        let copy = ProfileStoreValue { keys };
        assert(copy@ =~= self@);
        copy
    }
}

impl ProfileStoreValue {
    /// A grid of `length` positions with nothing bound.
    pub fn empty(length: usize) -> (value: Self)
        ensures
            value@ == empty_grid(length as nat),
    {
        let mut keys: Vec<Option<ActionInstance>> = Vec::new();
        let mut i: usize = 0;
        while i < length
            invariant
                i <= length,
                keys@.len() == i,
                forall|j: int| 0 <= j < i ==> keys@[j] is None,
            decreases length - i,
        {
            keys.push(None);
            i += 1;
        }
        let value = ProfileStoreValue { keys };
        assert(value@ =~= empty_grid(length as nat));
        value
    }

    /// A copy of what stands at `position`.
    pub fn slot(&self, position: u8) -> (slot: Result<Option<ActionInstance>, Error>)
        ensures
            match slot {
                Ok(found) => position < self@.len() && found.deep_view() == self@[position as int],
                Err(error) => position >= self@.len() && error == out_of_bounds(
                    position,
                    self.keys@.len() as usize,
                ),
            },
    {
        let at: usize = position as usize;
        if at >= self.keys.len() {
            return Err(Error::Resolution(Unresolved::Position { position, length: self.keys.len() }));
        }
        match &self.keys[at] {
            Some(instance) => Ok(Some(instance.clone())),
            None => Ok(None),
        }
    }

    /// Binds `action` in `context`: a new instance, in its first state and
    /// with nothing stored, takes the slot at the context's position,
    /// whatever stood there. Returns a copy of the instance. A position
    /// that the grid does not have is refused and the grid left as it is.
    pub fn bind(&mut self, action: &Action, context: &ActionContext) -> (bound: Result<
        ActionInstance,
        Error,
    >)
        ensures
            match bound {
                Ok(instance) => {
                    &&& context.position < old(self)@.len()
                    &&& instance@ == ActionInstanceView::bound(action@, context@)
                    &&& final(self)@ == bound_grid(old(self)@, action@, context@)
                },
                Err(error) => {
                    &&& context.position >= old(self)@.len()
                    &&& error == out_of_bounds(context.position, old(self).keys@.len() as usize)
                    &&& *final(self) == *old(self)
                },
            },
    {
        let at: usize = context.position as usize;
        if at >= self.keys.len() {
            return Err(
                Error::Resolution(
                    Unresolved::Position { position: context.position, length: self.keys.len() },
                ),
            );
        }
        let instance = ActionInstance::new(action, context);
        let copy = instance.clone();
        self.keys.set(at, Some(instance));
        assert(self@ =~= bound_grid(old(self)@, action@, context@));
        Ok(copy)
    }

    /// Empties the slot at `position`. A position that the grid does not
    /// have is refused.
    pub fn unbind(&mut self, position: u8) -> (outcome: Result<(), Error>)
        ensures
            match outcome {
                Ok(_) => {
                    &&& position < old(self)@.len()
                    &&& final(self)@ == unbound_grid(old(self)@, position as nat)
                },
                Err(error) => {
                    &&& position >= old(self)@.len()
                    &&& error == out_of_bounds(position, old(self).keys@.len() as usize)
                    &&& *final(self) == *old(self)
                },
            },
    {
        let at: usize = position as usize;
        if at >= self.keys.len() {
            return Err(Error::Resolution(Unresolved::Position { position, length: self.keys.len() }));
        }
        self.keys.set(at, None);
        assert(self@ =~= unbound_grid(old(self)@, position as nat));
        Ok(())
    }

    /// Moves the instance at `position` on to its next state. Refused, with
    /// the grid left as it is: a position that the grid does not have, a
    /// slot with nothing bound, an instance without states.
    pub fn advance(&mut self, position: u8) -> (outcome: Result<(), Error>)
        ensures
            match advance_refusal(old(self)@, position, old(self).keys@.len() as usize) {
                Some(error) => outcome == Err::<(), Error>(error) && *final(self) == *old(self),
                None => outcome is Ok && final(self)@ == advanced_grid(old(self)@, position as nat),
            },
    {
        let at: usize = position as usize;
        if at >= self.keys.len() {
            return Err(Error::Resolution(Unresolved::Position { position, length: self.keys.len() }));
        }
        let refusal = match &self.keys[at] {
            Some(instance) => if instance.states.len() == 0 {
                Some(Error::InvalidState(Invalid::NoStates))
            } else {
                None
            },
            None => Some(Error::InvalidState(Invalid::Unbound(position))),
        };
        match refusal {
            Some(error) => Err(error),
            None => {
                let ghost before = self@;
                let outcome = match &mut self.keys[at] {
                    Some(instance) => instance.advance(),
                    None => Ok(()),
                };
                assert(self@ =~= advanced_grid(before, position as nat));
                outcome
            },
        }
    }
}

/// Why the instance at `position` of `grid` cannot be advanced, if it cannot.
pub open spec fn advance_refusal(
    grid: Seq<Option<ActionInstanceView>>,
    position: u8,
    length: usize,
) -> Option<Error> {
    if position >= grid.len() {
        Some(out_of_bounds(position, length))
    } else {
        match grid[position as int] {
            None => Some(Error::InvalidState(Invalid::Unbound(position))),
            Some(instance) => if instance.states.len() == 0 {
                Some(Error::InvalidState(Invalid::NoStates))
            } else {
                None
            },
        }
    }
}

/// Binding at a position and then unbinding it leaves that slot empty and
/// every other slot as it was before the binding.
pub proof fn lemma_bind_then_unbind(
    grid: Seq<Option<ActionInstanceView>>,
    action: ActionView,
    context: ActionContextView,
)
    requires
        context.position < grid.len(),
    ensures
        ({
            let after = unbound_grid(bound_grid(grid, action, context), context.position);
            &&& after.len() == grid.len()
            &&& after[context.position as int] is None
            &&& forall|other: int|
                0 <= other < grid.len() && other != context.position ==> after[other] == grid[other]
        }),
{
}

} // verus!
