//! The actions on offer, by category.

use vstd::prelude::*;
use crate::action::{Action, ActionView};

verus! {

/// A named group of actions.
#[derive(Debug, PartialEq, Eq)]
pub struct Category {
    pub name: String,
    pub actions: Vec<Action>,
}

pub struct CategoryView {
    pub name: Seq<char>,
    pub actions: Seq<ActionView>,
}

impl View for Category {
    type V = CategoryView;

    open spec fn view(&self) -> CategoryView {
        CategoryView { name: self.name@, actions: self.actions.deep_view() }
    }
}

impl DeepView for Category {
    type V = CategoryView;

    open spec fn deep_view(&self) -> CategoryView {
        self.view()
    }
}

/// A copy of `actions`, action by action.
pub fn clone_actions(actions: &Vec<Action>) -> (copy: Vec<Action>)
    ensures
        copy.deep_view() == actions.deep_view(),
{
    let mut copy: Vec<Action> = Vec::new();
    let mut i: usize = 0;
    while i < actions.len()
        invariant
            i <= actions@.len(),
            copy@.len() == i,
            forall|j: int| 0 <= j < i ==> copy@[j]@ == actions@[j]@,
        decreases actions@.len() - i,
    {
        copy.push(actions[i].clone());
        i += 1;
    }
    assert(copy.deep_view() =~= actions.deep_view());
    copy
}

impl Clone for Category {
    fn clone(&self) -> (copy: Self)
        ensures
            copy@ == self@,
    {
        Category { name: self.name.clone(), actions: clone_actions(&self.actions) }
    }
}

/// The categories, each name once, in the order they were first added.
pub struct ActionCatalog {
    categories: Vec<Category>,
}

impl View for ActionCatalog {
    type V = Seq<CategoryView>;

    closed spec fn view(&self) -> Seq<CategoryView> {
        self.categories.deep_view()
    }
}

/// No name occurs twice.
pub open spec fn distinct_names(categories: Seq<CategoryView>) -> bool {
    forall|i: int, j: int|
        0 <= i < j < categories.len() ==> (#[trigger] categories[i]).name != (
        #[trigger] categories[j]).name
}

/// The place of the category `name` among `categories`, if it is there.
pub open spec fn place_of_category(categories: Seq<CategoryView>, name: Seq<char>) -> Option<int> {
    if exists|i: int| 0 <= i < categories.len() && categories[i].name == name {
        Some(choose|i: int| 0 <= i < categories.len() && categories[i].name == name)
    } else {
        None
    }
}

/// `categories` after `category` was added: in the place of the category
/// of the same name, or else at the end.
pub open spec fn with_category(categories: Seq<CategoryView>, category: CategoryView) -> Seq<
    CategoryView,
> {
    match place_of_category(categories, category.name) {
        Some(i) => categories.update(i, category),
        None => categories.push(category),
    }
}

/// The action `uuid` stands at place `at` of category `category`.
pub open spec fn offered_at(
    categories: Seq<CategoryView>,
    category: int,
    at: int,
    uuid: Seq<char>,
) -> bool {
    &&& 0 <= category < categories.len()
    &&& 0 <= at < categories[category].actions.len()
    &&& categories[category].actions[at].uuid == uuid
}

/// Place `at` of category `category` comes before place `other_at` of
/// category `other`.
pub open spec fn comes_before(category: int, at: int, other: int, other_at: int) -> bool {
    category < other || (category == other && at < other_at)
}

/// `found` is what looking `uuid` up gives: the first action of that id,
/// categories taken in order and each category's actions in order, or
/// nothing where no action has that id.
pub open spec fn looked_up(
    categories: Seq<CategoryView>,
    uuid: Seq<char>,
    found: Option<ActionView>,
) -> bool {
    match found {
        Some(action) => exists|category: int, at: int|
            {
                &&& #[trigger] offered_at(categories, category, at, uuid)
                &&& action == categories[category].actions[at]
                &&& forall|other: int, other_at: int| #[trigger]
                    offered_at(categories, other, other_at, uuid) ==> !comes_before(
                        other,
                        other_at,
                        category,
                        at,
                    )
            },
        None => forall|category: int, at: int| !#[trigger] offered_at(categories, category, at, uuid),
    }
}

impl ActionCatalog {
    /// Each name has one category.
    pub closed spec fn wf(&self) -> bool {
        distinct_names(self@)
    }

    /// A catalog that offers nothing.
    pub fn new() -> (catalog: Self)
        ensures
            catalog.wf(),
            catalog@ == Seq::<CategoryView>::empty(),
    {
        let catalog = ActionCatalog { categories: Vec::new() };
        assert(catalog@ =~= Seq::<CategoryView>::empty());
        catalog
    }

    fn position(&self, name: &String) -> (found: Option<usize>)
        requires
            self.wf(),
        ensures
            match found {
                Some(i) => place_of_category(self@, name@) == Some(i as int) && i
                    < self.categories@.len(),
                None => place_of_category(self@, name@) is None,
            },
    {
        let mut i: usize = 0;
        while i < self.categories.len()
            invariant
                self.wf(),
                i <= self.categories@.len(),
                self@.len() == self.categories@.len(),
                forall|j: int| 0 <= j < i ==> (#[trigger] self@[j]).name != name@,
            decreases self.categories@.len() - i,
        {
            if self.categories[i].name == *name {
                proof {
                    let view = self@;
                    assert(view[i as int].name == name@);
                    let chosen = choose|j: int| 0 <= j < view.len() && view[j].name == name@;
                    if chosen < i {
                        assert(view[chosen].name != view[i as int].name);
                    } else if chosen > i {
                        assert(view[i as int].name != view[chosen].name);
                    }
                }
                return Some(i);
            }
            i += 1;
        }
        None
    }

    /// Makes `category` known: it takes the place of the category of the same
    /// name, or else comes after those added so far.
    pub fn register(&mut self, category: Category)
        requires
            old(self).wf(),
        ensures
            final(self).wf(),
            final(self)@ == with_category(old(self)@, category@),
    {
        let ghost before = self@;
        match self.position(&category.name) {
            Some(i) => {
                self.categories.set(i, category);
                proof {
                    let after = self@;
                    assert(after =~= before.update(i as int, category@));
                    assert forall|a: int, b: int| 0 <= a < b < after.len() implies (
                    #[trigger] after[a]).name != (#[trigger] after[b]).name by {
                        assert(before[a].name != before[b].name);
                    }
                }
            },
            None => {
                self.categories.push(category);
                proof {
                    let after = self@;
                    assert(after =~= before.push(category@));
                    assert forall|a: int, b: int| 0 <= a < b < after.len() implies (
                    #[trigger] after[a]).name != (#[trigger] after[b]).name by {
                        if b == before.len() {
                            assert(before[a].name != category@.name);
                        } else {
                            assert(before[a].name != before[b].name);
                        }
                    }
                }
            },
        }
    }

    /// A copy of the action `uuid`, if the catalog offers it.
    pub fn lookup(&self, uuid: &String) -> (found: Option<Action>)
        ensures
            looked_up(self@, uuid@, found.deep_view()),
    {
        let ghost view = self@;
        let mut c: usize = 0;
        while c < self.categories.len()
            invariant
                view == self@,
                view.len() == self.categories@.len(),
                c <= self.categories@.len(),
                forall|category: int, at: int|
                    category < c ==> !#[trigger] offered_at(view, category, at, uuid@),
            decreases self.categories@.len() - c,
        {
            let actions = &self.categories[c].actions;
            assert(view[c as int].actions.len() == actions@.len());
            let mut a: usize = 0;
            while a < actions.len()
                invariant
                    view == self@,
                    view.len() == self.categories@.len(),
                    c < self.categories@.len(),
                    actions == &self.categories@[c as int].actions,
                    view[c as int].actions.len() == actions@.len(),
                    a <= actions@.len(),
                    forall|category: int, at: int|
                        category < c ==> !#[trigger] offered_at(view, category, at, uuid@),
                    forall|at: int| at < a ==> !#[trigger] offered_at(view, c as int, at, uuid@),
                decreases actions@.len() - a,
            {
                assert(view[c as int].actions[a as int] == actions@[a as int]@);
                if actions[a].uuid == *uuid {
                    let found = actions[a].clone();
                    proof {
                        assert(offered_at(view, c as int, a as int, uuid@));
                        assert forall|other: int, other_at: int| #[trigger]
                            offered_at(view, other, other_at, uuid@) implies !comes_before(
                            other,
                            other_at,
                            c as int,
                            a as int,
                        ) by {}
                    }
                    return Some(found);
                }
                a += 1;
            }
            c += 1;
        }
        None
    }

    /// A copy of every category, in order.
    pub fn snapshot(&self) -> (categories: Vec<Category>)
        ensures
            categories.deep_view() == self@,
    {
        let mut categories: Vec<Category> = Vec::new();
        let mut i: usize = 0;
        while i < self.categories.len()
            invariant
                i <= self.categories@.len(),
                categories@.len() == i,
                forall|j: int| 0 <= j < i ==> categories@[j]@ == self.categories@[j]@,
            decreases self.categories@.len() - i,
        {
            categories.push(self.categories[i].clone());
            i += 1;
        }
        assert(categories.deep_view() =~= self@);
        categories
    }
}

} // verus!
