//! Menus.

use vstd::prelude::*;

verus! {

/// The place of an item in a menu.
#[derive(Clone, Copy, Debug, PartialEq, Eq, Structural)]
pub struct MenuItemId(pub usize);

/// An item of a menu.
#[derive(Clone, Copy, Debug, PartialEq, Eq, Structural)]
pub enum MenuItem {
    Ordinary,
    /// A separator. These can't have children.
    Break,
}

/// What an item does.
#[derive(Clone, Copy, Debug, PartialEq, Eq, Structural)]
pub enum Command {
    Copy,
    Paste,
    Undo,
    Redo,
    Custom(u32),
}

/// How items are shown.
#[derive(Debug)]
#[non_exhaustive]
pub struct MenuItems {
    pub display: String,
}

/// An item, and how to go on from it.
#[derive(Clone, Copy, Debug, PartialEq, Eq, Structural)]
pub struct MenuMember {
    pub item: MenuItem,
    pub next_sibling: Option<MenuItemId>,
    pub first_child: Option<MenuItemId>,
}

/// An abstract menu object
#[derive(Debug)]
pub struct MenuBuilder {
    items: Vec<MenuMember>,
}

impl MenuBuilder {
    /// The items of the menu.
    pub closed spec fn members(self) -> Seq<MenuMember> {
        self.items@
    }

    /// A menu with the given items.
    pub fn of(items: Vec<MenuMember>) -> (builder: MenuBuilder)
        ensures
            builder.members() == items@,
    {
        MenuBuilder { items }
    }

    /// Children cannot be added yet.
    pub fn add_child(&mut self)
        ensures
            *final(self) == *old(self),
    {
    }

    /// Children cannot be added yet.
    pub fn with_child_with_children(&mut self)
        ensures
            *final(self) == *old(self),
    {
    }

    /// Children cannot be added yet.
    pub fn with_child_with_children_builder(&mut self)
        ensures
            *final(self) == *old(self),
    {
    }

    /// Walks through the menu from an item on.
    pub fn walk(&self, first: MenuItemId) -> (iterator: MenuIterator<'_>)
        requires
            links_are_valid(self.members()),
            first.0 < self.members().len(),
        ensures
            iterator.wf(),
            iterator.members() == self.members(),
            iterator.open_items() == seq![first],
    {
        let mut stack: Vec<MenuItemId> = Vec::new();
        stack.push(first);
        MenuIterator { items: &self.items, stack }
    }
}

/// Every item leads to items that are there.
pub open spec fn links_are_valid(items: Seq<MenuMember>) -> bool {
    forall|i: int|
        0 <= i < items.len() ==> {
            &&& (#[trigger] items[i]).first_child matches Some(child) ==> child.0 < items.len()
            &&& items[i].next_sibling matches Some(sibling) ==> sibling.0 < items.len()
        }
}

/// A walk through a menu.
#[derive(Debug)]
pub struct MenuIterator<'a> {
    items: &'a Vec<MenuMember>,
    stack: Vec<MenuItemId>,
}

/// The items that are open after a step from the last of them: its first child, if it has one,
/// comes on top; otherwise its next sibling takes its place, if it has one.
pub open spec fn open_after(items: Seq<MenuMember>, stack: Seq<MenuItemId>) -> Seq<MenuItemId> {
    let current = items[stack.last().0 as int];
    match (current.first_child, current.next_sibling) {
        (Some(child), _) => stack.push(child),
        (None, Some(sibling)) => stack.drop_last().push(sibling),
        (None, None) => stack.drop_last(),
    }
}

impl<'a> MenuIterator<'a> {
    pub closed spec fn members(self) -> Seq<MenuMember> {
        self.items@
    }

    /// The items that are open, the current one last.
    pub closed spec fn open_items(self) -> Seq<MenuItemId> {
        self.stack@
    }

    /// Every item that is open or can be reached is there.
    pub open spec fn wf(self) -> bool {
        &&& links_are_valid(self.members())
        &&& forall|i: int|
            0 <= i < self.open_items().len() ==> (#[trigger] self.open_items()[i]).0
                < self.members().len()
    }

    /// The current item; after that the walk goes on to the next.
    pub fn next(&mut self) -> (item: Option<MenuItem>)
        requires
            old(self).wf(),
        ensures
            final(self).wf(),
            final(self).members() == old(self).members(),
            match item {
                None => old(self).open_items().len() == 0 && *final(self) == *old(self),
                Some(item) => {
                    &&& old(self).open_items().len() > 0
                    &&& item == old(self).members()[old(self).open_items().last().0 as int].item
                    &&& final(self).open_items() == open_after(
                        old(self).members(),
                        old(self).open_items(),
                    )
                },
            },
    {
        let len: usize = self.stack.len();
        if len == 0 {
            return None;
        }
        let current = self.stack[len - 1];
        assert(current == self.open_items()[len - 1]);
        let current_item = self.items[current.0];
        if let Some(child) = current_item.first_child {
            self.stack.push(child);
        } else if let Some(sibling) = current_item.next_sibling {
            self.stack.pop();
            self.stack.push(sibling);
        } else {
            self.stack.pop();
        }
        proof {
            assert(self.open_items() =~= open_after(old(self).members(), old(self).open_items()));
            assert forall|i: int| 0 <= i < self.open_items().len() implies (
            #[trigger] self.open_items()[i]).0 < self.members().len() by {
                if i < len - 1 {
                    assert(self.open_items()[i] == old(self).open_items()[i]);
                } else if i == len - 1 && current_item.first_child is Some {
                    assert(self.open_items()[i] == old(self).open_items()[i]);
                } else {
                    assert(self.members()[current.0 as int] == current_item);
                }
            }
        }
        Some(current_item.item)
    }
}

/// The items of a menu from one on, by next siblings, as far as `steps` go.
pub open spec fn siblings(items: Seq<MenuMember>, from: MenuItemId, steps: nat) -> Option<MenuItemId>
    decreases steps,
{
    if steps == 0 {
        Some(from)
    } else {
        match siblings(items, from, (steps - 1) as nat) {
            Some(item) => items[item.0 as int].next_sibling,
            None => None,
        }
    }
}

/// The items that are open after some steps.
pub open spec fn open_after_steps(
    items: Seq<MenuMember>,
    stack: Seq<MenuItemId>,
    steps: nat,
) -> Seq<MenuItemId>
    decreases steps,
{
    if steps == 0 {
        stack
    } else {
        let before = open_after_steps(items, stack, (steps - 1) as nat);
        if before.len() == 0 {
            before
        } else {
            open_after(items, before)
        }
    }
}

/// In a menu without submenus a walk meets the siblings in order, and ends after the last.
pub proof fn law_siblings_are_met_in_order(
    items: Seq<MenuMember>,
    first: MenuItemId,
    steps: nat,
)
    requires
        links_are_valid(items),
        first.0 < items.len(),
        forall|i: int| 0 <= i < items.len() ==> (#[trigger] items[i]).first_child is None,
    ensures
        open_after_steps(items, seq![first], steps) == match siblings(items, first, steps) {
            Some(item) => seq![item],
            None => Seq::empty(),
        },
        siblings(items, first, steps) matches Some(item) ==> item.0 < items.len(),
    decreases steps,
{
    if steps > 0 {
        law_siblings_are_met_in_order(items, first, (steps - 1) as nat);
        let before = open_after_steps(items, seq![first], (steps - 1) as nat);
        if before.len() > 0 {
            assert(before.drop_last() =~= Seq::empty());
            assert(items[before.last().0 as int].first_child is None);
        }
    }
}

/// Allows building an application menu which matches platform conventions
#[derive(Clone, Copy, Debug)]
pub struct AppMenuBuilder {}

/// A step goes into the current item if there is anything in it, which then stays open; else it
/// goes on beside it; else it goes back. What is open below the current item stays as it is.
pub proof fn law_steps_go_in_then_on_then_back(items: Seq<MenuMember>, stack: Seq<MenuItemId>)
    requires
        links_are_valid(items),
        stack.len() > 0,
        forall|i: int| 0 <= i < stack.len() ==> (#[trigger] stack[i]).0 < items.len(),
    ensures
        ({
            let next = open_after(items, stack);
            let below = stack.drop_last();
            let current = items[stack.last().0 as int];
            &&& next.len() >= below.len()
            &&& next.take(below.len() as int) == below
            &&& (next.len() > stack.len()) == (current.first_child is Some)
            &&& (next.len() < stack.len()) == (current.first_child is None
                && current.next_sibling is None)
            &&& next.len() > stack.len() ==> next.drop_last() == stack && Some(next.last())
                == current.first_child
            &&& next.len() == stack.len() ==> Some(next.last()) == current.next_sibling
            &&& next.len() <= stack.len() + 1
        }),
        forall|i: int|
            0 <= i < open_after(items, stack).len() ==> (#[trigger] open_after(items, stack)[i]).0
                < items.len(),
{
    let next = open_after(items, stack);
    let below = stack.drop_last();
    assert(stack[stack.len() - 1] == stack.last());
    let current = items[stack.last().0 as int];
    assert(next.take(below.len() as int) =~= below);
    assert(next.len() > stack.len() ==> next.drop_last() =~= stack);
    assert forall|i: int| 0 <= i < next.len() implies (#[trigger] next[i]).0 < items.len() by {
        if i < below.len() {
            assert(next[i] == stack[i]);
        } else if current.first_child is Some && i == below.len() {
            assert(next[i] == stack[i]);
        }
    }
}

} // verus!
