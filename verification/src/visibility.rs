//! Visibility of the actor and of the presentation entities attached to it.
//! The actor owns the list of its children; showing and hiding walk it.

use vstd::prelude::*;
use crate::player::Player;

verus! {

/// A presentation entity attached to the actor.
#[derive(Clone, Copy, Debug, PartialEq, Eq, Structural)]
pub struct ChildEntity {
    pub id: u64,
    pub visible: bool,
}

/// Whether the actor is drawn, and the children that are drawn with it.
#[derive(Clone, Debug, PartialEq, Eq)]
pub struct Presentation {
    pub visible: bool,
    pub children: Vec<ChildEntity>,
}

/// The children, in the same order and with the same identifiers, each with
/// its visibility set to `visible`.
pub open spec fn children_set_to(children: Seq<ChildEntity>, visible: bool) -> Seq<ChildEntity> {
    Seq::new(children.len(), |i: int| ChildEntity { id: children[i].id, visible })
}

impl Presentation {
    /// A visible actor without children.
    pub fn new() -> (presentation: Presentation)
        ensures
            presentation.visible,
            presentation.children@ == Seq::<ChildEntity>::empty(),
    {
        Presentation { visible: true, children: Vec::new() }
    }

    /// Sets the visibility of the actor and of every child.
    pub fn set_visible(&mut self, visible: bool)
        ensures
            final(self).visible == visible,
            final(self).children@ == children_set_to(old(self).children@, visible),
    {
        self.visible = visible;
        let n: usize = self.children.len();
        let mut i: usize = 0;
        while i < n
            invariant
                i <= n,
                n == self.children.len(),
                self.visible == visible,
                self.children@.len() == old(self).children@.len(),
                forall|j: int|
                    0 <= j < i ==> self.children@[j] == (ChildEntity {
                        id: old(self).children@[j].id,
                        visible,
                    }),
                forall|j: int| i <= j < n ==> self.children@[j] == old(self).children@[j],
            decreases n - i,
        {
            let child: ChildEntity = self.children[i];
            self.children.set(i, ChildEntity { id: child.id, visible });
            i += 1;
        }
        assert(self.children@ =~= children_set_to(old(self).children@, visible));
    }
}

/// Hides the actor and its children.
pub fn hide_player(presentation: &mut Presentation)
    ensures
        !final(presentation).visible,
        final(presentation).children@ == children_set_to(old(presentation).children@, false),
{
    presentation.set_visible(false);
}

/// Makes the actor active again and shows it and its children.
pub fn show_player(player: &mut Player, presentation: &mut Presentation)
    ensures
        *final(player) == (Player { active: true, ..*old(player) }),
        final(presentation).visible,
        final(presentation).children@ == children_set_to(old(presentation).children@, true),
{
    player.active = true;
    presentation.set_visible(true);
}

} // verus!
