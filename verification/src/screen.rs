use vstd::prelude::*;

verus! {

/// A top-level screen: a menu or game mode with its own render and input
/// behaviour. Implementors live with the windowing layer; the contract on
/// `display` records that rendering is a pure side effect on the host and
/// must leave the screen value itself (and so any game entities it owns)
/// unchanged.
pub trait GameScreen: Sized {
    /// Render the screen once. Render only: the screen value is unchanged.
    fn display(&mut self)
        ensures
            *final(self) == *old(self),
    ;

    /// Read the input devices and either stay (`None`) or hand back the
    /// screen to transition to. The manager's previous screen is offered so
    /// a screen can return to it.
    fn handle_controls(&mut self, previous_screen: Option<Self>) -> Option<Self>;
}

/// Owns exactly one current screen and at most one previous screen: a
/// single level of history, not a stack.
pub struct ScreenManager<S: GameScreen> {
    pub current_screen: S,
    pub previous_screen: Option<S>,
}

impl<S: GameScreen> ScreenManager<S> {
    /// What a transition does: the outgoing screen is retained as the one
    /// level of history, and the new screen becomes current.
    pub open spec fn change_rel(pre: Self, post: Self, next: S) -> bool {
        &&& post.current_screen == next
        &&& post.previous_screen == Some(pre.current_screen)
    }

    /// What a revert does: with history, the previous screen becomes
    /// current and the history empties, so a second revert in a row does
    /// nothing; without history, nothing changes at all.
    pub open spec fn revert_rel(pre: Self, post: Self) -> bool {
        match pre.previous_screen {
            Some(p) => post.current_screen == p && post.previous_screen is None,
            None => post == pre,
        }
    }

    /// Switch to `new_screen`, keeping the outgoing screen as history, and
    /// render the new screen once so the first frame after a transition is
    /// never blank.
    pub fn change_screen(&mut self, new_screen: S)
        ensures
            Self::change_rel(*old(self), *final(self), new_screen),
    {
        let mut outgoing = new_screen;
        core::mem::swap(&mut self.current_screen, &mut outgoing);
        self.previous_screen = Some(outgoing);
        self.current_screen.display();
    }

    /// Go back one level if there is history, rendering the restored
    /// screen; with no history this is a no-op.
    pub fn revert_screen(&mut self)
        ensures
            Self::revert_rel(*old(self), *final(self)),
    {
        let mut restored: Option<S> = None;
        core::mem::swap(&mut self.previous_screen, &mut restored);
        match restored {
            Some(p) => {
                self.current_screen = p;
                self.current_screen.display();
            },
            None => {},
        }
    }
}

/// A manager seeded fresh, with its previous screen set to the current one,
/// reverts harmlessly: the current screen is left unchanged.
pub proof fn lemma_fresh_revert_keeps_current<S: GameScreen>(
    pre: ScreenManager<S>,
    post: ScreenManager<S>,
)
    requires
        pre.previous_screen == Some(pre.current_screen),
        ScreenManager::revert_rel(pre, post),
    ensures
        post.current_screen == pre.current_screen,
{
}

} // verus!
