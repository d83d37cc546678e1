use vstd::prelude::*;

verus! {

/// A screen of the application.
#[derive(Clone, Copy, Debug, PartialEq, Eq, Structural)]
pub enum Screen {
    Logout,
    /// The login screen; `waiting` while a saved session is being restored.
    Login { waiting: bool },
    Main,
    GuildDiscovery,
}

impl Screen {
    /// Reacts to an error: a login screen stops waiting.
    pub fn on_error(&mut self)
        ensures
            *final(self) == match *old(self) {
                Screen::Login { .. } => Screen::Login { waiting: false },
                s => s,
            },
    {
        match self {
            Screen::Login { waiting } => {
                *waiting = false;
            },
            _ => {},
        }
    }
}

/// The stack of open screens; the top one is shown. It is never empty.
pub struct ScreenStack {
    stack: Vec<Screen>,
}

impl View for ScreenStack {
    type V = Seq<Screen>;

    closed spec fn view(&self) -> Seq<Screen> {
        self.stack@
    }
}

impl ScreenStack {
    /// The stack holds at least one screen.
    pub open spec fn wf(&self) -> bool {
        self@.len() >= 1
    }

    /// A stack holding `initial_screen` alone.
    pub fn new(initial_screen: Screen) -> (r: ScreenStack)
        ensures
            r.wf(),
            r@ == seq![initial_screen],
    {
        let r = ScreenStack { stack: vec![initial_screen] };
        assert(r@ =~= seq![initial_screen]);
        r
    }

    /// The screen on top.
    pub fn current(&self) -> (r: &Screen)
        requires
            self.wf(),
        ensures
            *r == self@.last(),
    {
        let n = self.stack.len();
        &self.stack[n - 1]
    }

    /// The screen on top, to change it.
    pub fn current_mut(&mut self) -> (r: &mut Screen)
        requires
            old(self).wf(),
        ensures
            *r == old(self)@.last(),
            final(self)@ == old(self)@.update(old(self)@.len() - 1, *final(r)),
    {
        let n = self.stack.len();
        &mut self.stack[n - 1]
    }

    /// Replaces every screen with `screen`, and returns the screens that were
    /// there, bottom first.
    pub fn clear(&mut self, screen: Screen) -> (r: Vec<Screen>)
        requires
            old(self).wf(),
        ensures
            final(self).wf(),
            final(self)@ == seq![screen],
            r@ == old(self)@,
    {
        let mut temp: Vec<Screen> = Vec::with_capacity(self.stack.len());
        temp.append(&mut self.stack);
        self.stack.push(screen);
        assert(self@ =~= seq![screen]);
        assert(temp@ =~= old(self)@);
        temp
    }

    /// Puts `screen` on top.
    pub fn push(&mut self, screen: Screen)
        requires
            old(self).wf(),
        ensures
            final(self).wf(),
            final(self)@ == old(self)@.push(screen),
    {
        self.stack.push(screen)
    }

    /// Takes the top screen off, unless it is the only one.
    pub fn pop(&mut self) -> (r: Option<Screen>)
        requires
            old(self).wf(),
        ensures
            final(self).wf(),
            old(self)@.len() > 1 ==> r == Some(old(self)@.last()) && final(self)@ == old(
                self,
            )@.drop_last(),
            old(self)@.len() == 1 ==> r is None && final(self)@ == old(self)@,
    {
        if self.stack.len() > 1 {
            let screen = self.stack.pop();
            assert(self@ =~= old(self)@.drop_last());
            screen
        } else {
            None
        }
    }
}

} // verus!
