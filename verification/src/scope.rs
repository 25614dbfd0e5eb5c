//! The begin/end discipline of the native library's scopes.
//!
//! A scope is begun by a native call that tells whether its content is
//! visible. The body runs only when it is. A window must be ended whatever
//! was returned; every other scope is ended only if it was visible.

use vstd::prelude::*;

verus! {

/// The scopes that the host opens around a body.
#[derive(Clone, Copy, Debug, PartialEq, Eq, Structural)]
pub enum ScopeKind {
    Window,
    MainMenuBar,
    MenuBar,
    Menu,
    Popup,
}

/// What follows the native begin call of a scope.
#[derive(Clone, Copy, Debug, PartialEq, Eq, Structural)]
pub struct ScopeStep {
    /// Whether the body runs.
    pub run_body: bool,
    /// Whether the native end call is made.
    pub end: bool,
}

impl ScopeKind {
    /// Whether the scope is ended even when it was not visible.
    pub open spec fn ends_when_hidden(self) -> bool {
        self == ScopeKind::Window
    }

    /// The step after a begin call that returned `visible`.
    pub open spec fn spec_after_begin(self, visible: bool) -> ScopeStep {
        ScopeStep { run_body: visible, end: visible || self.ends_when_hidden() }
    }

    /// Computes [`Self::spec_after_begin`]. A body never runs in a scope that
    /// is not ended afterwards.
    pub fn after_begin(self, visible: bool) -> (r: ScopeStep)
        ensures
            r == self.spec_after_begin(visible),
            r.run_body ==> r.end,
    {
        let always = match self {
            ScopeKind::Window => true,
            _ => false,
        };
        ScopeStep { run_body: visible, end: visible || always }
    }
}

/// Runs the body `f` of a scope whose begin call returned `visible`, if it is
/// to run, and tells whether the native end call is to be made.
pub fn run_scope<F: FnOnce()>(kind: ScopeKind, visible: bool, f: F) -> (end: bool)
    requires
        visible ==> call_requires(f, ()),
    ensures
        end == kind.spec_after_begin(visible).end,
        visible ==> call_ensures(f, (), ()),
{
    let step = kind.after_begin(visible);
    if step.run_body {
        f();
    }
    step.end
}

} // verus!
