use vstd::prelude::*;
use crate::window::{TitleCustomization, TitleView};

verus! {

/// A platform service that a plugin grants the shell.
#[derive(Clone, Copy, Debug, PartialEq, Eq, Structural)]
pub enum Capability {
    /// Running external processes.
    Shell,
    /// Delivering user notifications.
    Notification,
    /// Checking for and installing updates of the application.
    Updater,
    /// Controlling the life of the application's process.
    Process,
}

/// What the one-time setup step does once the windows exist: look up a window
/// by its label and, optionally, change its title on one platform.
#[derive(Debug)]
pub struct SetupCallback {
    pub window_label: String,
    pub customization: Option<TitleCustomization>,
}

/// The abstract value of a setup callback.
pub struct SetupView {
    pub window_label: Seq<char>,
    pub customization: Option<TitleView>,
}

impl View for SetupCallback {
    type V = SetupView;

    open spec fn view(&self) -> SetupView {
        SetupView {
            window_label: self.window_label@,
            customization: match self.customization {
                Some(c) => Some(c@),
                None => None,
            },
        }
    }
}

/// The outcome of attaching `cap` after `plugins`: refused when the capability
/// is already there, else appended at the end.
pub open spec fn attach_outcome(plugins: Seq<Capability>, cap: Capability) -> Option<
    Seq<Capability>,
> {
    if plugins.contains(cap) {
        None
    } else {
        Some(plugins.push(cap))
    }
}

/// Once a capability has been attached, attaching it again is refused, and
/// nothing that was attached before is replaced.
pub proof fn lemma_attach_twice_refused(plugins: Seq<Capability>, cap: Capability)
    requires
        attach_outcome(plugins, cap) is Some,
    ensures
        attach_outcome(attach_outcome(plugins, cap)->0, cap) is None,
        attach_outcome(plugins, cap)->0.subrange(0, plugins.len() as int) == plugins,
        attach_outcome(plugins, cap)->0.len() == plugins.len() + 1,
{
    let p = attach_outcome(plugins, cap)->0;
    assert(p[plugins.len() as int] == cap);
    assert(p.subrange(0, plugins.len() as int) =~= plugins);
}

/// Searches `plugins` for `cap`.
pub fn contains_capability(plugins: &Vec<Capability>, cap: Capability) -> (r: bool)
    ensures
        r == plugins@.contains(cap),
{
    let mut i: usize = 0;
    while i < plugins.len()
        invariant
            0 <= i <= plugins.len(),
            forall|j: int| 0 <= j < i ==> plugins@[j] != cap,
        decreases plugins.len() - i,
    {
        if plugins[i] == cap {
            assert(plugins@[i as int] == cap);
            return true;
        }
        i = i + 1;
    }
    false
}

} // verus!
