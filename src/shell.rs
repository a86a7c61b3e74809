use vstd::prelude::*;
use crate::plugin::{attach_outcome, contains_capability, Capability, SetupCallback, SetupView};
use crate::window::{
    customize_window, customized, find_window, has_window, views, window_index,
    Platform, Window, WindowView,
};

verus! {

/// The phases of the bootstrap, in the order in which they are reached.
#[derive(Clone, Copy, Debug, PartialEq, Eq, Structural)]
pub enum Phase {
    Uninitialized,
    PluginsAttached,
    WindowReady,
    SetupComplete,
    Running,
    Terminated,
}

/// The position of a phase along the bootstrap.
pub open spec fn rank(p: Phase) -> int {
    match p {
        Phase::Uninitialized => 0,
        Phase::PluginsAttached => 1,
        Phase::WindowReady => 2,
        Phase::SetupComplete => 3,
        Phase::Running => 4,
        Phase::Terminated => 5,
    }
}

/// One step of the bootstrap: forward to the next phase, or to `Terminated`
/// from any phase before it (a fatal failure, or the end of the event loop).
pub open spec fn advances(from: Phase, to: Phase) -> bool {
    ||| rank(to) == rank(from) + 1
    ||| (to == Phase::Terminated && from != Phase::Terminated)
}

/// A record of the phases that a shell went through, starting uninitialized.
pub open spec fn valid_trace(t: Seq<Phase>) -> bool {
    &&& t.len() >= 1
    &&& t[0] == Phase::Uninitialized
    &&& forall|i: int| 0 <= i < t.len() - 1 ==> advances(#[trigger] t[i], t[i + 1])
}

/// A failure of the bootstrap. Each one is fatal to the process.
#[derive(Debug, PartialEq, Eq)]
pub enum BootstrapError {
    /// The capability was attached already.
    DuplicatePlugin(Capability),
    /// The setup step looked up a window that the configuration does not declare.
    WindowNotFound(String),
    /// A step was asked for in a phase other than the one it follows.
    OutOfOrder { expected: Phase, found: Phase },
}

/// The static configuration of the application: the windows it declares,
/// each with its label and default title.
#[derive(Debug)]
pub struct ShellConfig {
    pub windows: Vec<Window>,
}

/// The windows after the setup step of `setup` ran on `ws` on `platform`.
pub open spec fn set_up_windows(
    ws: Seq<WindowView>,
    setup: Option<SetupView>,
    platform: Platform,
) -> Seq<WindowView> {
    match setup {
        Some(cb) => match cb.customization {
            Some(c) => if has_window(ws, cb.window_label) {
                let i = window_index(ws, cb.window_label);
                ws.update(i, customized(ws[i], c, platform))
            } else {
                ws
            },
            None => ws,
        },
        None => ws,
    }
}

/// The setup step of `setup` finds the window it looks for among `ws`.
pub open spec fn setup_succeeds(ws: Seq<WindowView>, setup: Option<SetupView>) -> bool {
    match setup {
        Some(cb) => has_window(ws, cb.window_label),
        None => true,
    }
}

/// The setup step of `setup` changes a title on `platform`.
pub open spec fn retitles(setup: Option<SetupView>, platform: Platform) -> bool {
    match setup {
        Some(cb) => match cb.customization {
            Some(c) => c.platform == platform,
            None => false,
        },
        None => false,
    }
}

/// A shell under construction: the capabilities attached so far, in order,
/// and the setup callback.
pub struct ShellBuilder {
    plugins: Vec<Capability>,
    setup: Option<SetupCallback>,
}

/// The abstract value of a builder.
pub struct BuilderView {
    pub plugins: Seq<Capability>,
    pub setup: Option<SetupView>,
}

impl View for ShellBuilder {
    type V = BuilderView;

    closed spec fn view(&self) -> BuilderView {
        BuilderView {
            plugins: self.plugins@,
            setup: match self.setup {
                Some(cb) => Some(cb@),
                None => None,
            },
        }
    }
}

/// Creates a builder with no plugins and no setup callback.
pub fn initialize_shell() -> (b: ShellBuilder)
    ensures
        b.wf(),
        b@.plugins == Seq::<Capability>::empty(),
        b@.setup is None,
{
    ShellBuilder { plugins: Vec::new(), setup: None }
}

impl ShellBuilder {
    /// No capability is attached twice.
    pub open spec fn wf(&self) -> bool {
        self@.plugins.no_duplicates()
    }

    /// Attaches `cap` after the capabilities attached so far. Attaching a
    /// capability that is there already fails and changes nothing.
    pub fn attach_plugin(self, cap: Capability) -> (r: Result<ShellBuilder, BootstrapError>)
        requires
            self.wf(),
        ensures
            self@.plugins.contains(cap) ==> r == Err::<ShellBuilder, BootstrapError>(
                BootstrapError::DuplicatePlugin(cap),
            ),
            !self@.plugins.contains(cap) ==> r is Ok,
            r matches Ok(b) ==> b.wf() && Some(b@.plugins) == attach_outcome(self@.plugins, cap)
                && b@.setup == self@.setup,
    {
        if contains_capability(&self.plugins, cap) {
            return Err(BootstrapError::DuplicatePlugin(cap));
        }
        let mut b = self;
        b.plugins.push(cap);
        Ok(b)
    }

    /// Registers the callback that runs once the windows exist, in place of
    /// any registered before.
    pub fn set_setup_callback(self, callback: SetupCallback) -> (b: ShellBuilder)
        requires
            self.wf(),
        ensures
            b.wf(),
            b@.plugins == self@.plugins,
            b@.setup == Some(callback@),
    {
        ShellBuilder { plugins: self.plugins, setup: Some(callback) }
    }

    /// The capabilities attached so far, in the order of attachment.
    pub fn plugins(&self) -> (r: &Vec<Capability>)
        ensures
            r@ == self@.plugins,
    {
        &self.plugins
    }
}

impl ShellBuilder {
    /// Fixes the attached capabilities and hands the configuration to a shell
    /// whose windows are not created yet.
    pub fn build(self, config: ShellConfig, platform: Platform) -> (s: Shell)
        requires
            self.wf(),
        ensures
            s.wf(),
            s@.plugins == self@.plugins,
            s@.setup == self@.setup,
            s@.declared == views(config.windows@),
            s@.windows == Seq::<WindowView>::empty(),
            s@.platform == platform,
            s@.phase == Phase::PluginsAttached,
            s@.trace == seq![Phase::Uninitialized, Phase::PluginsAttached],
            s@.exit_code is None,
    {
        let mut trace: Vec<Phase> = Vec::new();
        trace.push(Phase::Uninitialized);
        trace.push(Phase::PluginsAttached);
        let s = Shell {
            plugins: self.plugins,
            setup: self.setup,
            declared: config.windows,
            windows: Vec::new(),
            platform,
            phase: Phase::PluginsAttached,
            trace,
            exit_code: None,
        };
        assert(s@.trace =~= seq![Phase::Uninitialized, Phase::PluginsAttached]);
        assert(s@.windows =~= Seq::<WindowView>::empty());
        s
    }
}

/// The application shell, from the moment its capabilities are fixed until
/// its event loop has ended.
pub struct Shell {
    plugins: Vec<Capability>,
    setup: Option<SetupCallback>,
    declared: Vec<Window>,
    windows: Vec<Window>,
    platform: Platform,
    phase: Phase,
    trace: Vec<Phase>,
    exit_code: Option<i32>,
}

/// The abstract value of a shell.
pub struct ShellView {
    /// The attached capabilities, in the order of attachment.
    pub plugins: Seq<Capability>,
    pub setup: Option<SetupView>,
    /// The windows that the configuration declares.
    pub declared: Seq<WindowView>,
    /// The windows that exist.
    pub windows: Seq<WindowView>,
    pub platform: Platform,
    pub phase: Phase,
    /// Every phase reached so far, the current one last.
    pub trace: Seq<Phase>,
    /// The status with which the event loop ended.
    pub exit_code: Option<i32>,
}

impl View for Shell {
    type V = ShellView;

    closed spec fn view(&self) -> ShellView {
        ShellView {
            plugins: self.plugins@,
            setup: match self.setup {
                Some(cb) => Some(cb@),
                None => None,
            },
            declared: views(self.declared@),
            windows: views(self.windows@),
            platform: self.platform,
            phase: self.phase,
            trace: self.trace@,
            exit_code: self.exit_code,
        }
    }
}

/// Makes a copy of a window.
fn copy_window(w: &Window) -> (r: Window)
    ensures
        r@ == w@,
{
    Window { label: w.label.clone(), title: w.title.clone() }
}

impl Shell {
    /// The phases so far form a bootstrap; no capability is attached twice; and
    /// the windows are those that the phase calls for.
    pub open spec fn wf(&self) -> bool {
        let v = self@;
        &&& valid_trace(v.trace)
        &&& v.trace.last() == v.phase
        &&& v.phase != Phase::Uninitialized
        &&& v.plugins.no_duplicates()
        &&& v.phase == Phase::PluginsAttached ==> v.windows.len() == 0
        &&& v.phase == Phase::WindowReady ==> v.windows == v.declared
        &&& (v.phase == Phase::SetupComplete || v.phase == Phase::Running) ==> v.windows
            == set_up_windows(v.declared, v.setup, v.platform)
        &&& v.exit_code is Some ==> v.phase == Phase::Terminated
    }

    /// Creates the declared windows, with their default titles.
    pub fn create_windows(&mut self) -> (r: Result<(), BootstrapError>)
        requires
            old(self).wf(),
        ensures
            final(self).wf(),
            old(self)@.phase != Phase::PluginsAttached ==> final(self)@ == old(self)@ && r
                == Err::<(), BootstrapError>(
                BootstrapError::OutOfOrder {
                    expected: Phase::PluginsAttached,
                    found: old(self)@.phase,
                },
            ),
            old(self)@.phase == Phase::PluginsAttached ==> r is Ok && final(self)@ == (ShellView {
                windows: old(self)@.declared,
                phase: Phase::WindowReady,
                trace: old(self)@.trace.push(Phase::WindowReady),
                ..old(self)@
            }),
    {
        if self.phase != Phase::PluginsAttached {
            return Err(
                BootstrapError::OutOfOrder { expected: Phase::PluginsAttached, found: self.phase },
            );
        }
        let mut ws: Vec<Window> = Vec::new();
        let mut i: usize = 0;
        while i < self.declared.len()
            invariant
                0 <= i <= self.declared.len(),
                ws.len() == i,
                views(ws@) =~= views(self.declared@).subrange(0, i as int),
            decreases self.declared.len() - i,
        {
            let w = copy_window(&self.declared[i]);
            ws.push(w);
            assert(views(ws@) =~= views(self.declared@).subrange(0, i + 1));
            i = i + 1;
        }
        assert(views(ws@) =~= views(self.declared@));
        self.windows = ws;
        self.phase = Phase::WindowReady;
        self.trace.push(Phase::WindowReady);
        Ok(())
    }

    /// Runs the setup callback once: looks up its window and applies its title
    /// change. The result names the window whose title changed, if one did. A
    /// window that is not there is fatal: the shell terminates.
    pub fn run_setup(&mut self) -> (r: Result<Option<Window>, BootstrapError>)
        requires
            old(self).wf(),
        ensures
            final(self).wf(),
            old(self)@.phase != Phase::WindowReady ==> final(self)@ == old(self)@ && r
                == Err::<Option<Window>, BootstrapError>(
                BootstrapError::OutOfOrder { expected: Phase::WindowReady, found: old(self)@.phase },
            ),
            old(self)@.phase == Phase::WindowReady && setup_succeeds(
                old(self)@.windows,
                old(self)@.setup,
            ) ==> r is Ok && final(self)@ == (ShellView {
                windows: set_up_windows(old(self)@.windows, old(self)@.setup, old(self)@.platform),
                phase: Phase::SetupComplete,
                trace: old(self)@.trace.push(Phase::SetupComplete),
                ..old(self)@
            }),
            old(self)@.phase == Phase::WindowReady && !setup_succeeds(
                old(self)@.windows,
                old(self)@.setup,
            ) ==> (r matches Err(BootstrapError::WindowNotFound(l)) && l@ == old(
                self,
            )@.setup->0.window_label) && final(self)@ == (ShellView {
                phase: Phase::Terminated,
                trace: old(self)@.trace.push(Phase::Terminated),
                ..old(self)@
            }),
            r matches Ok(changed) ==> (changed is Some <==> retitles(
                old(self)@.setup,
                old(self)@.platform,
            )),
            r matches Ok(Some(w)) ==> w@ == final(self)@.windows[window_index(
                old(self)@.windows,
                old(self)@.setup->0.window_label,
            )],
    {
        if self.phase != Phase::WindowReady {
            return Err(
                BootstrapError::OutOfOrder { expected: Phase::WindowReady, found: self.phase },
            );
        }
        match &self.setup {
            None => {
                self.phase = Phase::SetupComplete;
                self.trace.push(Phase::SetupComplete);
                Ok(None)
            },
            Some(cb) => {
                match find_window(&self.windows, &cb.window_label) {
                    None => {
                        let label = cb.window_label.clone();
                        self.phase = Phase::Terminated;
                        self.trace.push(Phase::Terminated);
                        Err(BootstrapError::WindowNotFound(label))
                    },
                    Some(i) => {
                        match &cb.customization {
                            None => {
                                self.phase = Phase::SetupComplete;
                                self.trace.push(Phase::SetupComplete);
                                Ok(None)
                            },
                            Some(c) => {
                                let ghost before = views(self.windows@);
                                let mut w = copy_window(&self.windows[i]);
                                customize_window(&mut w, c, self.platform);
                                let changed = if self.platform == c.platform {
                                    Some(copy_window(&w))
                                } else {
                                    None
                                };
                                self.windows.set(i, w);
                                assert(views(self.windows@) =~= before.update(
                                    i as int,
                                    customized(before[i as int], c@, self.platform),
                                ));
                                self.phase = Phase::SetupComplete;
                                self.trace.push(Phase::SetupComplete);
                                Ok(changed)
                            },
                        }
                    },
                }
            },
        }
    }

    /// Enters the event loop. Only a shell whose setup completed may enter it,
    /// and only once.
    pub fn run_event_loop(&mut self) -> (r: Result<(), BootstrapError>)
        requires
            old(self).wf(),
        ensures
            final(self).wf(),
            old(self)@.phase != Phase::SetupComplete ==> final(self)@ == old(self)@ && r
                == Err::<(), BootstrapError>(
                BootstrapError::OutOfOrder {
                    expected: Phase::SetupComplete,
                    found: old(self)@.phase,
                },
            ),
            old(self)@.phase == Phase::SetupComplete ==> r is Ok && final(self)@ == (ShellView {
                phase: Phase::Running,
                trace: old(self)@.trace.push(Phase::Running),
                ..old(self)@
            }),
    {
        if self.phase != Phase::SetupComplete {
            return Err(
                BootstrapError::OutOfOrder { expected: Phase::SetupComplete, found: self.phase },
            );
        }
        self.phase = Phase::Running;
        self.trace.push(Phase::Running);
        Ok(())
    }

    /// Records that the running event loop ended with `code`.
    pub fn terminate(&mut self, code: i32) -> (r: Result<(), BootstrapError>)
        requires
            old(self).wf(),
        ensures
            final(self).wf(),
            old(self)@.phase != Phase::Running ==> final(self)@ == old(self)@ && r
                == Err::<(), BootstrapError>(
                BootstrapError::OutOfOrder { expected: Phase::Running, found: old(self)@.phase },
            ),
            old(self)@.phase == Phase::Running ==> r is Ok && final(self)@ == (ShellView {
                phase: Phase::Terminated,
                trace: old(self)@.trace.push(Phase::Terminated),
                exit_code: Some(code),
                ..old(self)@
            }),
    {
        if self.phase != Phase::Running {
            return Err(BootstrapError::OutOfOrder { expected: Phase::Running, found: self.phase });
        }
        self.phase = Phase::Terminated;
        self.trace.push(Phase::Terminated);
        self.exit_code = Some(code);
        Ok(())
    }

    /// The current phase.
    pub fn phase(&self) -> (r: Phase)
        ensures
            r == self@.phase,
    {
        self.phase
    }

    /// Every phase reached so far, the current one last.
    pub fn trace(&self) -> (r: &Vec<Phase>)
        ensures
            r@ == self@.trace,
    {
        &self.trace
    }

    /// The windows that exist.
    pub fn windows(&self) -> (r: &Vec<Window>)
        ensures
            views(r@) == self@.windows,
    {
        &self.windows
    }

    /// The attached capabilities, in the order of attachment.
    pub fn plugins(&self) -> (r: &Vec<Capability>)
        ensures
            r@ == self@.plugins,
    {
        &self.plugins
    }

    /// The platform the shell runs on.
    pub fn platform(&self) -> (r: Platform)
        ensures
            r == self@.platform,
    {
        self.platform
    }

    /// The status with which the event loop ended, once it has.
    pub fn exit_code(&self) -> (r: Option<i32>)
        ensures
            r == self@.exit_code,
    {
        self.exit_code
    }

    /// Looks up an existing window by its label.
    pub fn get_window(&self, label: &String) -> (r: Option<&Window>)
        ensures
            r is None <==> !has_window(self@.windows, label@),
            r matches Some(w) ==> w@ == self@.windows[window_index(self@.windows, label@)],
    {
        match find_window(&self.windows, label) {
            Some(i) => Some(&self.windows[i]),
            None => None,
        }
    }
}

/// Runs the whole bootstrap: builds the shell from its configuration, creates
/// the declared windows, runs the setup callback and enters the event loop.
/// It fails, without entering the event loop, exactly when the setup
/// callback looks up a window that the configuration does not declare.
pub fn bootstrap(builder: ShellBuilder, config: ShellConfig, platform: Platform) -> (r: Result<
    Shell,
    BootstrapError,
>)
    requires
        builder.wf(),
    ensures
        r is Ok <==> setup_succeeds(views(config.windows@), builder@.setup),
        r matches Err(e) ==> e matches BootstrapError::WindowNotFound(l) && l@
            == builder@.setup->0.window_label,
        r matches Ok(s) ==> {
            &&& s.wf()
            &&& s@.phase == Phase::Running
            &&& s@.plugins == builder@.plugins
            &&& s@.setup == builder@.setup
            &&& s@.platform == platform
            &&& s@.declared == views(config.windows@)
            &&& s@.windows == set_up_windows(views(config.windows@), builder@.setup, platform)
            &&& s@.trace == seq![
                Phase::Uninitialized,
                Phase::PluginsAttached,
                Phase::WindowReady,
                Phase::SetupComplete,
                Phase::Running,
            ]
            &&& s@.exit_code is None
        },
{
    let mut s = builder.build(config, platform);
    // Each step comes right after the one it follows, so only the setup can fail.
    let _ = s.create_windows();
    match s.run_setup() {
        Ok(_) => {},
        Err(e) => {
            return Err(e);
        },
    }
    let _ = s.run_event_loop();
    assert(s@.trace =~= seq![
        Phase::Uninitialized,
        Phase::PluginsAttached,
        Phase::WindowReady,
        Phase::SetupComplete,
        Phase::Running,
    ]);
    Ok(s)
}

/// Every valid bootstrap passes through `SetupComplete` immediately before it
/// reaches `Running`.
pub proof fn lemma_setup_precedes_running(t: Seq<Phase>, i: int)
    requires
        valid_trace(t),
        0 <= i < t.len(),
        t[i] == Phase::Running,
    ensures
        1 <= i,
        t[i - 1] == Phase::SetupComplete,
{
    assert(advances(t[i - 1], t[i]));
}

/// Along a valid bootstrap the phases only move forward.
pub proof fn lemma_phases_move_forward(t: Seq<Phase>, i: int, j: int)
    requires
        valid_trace(t),
        0 <= i < j < t.len(),
    ensures
        rank(t[i]) < rank(t[j]),
    decreases j - i,
{
    assert(advances(t[j - 1], t[j]));
    if i < j - 1 {
        lemma_phases_move_forward(t, i, j - 1);
    }
}

/// A valid bootstrap reaches each phase at most once: in particular the event
/// loop is entered at most once in the life of a shell.
pub proof fn lemma_phase_reached_once(t: Seq<Phase>, i: int, j: int)
    requires
        valid_trace(t),
        0 <= i < t.len(),
        0 <= j < t.len(),
        t[i] == t[j],
    ensures
        i == j,
{
    if i < j {
        lemma_phases_move_forward(t, i, j);
    } else if j < i {
        lemma_phases_move_forward(t, j, i);
    }
}

/// Once the windows are ready, every window that the configuration declares
/// exists, so the setup callback's lookup of a declared label succeeds.
pub proof fn lemma_declared_window_ready(s: &Shell, label: Seq<char>)
    requires
        s.wf(),
        s@.phase == Phase::WindowReady,
        has_window(s@.declared, label),
    ensures
        has_window(s@.windows, label),
        s@.setup matches Some(cb) && cb.window_label == label ==> setup_succeeds(
            s@.windows,
            s@.setup,
        ),
{
}

} // verus!
