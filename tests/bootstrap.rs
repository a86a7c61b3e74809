use syntora_shell::plugin::{contains_capability, Capability, SetupCallback};
use syntora_shell::shell::{bootstrap, initialize_shell, BootstrapError, Phase, ShellBuilder, ShellConfig};
use syntora_shell::window::{customize_window, find_window, Platform, TitleCustomization, Window};

const TITLE: &str = "Syntora Todo - Personal Task Manager";

fn window(label: &str, title: &str) -> Window {
    Window { label: label.to_string(), title: title.to_string() }
}

fn all_plugins() -> ShellBuilder {
    initialize_shell()
        .attach_plugin(Capability::Shell)
        .unwrap()
        .attach_plugin(Capability::Notification)
        .unwrap()
        .attach_plugin(Capability::Updater)
        .unwrap()
        .attach_plugin(Capability::Process)
        .unwrap()
}

fn main_window_setup() -> SetupCallback {
    SetupCallback {
        window_label: "main".to_string(),
        customization: Some(TitleCustomization { platform: Platform::Windows, title: TITLE.to_string() }),
    }
}

fn main_config() -> ShellConfig {
    ShellConfig { windows: vec![window("main", "Syntora Todo")] }
}

#[test]
fn initialized_builder_has_no_plugins() {
    let b = initialize_shell();
    assert!(b.plugins().is_empty());
}

#[test]
fn plugins_keep_attachment_order() {
    let b = all_plugins();
    assert_eq!(
        b.plugins(),
        &vec![Capability::Shell, Capability::Notification, Capability::Updater, Capability::Process]
    );
}

#[test]
fn attaching_capability_twice_fails() {
    let b = initialize_shell().attach_plugin(Capability::Notification).unwrap();
    let r = b.attach_plugin(Capability::Notification);
    assert_eq!(r.err(), Some(BootstrapError::DuplicatePlugin(Capability::Notification)));
}

#[test]
fn attaching_capability_twice_fails_after_others() {
    let r = all_plugins().attach_plugin(Capability::Shell);
    assert_eq!(r.err(), Some(BootstrapError::DuplicatePlugin(Capability::Shell)));
}

#[test]
fn contains_capability_searches_all() {
    let v = vec![Capability::Shell, Capability::Process];
    assert!(contains_capability(&v, Capability::Process));
    assert!(!contains_capability(&v, Capability::Updater));
    assert!(!contains_capability(&Vec::new(), Capability::Shell));
}

#[test]
fn customize_window_on_matching_platform_sets_title() {
    let mut w = window("main", "default");
    let c = TitleCustomization { platform: Platform::Windows, title: TITLE.to_string() };
    customize_window(&mut w, &c, Platform::Windows);
    assert_eq!(w.title, TITLE);
    assert_eq!(w.label, "main");
}

#[test]
fn customize_window_on_other_platform_is_noop() {
    let c = TitleCustomization { platform: Platform::Windows, title: TITLE.to_string() };
    for p in [Platform::MacOs, Platform::Linux, Platform::Android, Platform::Ios] {
        let mut w = window("main", "default");
        customize_window(&mut w, &c, p);
        assert_eq!(w.title, "default");
        assert_eq!(w.label, "main");
    }
}

#[test]
fn find_window_returns_first_match() {
    let ws = vec![window("a", "1"), window("main", "2"), window("main", "3")];
    assert_eq!(find_window(&ws, &"main".to_string()), Some(1));
    assert_eq!(find_window(&ws, &"a".to_string()), Some(0));
    assert_eq!(find_window(&ws, &"b".to_string()), None);
    assert_eq!(find_window(&Vec::new(), &"main".to_string()), None);
}

#[test]
fn bootstrap_sets_main_title_on_windows() {
    let b = all_plugins().set_setup_callback(main_window_setup());
    let s = bootstrap(b, main_config(), Platform::Windows).unwrap();
    assert_eq!(s.phase(), Phase::Running);
    assert_eq!(s.windows().len(), 1);
    assert_eq!(s.windows()[0].label, "main");
    assert_eq!(s.windows()[0].title, TITLE);
    assert_eq!(s.plugins().len(), 4);
}

#[test]
fn bootstrap_keeps_default_title_elsewhere() {
    for p in [Platform::MacOs, Platform::Linux, Platform::Android, Platform::Ios] {
        let b = all_plugins().set_setup_callback(main_window_setup());
        let s = bootstrap(b, main_config(), p).unwrap();
        assert_eq!(s.phase(), Phase::Running);
        assert_eq!(s.windows().len(), 1);
        assert_eq!(s.windows()[0].label, "main");
        assert_eq!(s.windows()[0].title, "Syntora Todo");
    }
}

#[test]
fn bootstrap_passes_setup_before_running() {
    let b = all_plugins().set_setup_callback(main_window_setup());
    let s = bootstrap(b, main_config(), Platform::Linux).unwrap();
    assert_eq!(
        s.trace(),
        &vec![
            Phase::Uninitialized,
            Phase::PluginsAttached,
            Phase::WindowReady,
            Phase::SetupComplete,
            Phase::Running
        ]
    );
}

#[test]
fn bootstrap_without_windows_fails() {
    let b = all_plugins().set_setup_callback(main_window_setup());
    let r = bootstrap(b, ShellConfig { windows: Vec::new() }, Platform::Windows);
    assert_eq!(r.err(), Some(BootstrapError::WindowNotFound("main".to_string())));
}

#[test]
fn missing_window_terminates_before_event_loop() {
    let b = all_plugins().set_setup_callback(main_window_setup());
    let mut s = b.build(ShellConfig { windows: Vec::new() }, Platform::Windows);
    assert_eq!(s.create_windows(), Ok(()));
    assert_eq!(s.run_setup().err(), Some(BootstrapError::WindowNotFound("main".to_string())));
    assert_eq!(s.phase(), Phase::Terminated);
    assert!(!s.trace().contains(&Phase::Running));
    assert_eq!(
        s.run_event_loop(),
        Err(BootstrapError::OutOfOrder { expected: Phase::SetupComplete, found: Phase::Terminated })
    );
    assert_eq!(s.exit_code(), None);
}

#[test]
fn declared_window_is_there_when_ready() {
    let b = all_plugins().set_setup_callback(main_window_setup());
    let mut s = b.build(main_config(), Platform::Windows);
    assert!(s.windows().is_empty());
    assert_eq!(s.create_windows(), Ok(()));
    assert_eq!(s.phase(), Phase::WindowReady);
    let w = s.get_window(&"main".to_string()).unwrap();
    assert_eq!(w.title, "Syntora Todo");
    assert!(s.get_window(&"other".to_string()).is_none());
}

#[test]
fn run_setup_reports_changed_window() {
    let b = all_plugins().set_setup_callback(main_window_setup());
    let mut s = b.build(main_config(), Platform::Windows);
    s.create_windows().unwrap();
    let changed = s.run_setup().unwrap().unwrap();
    assert_eq!(changed.label, "main");
    assert_eq!(changed.title, TITLE);
    assert_eq!(s.phase(), Phase::SetupComplete);
}

#[test]
fn run_setup_reports_nothing_on_other_platform() {
    let b = all_plugins().set_setup_callback(main_window_setup());
    let mut s = b.build(main_config(), Platform::MacOs);
    s.create_windows().unwrap();
    assert!(s.run_setup().unwrap().is_none());
    assert_eq!(s.windows()[0].title, "Syntora Todo");
}

#[test]
fn run_setup_without_callback_completes() {
    let mut s = initialize_shell().build(ShellConfig { windows: Vec::new() }, Platform::Linux);
    s.create_windows().unwrap();
    assert!(s.run_setup().unwrap().is_none());
    assert_eq!(s.phase(), Phase::SetupComplete);
}

#[test]
fn setup_callback_replaces_earlier_one() {
    let other = SetupCallback { window_label: "settings".to_string(), customization: None };
    let b = all_plugins().set_setup_callback(other).set_setup_callback(main_window_setup());
    assert!(bootstrap(b, main_config(), Platform::Windows).is_ok());
}

#[test]
fn steps_out_of_order_are_refused() {
    let mut s = all_plugins().build(main_config(), Platform::Windows);
    assert_eq!(
        s.run_setup().err(),
        Some(BootstrapError::OutOfOrder { expected: Phase::WindowReady, found: Phase::PluginsAttached })
    );
    assert_eq!(
        s.run_event_loop(),
        Err(BootstrapError::OutOfOrder { expected: Phase::SetupComplete, found: Phase::PluginsAttached })
    );
    assert_eq!(
        s.terminate(0),
        Err(BootstrapError::OutOfOrder { expected: Phase::Running, found: Phase::PluginsAttached })
    );
    assert_eq!(s.phase(), Phase::PluginsAttached);
    s.create_windows().unwrap();
    assert_eq!(
        s.create_windows(),
        Err(BootstrapError::OutOfOrder { expected: Phase::PluginsAttached, found: Phase::WindowReady })
    );
}

#[test]
fn event_loop_is_entered_once() {
    let mut s = all_plugins().build(main_config(), Platform::Windows);
    s.create_windows().unwrap();
    s.run_setup().unwrap();
    assert_eq!(s.run_event_loop(), Ok(()));
    assert_eq!(s.phase(), Phase::Running);
    assert_eq!(
        s.run_event_loop(),
        Err(BootstrapError::OutOfOrder { expected: Phase::SetupComplete, found: Phase::Running })
    );
    assert_eq!(s.trace().iter().filter(|p| **p == Phase::Running).count(), 1);
}

#[test]
fn terminate_records_exit_code() {
    let b = all_plugins().set_setup_callback(main_window_setup());
    let mut s = bootstrap(b, main_config(), Platform::Windows).unwrap();
    assert_eq!(s.exit_code(), None);
    assert_eq!(s.terminate(3), Ok(()));
    assert_eq!(s.phase(), Phase::Terminated);
    assert_eq!(s.exit_code(), Some(3));
    assert_eq!(s.platform(), Platform::Windows);
    assert_eq!(
        s.terminate(0),
        Err(BootstrapError::OutOfOrder { expected: Phase::Running, found: Phase::Terminated })
    );
}
