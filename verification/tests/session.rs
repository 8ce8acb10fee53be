use scrollsplit::cli::{Command, ConfigCommand};
use scrollsplit::config::Config;
use scrollsplit::event_tap::run;
use scrollsplit::service::{install, restart, start, status, stop, uninstall, LaunchctlOutput};
use scrollsplit::session::{Action, Event, FileRead, Removal, Session};

const HOME: &[u8] = b"/Users/ann";
const PLIST: &str = "/Users/ann/Library/LaunchAgents/com.knothhe.scrollsplit.plist";
const CONFIG: &str = "/Users/ann/Library/Application Support/ScrollSplit/config.toml";
const CONFIG_DIR: &str = "/Users/ann/Library/Application Support/ScrollSplit";

fn next(s: &mut Session, e: Event) -> Action {
    assert!(s.accepts(&e));
    s.next(e)
}

fn ok_run() -> Event {
    Event::Launched(Ok(LaunchctlOutput { success: true, stdout: b"state = running\n".to_vec(), stderr: Vec::new() }))
}

fn failed_run(stderr: &str) -> Event {
    Event::Launched(Ok(LaunchctlOutput { success: false, stdout: Vec::new(), stderr: stderr.as_bytes().to_vec() }))
}

fn args(list: &[&str]) -> Action {
    Action::Launchctl(list.iter().map(|a| a.to_string()).collect())
}

#[test]
fn restart_ignores_failed_stop_and_falls_back_to_kickstart() {
    let mut s = restart();
    assert_eq!(next(&mut s, Event::Begin), Action::LookupUid);
    assert_eq!(next(&mut s, Event::Uid(501)), args(&["bootout", "gui/501/com.knothhe.scrollsplit"]));
    assert_eq!(next(&mut s, failed_run("not loaded")), Action::LookupHome);
    assert_eq!(next(&mut s, Event::Home(Some(HOME.to_vec()))), Action::PathExists(PLIST.as_bytes().to_vec()));
    assert_eq!(next(&mut s, Event::Exists(true)), args(&["bootstrap", "gui/501", PLIST]));
    assert_eq!(
        next(&mut s, failed_run("Bootstrap failed: 5")),
        args(&["kickstart", "-k", "gui/501/com.knothhe.scrollsplit"])
    );
    assert_eq!(next(&mut s, ok_run()), Action::Print("Started com.knothhe.scrollsplit\n".to_string()));
    assert_eq!(next(&mut s, Event::Acknowledged), Action::Finish(Ok(())));
    assert!(s.is_finished());
    assert!(!s.accepts(&Event::Acknowledged));
}

#[test]
fn restart_goes_on_after_successful_stop_too() {
    let mut s = restart();
    next(&mut s, Event::Begin);
    next(&mut s, Event::Uid(501));
    assert_eq!(next(&mut s, ok_run()), Action::LookupHome);
}

#[test]
fn start_reports_kickstart_failure() {
    let mut s = start();
    next(&mut s, Event::Begin);
    assert_eq!(next(&mut s, Event::Uid(501)), Action::LookupHome);
    next(&mut s, Event::Home(Some(HOME.to_vec())));
    next(&mut s, Event::Exists(true));
    next(&mut s, failed_run("one"));
    assert_eq!(next(&mut s, failed_run("  two \n")), Action::Finish(Err("two".to_string())));
}

#[test]
fn start_without_plist_is_refused() {
    let mut s = start();
    next(&mut s, Event::Begin);
    next(&mut s, Event::Uid(501));
    next(&mut s, Event::Home(Some(HOME.to_vec())));
    assert_eq!(
        next(&mut s, Event::Exists(false)),
        Action::Finish(Err("service is not installed; run `scrollsplit install-service`".to_string()))
    );
}

#[test]
fn missing_home_is_refused() {
    let mut s = start();
    next(&mut s, Event::Begin);
    next(&mut s, Event::Uid(501));
    assert_eq!(next(&mut s, Event::Home(None)), Action::Finish(Err("HOME is not set".to_string())));
}

#[test]
fn stop_reports_its_outcome() {
    let mut s = stop();
    next(&mut s, Event::Begin);
    next(&mut s, Event::Uid(501));
    assert_eq!(next(&mut s, ok_run()), Action::Print("Stopped com.knothhe.scrollsplit\n".to_string()));

    let mut s = stop();
    next(&mut s, Event::Begin);
    next(&mut s, Event::Uid(501));
    assert_eq!(
        next(&mut s, failed_run("")),
        Action::Finish(Err("launchctl bootout gui/501/com.knothhe.scrollsplit failed".to_string()))
    );
}

#[test]
fn status_prints_or_reports_not_running() {
    let mut s = status();
    next(&mut s, Event::Begin);
    assert_eq!(next(&mut s, Event::Uid(501)), args(&["print", "gui/501/com.knothhe.scrollsplit"]));
    assert_eq!(next(&mut s, ok_run()), Action::Print("state = running\n".to_string()));

    let mut s = status();
    next(&mut s, Event::Begin);
    next(&mut s, Event::Uid(501));
    assert_eq!(
        next(&mut s, failed_run("x")),
        Action::Finish(Err("com.knothhe.scrollsplit is not running".to_string()))
    );

    let mut s = status();
    next(&mut s, Event::Begin);
    next(&mut s, Event::Uid(501));
    assert_eq!(
        next(&mut s, Event::Launched(Err("denied".to_string()))),
        Action::Finish(Err("cannot run launchctl: denied".to_string()))
    );
}

#[test]
fn install_writes_plist_then_reloads() {
    let mut s = install();
    next(&mut s, Event::Begin);
    next(&mut s, Event::Uid(501));
    assert_eq!(next(&mut s, Event::Home(Some(HOME.to_vec()))), Action::LocateExecutable);
    assert_eq!(
        next(&mut s, Event::Located(Ok(b"./scrollsplit".to_vec()))),
        Action::ResolvePath(b"./scrollsplit".to_vec())
    );
    assert_eq!(
        next(&mut s, Event::Located(Ok(b"/opt/a&b/scrollsplit".to_vec()))),
        Action::CreateDir(b"/Users/ann/Library/LaunchAgents".to_vec())
    );
    match next(&mut s, Event::Done(Ok(()))) {
        Action::WriteFile(path, text) => {
            assert_eq!(path, PLIST.as_bytes().to_vec());
            assert!(text.contains("<string>/opt/a&amp;b/scrollsplit</string>"));
        }
        other => panic!("unexpected {other:?}"),
    }
    assert_eq!(next(&mut s, Event::Done(Ok(()))), args(&["bootout", "gui/501/com.knothhe.scrollsplit"]));
    assert_eq!(next(&mut s, failed_run("not loaded")), args(&["bootstrap", "gui/501", PLIST]));
    assert_eq!(
        next(&mut s, ok_run()),
        Action::Print(format!("Installed and started {PLIST}\n"))
    );
    assert_eq!(next(&mut s, Event::Acknowledged), Action::Finish(Ok(())));
}

#[test]
fn install_reports_file_errors() {
    let mut s = install();
    next(&mut s, Event::Begin);
    next(&mut s, Event::Uid(501));
    next(&mut s, Event::Home(Some(HOME.to_vec())));
    assert_eq!(
        next(&mut s, Event::Located(Err("gone".to_string()))),
        Action::Finish(Err("cannot locate current executable: gone".to_string()))
    );

    let mut s = install();
    next(&mut s, Event::Begin);
    next(&mut s, Event::Uid(501));
    next(&mut s, Event::Home(Some(HOME.to_vec())));
    next(&mut s, Event::Located(Ok(b"x".to_vec())));
    next(&mut s, Event::Located(Ok(b"/x".to_vec())));
    next(&mut s, Event::Done(Ok(())));
    assert_eq!(
        next(&mut s, Event::Done(Err("disk full".to_string()))),
        Action::Finish(Err(format!("cannot write {PLIST}: disk full")))
    );
}

#[test]
fn uninstall_of_missing_agent_succeeds() {
    let mut s = uninstall();
    next(&mut s, Event::Begin);
    next(&mut s, Event::Uid(501));
    assert_eq!(next(&mut s, Event::Home(Some(HOME.to_vec()))), args(&["bootout", "gui/501/com.knothhe.scrollsplit"]));
    assert_eq!(next(&mut s, failed_run("x")), Action::RemoveFile(PLIST.as_bytes().to_vec()));
    assert_eq!(next(&mut s, Event::Removed(Removal::Missing)), Action::Print("Service is not installed\n".to_string()));
    assert_eq!(next(&mut s, Event::Acknowledged), Action::Finish(Ok(())));
}

#[test]
fn uninstall_reports_removal() {
    let mut s = uninstall();
    next(&mut s, Event::Begin);
    next(&mut s, Event::Uid(501));
    next(&mut s, Event::Home(Some(HOME.to_vec())));
    next(&mut s, ok_run());
    assert_eq!(next(&mut s, Event::Removed(Removal::Removed)), Action::Print(format!("Removed {PLIST}\n")));

    let mut s = uninstall();
    next(&mut s, Event::Begin);
    next(&mut s, Event::Uid(501));
    next(&mut s, Event::Home(Some(HOME.to_vec())));
    next(&mut s, ok_run());
    assert_eq!(
        next(&mut s, Event::Removed(Removal::Failed("busy".to_string()))),
        Action::Finish(Err(format!("cannot remove {PLIST}: busy")))
    );
}

fn update(key: &str, value: &str) -> Session {
    Session::new(Command::Config(ConfigCommand::Update { key: key.to_string(), value: value.to_string() }))
}

#[test]
fn setting_a_value_with_missing_file_writes_default_then_update() {
    let mut s = update("reverse_trackpad", "YES");
    assert_eq!(next(&mut s, Event::Begin), Action::LookupHome);
    assert_eq!(next(&mut s, Event::Home(Some(HOME.to_vec()))), Action::ReadFile(CONFIG.as_bytes().to_vec()));
    assert_eq!(next(&mut s, Event::FileRead(FileRead::Missing)), Action::CreateDir(CONFIG_DIR.as_bytes().to_vec()));
    assert_eq!(next(&mut s, Event::Done(Ok(()))), Action::RenderConfig(Config::default()));
    assert_eq!(
        next(&mut s, Event::ConfigRendered(Ok("default".to_string()))),
        Action::WriteFile(CONFIG.as_bytes().to_vec(), "default".to_string())
    );
    assert_eq!(next(&mut s, Event::Done(Ok(()))), Action::CreateDir(CONFIG_DIR.as_bytes().to_vec()));
    let mut changed = Config::default();
    changed.reverse_trackpad = true;
    assert_eq!(next(&mut s, Event::Done(Ok(()))), Action::RenderConfig(changed));
    next(&mut s, Event::ConfigRendered(Ok("changed".to_string())));
    assert_eq!(next(&mut s, Event::Done(Ok(()))), Action::Print("reverse_trackpad = true\n".to_string()));
    assert_eq!(next(&mut s, Event::Acknowledged), Action::Finish(Ok(())));
}

#[test]
fn setting_a_value_keeps_the_other_settings() {
    let mut s = update("enabled", "off");
    next(&mut s, Event::Begin);
    next(&mut s, Event::Home(Some(HOME.to_vec())));
    assert_eq!(
        next(&mut s, Event::FileRead(FileRead::Contents("text".to_string()))),
        Action::ParseConfig("text".to_string())
    );
    let loaded = Config { enabled: true, reverse_mouse: false, reverse_trackpad: true, reverse_horizontal: true };
    assert_eq!(next(&mut s, Event::ConfigParsed(Ok(loaded))), Action::CreateDir(CONFIG_DIR.as_bytes().to_vec()));
    assert_eq!(
        next(&mut s, Event::Done(Ok(()))),
        Action::RenderConfig(Config { enabled: false, ..loaded })
    );
}

#[test]
fn setting_refuses_bad_value_and_unknown_key() {
    let mut s = update("enabled", "maybe");
    assert_eq!(
        next(&mut s, Event::Begin),
        Action::Finish(Err("expected a boolean, got \"maybe\"".to_string()))
    );

    let mut s = update("bogus", "1");
    next(&mut s, Event::Begin);
    next(&mut s, Event::Home(Some(HOME.to_vec())));
    next(&mut s, Event::FileRead(FileRead::Contents("t".to_string())));
    assert_eq!(
        next(&mut s, Event::ConfigParsed(Ok(Config::default()))),
        Action::Finish(Err("unknown key \"bogus\"; expected one of enabled, reverse_mouse, reverse_trackpad, reverse_horizontal".to_string()))
    );
}

#[test]
fn config_read_and_parse_errors_name_the_file() {
    let mut s = Session::new(Command::Config(ConfigCommand::Show));
    next(&mut s, Event::Begin);
    next(&mut s, Event::Home(Some(HOME.to_vec())));
    assert_eq!(
        next(&mut s, Event::FileRead(FileRead::Failed("denied".to_string()))),
        Action::Finish(Err(format!("cannot read {CONFIG}: denied")))
    );

    let mut s = Session::new(Command::Config(ConfigCommand::Show));
    next(&mut s, Event::Begin);
    next(&mut s, Event::Home(Some(HOME.to_vec())));
    next(&mut s, Event::FileRead(FileRead::Contents("x =".to_string())));
    assert_eq!(
        next(&mut s, Event::ConfigParsed(Err("bad".to_string()))),
        Action::Finish(Err(format!("cannot parse {CONFIG}: bad")))
    );
}

#[test]
fn show_prints_rendered_config() {
    let mut s = Session::new(Command::Config(ConfigCommand::Show));
    next(&mut s, Event::Begin);
    next(&mut s, Event::Home(Some(HOME.to_vec())));
    next(&mut s, Event::FileRead(FileRead::Contents("t".to_string())));
    assert_eq!(next(&mut s, Event::ConfigParsed(Ok(Config::default()))), Action::RenderConfig(Config::default()));
    assert_eq!(
        next(&mut s, Event::ConfigRendered(Ok("enabled = true\n".to_string()))),
        Action::Print("enabled = true\n".to_string())
    );
    assert_eq!(next(&mut s, Event::Acknowledged), Action::Finish(Ok(())));
}

#[test]
fn run_when_disabled_does_nothing() {
    let mut s = run();
    next(&mut s, Event::Begin);
    next(&mut s, Event::Home(Some(HOME.to_vec())));
    next(&mut s, Event::FileRead(FileRead::Contents("t".to_string())));
    let mut off = Config::default();
    off.enabled = false;
    assert_eq!(
        next(&mut s, Event::ConfigParsed(Ok(off))),
        Action::Print("ScrollSplit is disabled in the configuration\n".to_string())
    );
    assert_eq!(next(&mut s, Event::Acknowledged), Action::Finish(Ok(())));
}

#[test]
fn run_sets_up_the_tap() {
    let mut s = run();
    next(&mut s, Event::Begin);
    next(&mut s, Event::Home(Some(HOME.to_vec())));
    next(&mut s, Event::FileRead(FileRead::Contents("t".to_string())));
    assert_eq!(next(&mut s, Event::ConfigParsed(Ok(Config::default()))), Action::RequestPermission);
    assert_eq!(next(&mut s, Event::Granted(true)), Action::CreateTap(Config::default()));
    assert_eq!(next(&mut s, Event::Created(true)), Action::CreateSource);
    assert_eq!(next(&mut s, Event::Created(true)), Action::ActivateTap);
    assert_eq!(next(&mut s, Event::Acknowledged), Action::Print("ScrollSplit is running\n".to_string()));
    assert_eq!(next(&mut s, Event::Acknowledged), Action::RunLoop);
    assert_eq!(next(&mut s, Event::Acknowledged), Action::Finish(Ok(())));
}

#[test]
fn run_reports_missing_permission_and_tap_failures() {
    let prepare = || {
        let mut s = run();
        next(&mut s, Event::Begin);
        next(&mut s, Event::Home(Some(HOME.to_vec())));
        next(&mut s, Event::FileRead(FileRead::Contents("t".to_string())));
        next(&mut s, Event::ConfigParsed(Ok(Config::default())));
        s
    };
    let mut s = prepare();
    assert_eq!(
        next(&mut s, Event::Granted(false)),
        Action::Finish(Err("Accessibility permission is required. Enable ScrollSplit in System Settings > Privacy & Security > Accessibility, then run it again.".to_string()))
    );
    let mut s = prepare();
    next(&mut s, Event::Granted(true));
    assert_eq!(
        next(&mut s, Event::Created(false)),
        Action::Finish(Err("cannot create CGEventTap; verify Accessibility permission".to_string()))
    );
    let mut s = prepare();
    next(&mut s, Event::Granted(true));
    next(&mut s, Event::Created(true));
    assert_eq!(
        next(&mut s, Event::Created(false)),
        Action::Finish(Err("cannot create run loop source".to_string()))
    );
}

#[test]
fn save_errors_are_reported() {
    let mut s = update("enabled", "1");
    next(&mut s, Event::Begin);
    next(&mut s, Event::Home(Some(HOME.to_vec())));
    next(&mut s, Event::FileRead(FileRead::Missing));
    assert_eq!(
        next(&mut s, Event::Done(Err("read-only".to_string()))),
        Action::Finish(Err(format!("cannot create {CONFIG_DIR}: read-only")))
    );

    let mut s = update("enabled", "1");
    next(&mut s, Event::Begin);
    next(&mut s, Event::Home(Some(HOME.to_vec())));
    next(&mut s, Event::FileRead(FileRead::Missing));
    next(&mut s, Event::Done(Ok(())));
    assert_eq!(
        next(&mut s, Event::ConfigRendered(Err("oops".to_string()))),
        Action::Finish(Err("cannot serialize config: oops".to_string()))
    );
}

#[test]
fn restart_is_stop_then_start() {
    let replies = || {
        vec![
            Event::Home(Some(HOME.to_vec())),
            Event::Exists(true),
            failed_run("Bootstrap failed: 5"),
            ok_run(),
            Event::Acknowledged,
        ]
    };
    let mut r = restart();
    assert_eq!(next(&mut r, Event::Begin), Action::LookupUid);
    assert_eq!(next(&mut r, Event::Uid(501)), args(&["bootout", "gui/501/com.knothhe.scrollsplit"]));
    assert_eq!(next(&mut r, failed_run("whatever")), Action::LookupHome);
    let mut t = start();
    assert_eq!(next(&mut t, Event::Begin), Action::LookupUid);
    assert_eq!(next(&mut t, Event::Uid(501)), Action::LookupHome);
    for (a, b) in replies().into_iter().zip(replies()) {
        assert_eq!(next(&mut r, a), next(&mut t, b));
    }
    assert!(r.is_finished() && t.is_finished());
}

#[test]
fn config_commands_never_run_launchctl() {
    let mut s = update("enabled", "no");
    let replies = vec![
        Event::Begin,
        Event::Home(Some(HOME.to_vec())),
        Event::FileRead(FileRead::Missing),
        Event::Done(Ok(())),
        Event::ConfigRendered(Ok("t".to_string())),
        Event::Done(Ok(())),
        Event::Done(Ok(())),
        Event::ConfigRendered(Ok("t".to_string())),
        Event::Done(Ok(())),
        Event::Acknowledged,
    ];
    for e in replies {
        let a = next(&mut s, e);
        assert!(!matches!(a, Action::Launchctl(_)));
    }
    assert!(s.is_finished());
}
