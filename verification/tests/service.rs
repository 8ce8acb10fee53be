use std::path::PathBuf;
use scrollsplit::paths::{agent_dir, config_dir, config_path, path_string, plist_path};
use scrollsplit::service::{
    bootout_args, bootstrap_args, domain, kickstart_args, print_args, render_plist,
    run_launchctl, target, xml_escape, LaunchctlOutput,
};

#[test]
fn plist_contains_label_command_and_escaped_path() {
    let plist = render_plist(&b"/tmp/a&b/scrollsplit".to_vec());
    assert!(plist.contains("<string>com.knothhe.scrollsplit</string>"));
    assert!(plist.contains("<string>/tmp/a&amp;b/scrollsplit</string>"));
    assert!(plist.contains("<string>run</string>"));
    assert!(plist.contains("<key>RunAtLoad</key>"));
}

#[test]
fn plist_is_well_formed_text() {
    let plist = render_plist(&b"/Applications/x".to_vec());
    assert!(plist.starts_with("<?xml version=\"1.0\" encoding=\"UTF-8\"?>\n"));
    assert!(plist.ends_with("</dict>\n</plist>\n"));
    assert!(plist.contains("<key>KeepAlive</key>\n  <true/>"));
    assert!(plist.contains("<string>Interactive</string>"));
}

#[test]
fn xml_escape_replaces_each_special_character() {
    assert_eq!(xml_escape("&"), "&amp;");
    assert_eq!(xml_escape("<"), "&lt;");
    assert_eq!(xml_escape(">"), "&gt;");
    assert_eq!(xml_escape("\""), "&quot;");
    assert_eq!(xml_escape("'"), "&apos;");
    assert_eq!(xml_escape("a<b>&'c\""), "a&lt;b&gt;&amp;&apos;c&quot;");
    assert_eq!(xml_escape("plain/path é"), "plain/path é");
    assert_eq!(xml_escape("&amp;"), "&amp;amp;");
}

#[test]
fn xml_escape_round_trips() {
    let original = "x&y<'z'>\"&lt;\"";
    let escaped = xml_escape(original);
    let back = escaped
        .replace("&lt;", "<")
        .replace("&gt;", ">")
        .replace("&quot;", "\"")
        .replace("&apos;", "'")
        .replace("&amp;", "&");
    assert_eq!(back, original);
    assert!(!escaped.contains('<') && !escaped.contains('>'));
    assert!(!escaped.contains('"') && !escaped.contains('\''));
}

#[test]
fn domain_and_target_name_the_user() {
    assert_eq!(domain(501), "gui/501");
    assert_eq!(domain(0), "gui/0");
    assert_eq!(domain(u32::MAX), "gui/4294967295");
    assert_eq!(target(501), "gui/501/com.knothhe.scrollsplit");
}

#[test]
fn launchctl_arguments() {
    assert_eq!(bootout_args(501), vec!["bootout", "gui/501/com.knothhe.scrollsplit"]);
    assert_eq!(
        bootstrap_args(501, &"/p.plist".to_string()),
        vec!["bootstrap", "gui/501", "/p.plist"]
    );
    assert_eq!(
        kickstart_args(7),
        vec!["kickstart", "-k", "gui/7/com.knothhe.scrollsplit"]
    );
    assert_eq!(print_args(7), vec!["print", "gui/7/com.knothhe.scrollsplit"]);
}

fn output(success: bool, stderr: &[u8]) -> Result<LaunchctlOutput, String> {
    Ok(LaunchctlOutput { success, stdout: Vec::new(), stderr: stderr.to_vec() })
}

#[test]
fn launchctl_success_and_failures() {
    let args = bootout_args(501);
    assert_eq!(run_launchctl(&args, &output(true, b"ignored")), Ok(()));
    assert_eq!(
        run_launchctl(&args, &output(false, b"  Boot-out failed: 3: No such process\n")),
        Err("Boot-out failed: 3: No such process".to_string())
    );
    assert_eq!(
        run_launchctl(&args, &output(false, b" \n\t")),
        Err("launchctl bootout gui/501/com.knothhe.scrollsplit failed".to_string())
    );
    assert_eq!(
        run_launchctl(&args, &Err("No such file or directory (os error 2)".to_string())),
        Err("cannot run launchctl: No such file or directory (os error 2)".to_string())
    );
    assert_eq!(
        run_launchctl(&args, &output(false, b"bad \xff byte")),
        Err("bad \u{fffd} byte".to_string())
    );
}

#[test]
fn paths_below_home() {
    let home = b"/Users/ann".to_vec();
    assert_eq!(
        plist_path(&home),
        b"/Users/ann/Library/LaunchAgents/com.knothhe.scrollsplit.plist".to_vec()
    );
    assert_eq!(agent_dir(&home), b"/Users/ann/Library/LaunchAgents".to_vec());
    assert_eq!(
        config_path(&home),
        b"/Users/ann/Library/Application Support/ScrollSplit/config.toml".to_vec()
    );
    assert_eq!(
        config_dir(&b"/Users/ann/".to_vec()),
        b"/Users/ann/Library/Application Support/ScrollSplit".to_vec()
    );
    assert_eq!(
        plist_path(&Vec::new()),
        b"Library/LaunchAgents/com.knothhe.scrollsplit.plist".to_vec()
    );
}

#[test]
fn path_joining_matches_pathbuf() {
    for home in ["/Users/ann", "/Users/ann/", "", "rel", "/"] {
        let expected = PathBuf::from(home)
            .join("Library")
            .join("LaunchAgents")
            .join("com.knothhe.scrollsplit.plist");
        assert_eq!(
            plist_path(&home.as_bytes().to_vec()),
            expected.to_str().unwrap().as_bytes().to_vec()
        );
    }
}

#[test]
fn path_string_refuses_invalid_utf8() {
    assert_eq!(path_string(&b"/tmp/x".to_vec()), Ok("/tmp/x".to_string()));
    assert_eq!(
        path_string(&b"/tmp/\xff".to_vec()),
        Err("path is not valid UTF-8: /tmp/\u{fffd}".to_string())
    );
}
