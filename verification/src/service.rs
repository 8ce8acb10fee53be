//! The login agent that keeps the tool running: its name in launchd, the
//! property list that describes it, and how a `launchctl` run is judged.
use vstd::prelude::*;
use crate::cli::Command;
use crate::paths::shown;
use crate::session::{initial, CommandView, Session};
use crate::text::{
    decimal, decimal_value, lemma_decimal_digits, lemma_decimal_round_trip, join, join_strings, lossy_text, owned, push_char, push_decimal, trim, trimmed,
    utf8_lossy,
};

verus! {

/// The launchd label of the login agent.
pub const LABEL: &'static str = "com.knothhe.scrollsplit";

/// The launchd domain of the user with effective id `uid`: `gui/<uid>`.
pub open spec fn domain_text(uid: u32) -> Seq<char> {
    "gui/"@ + decimal(uid as nat)
}

/// The launchd service target of the agent for user `uid`: `<domain>/<label>`.
pub open spec fn target_text(uid: u32) -> Seq<char> {
    domain_text(uid) + "/"@ + LABEL@
}

/// The launchd domain of the user with effective id `uid`.
pub fn domain(uid: u32) -> (r: String)
    ensures
        r@ == domain_text(uid),
{
    let mut s = owned("gui/");
    push_decimal(&mut s, uid);
    s
}

/// The launchd service target of the agent for user `uid`.
pub fn target(uid: u32) -> (r: String)
    ensures
        r@ == target_text(uid),
{
    let mut s = domain(uid);
    s.append("/");
    s.append(LABEL);
    s
}


/// Different users have different launchd domains and service targets.
pub proof fn lemma_targets_identify_users(a: u32, b: u32)
    ensures
        domain_text(a) == domain_text(b) ==> a == b,
        target_text(a) == target_text(b) ==> a == b,
{
    reveal_strlit("gui/");
    lemma_decimal_round_trip(a as nat);
    lemma_decimal_round_trip(b as nat);
    let da = decimal(a as nat);
    let db = decimal(b as nat);
    if domain_text(a) == domain_text(b) {
        assert(domain_text(a).skip(4) =~= da);
        assert(domain_text(b).skip(4) =~= db);
    }
    if target_text(a) == target_text(b) {
        let tail = "/"@ + LABEL@;
        assert(target_text(a) =~= "gui/"@ + da + tail);
        assert(target_text(b) =~= "gui/"@ + db + tail);
        assert(da.len() == db.len());
        assert(target_text(a).subrange(4, 4 + da.len() as int) =~= da);
        assert(target_text(b).subrange(4, 4 + db.len() as int) =~= db);
    }
}


/// The domain of user `uid` is `gui/` followed by the decimal digits that
/// spell `uid`, and the target is that domain followed by
/// `/com.knothhe.scrollsplit`.
pub proof fn lemma_domain_spells_user(uid: u32)
    ensures
        domain_text(uid).len() > 4,
        domain_text(uid).subrange(0, 4) == "gui/"@,
        decimal_value(domain_text(uid).skip(4)) == uid,
        forall|k: int|
            4 <= k < domain_text(uid).len() ==> '0' <= #[trigger] domain_text(uid)[k]
                && domain_text(uid)[k] <= '9',
        target_text(uid) == domain_text(uid) + "/com.knothhe.scrollsplit"@,
{
    reveal_strlit("gui/");
    reveal_strlit("/");
    reveal_strlit("com.knothhe.scrollsplit");
    reveal_strlit("/com.knothhe.scrollsplit");
    lemma_decimal_digits(uid as nat);
    lemma_decimal_round_trip(uid as nat);
    let d = decimal(uid as nat);
    assert(domain_text(uid).subrange(0, 4) =~= "gui/"@);
    assert(domain_text(uid).skip(4) =~= d);
    assert forall|k: int| 4 <= k < domain_text(uid).len() implies '0' <= #[trigger] domain_text(uid)[k]
        && domain_text(uid)[k] <= '9' by {
        assert(domain_text(uid)[k] == d[k - 4]);
    }
    assert(LABEL@ =~= "com.knothhe.scrollsplit"@);
    assert("/"@ + LABEL@ =~= "/com.knothhe.scrollsplit"@);
    assert(target_text(uid) =~= domain_text(uid) + "/com.knothhe.scrollsplit"@);
}

/// How a `launchctl` run is judged: a process that could not be started is
/// reported with the reason; a successful exit is success; a failed exit is
/// reported with its error output, trimmed, or, when that is blank, with a
/// line naming the arguments separated by spaces.
pub proof fn lemma_launchctl_judgement(args: Seq<Seq<char>>, output: Result<OutputView, Seq<char>>)
    ensures
        match output {
            Err(e) => launchctl_outcome(args, output) == Err::<(), Seq<char>>(
                "cannot run launchctl: "@ + e,
            ),
            Ok(o) => if o.success {
                launchctl_outcome(args, output) == Ok::<(), Seq<char>>(())
            } else if trim(utf8_lossy(o.stderr)).len() > 0 {
                launchctl_outcome(args, output) == Err::<(), Seq<char>>(trim(utf8_lossy(o.stderr)))
            } else {
                launchctl_outcome(args, output) == Err::<(), Seq<char>>(
                    "launchctl "@ + join(args, " "@) + " failed"@,
                )
            },
        },
{
}

// ---------------------------------------------------------------------------
// XML escaping
// ---------------------------------------------------------------------------

/// The characters that stand for `c` in XML text.
pub open spec fn escape_char(c: char) -> Seq<char> {
    if c == '&' {
        "&amp;"@
    } else if c == '<' {
        "&lt;"@
    } else if c == '>' {
        "&gt;"@
    } else if c == '"' {
        "&quot;"@
    } else if c == '\'' {
        "&apos;"@
    } else {
        seq![c]
    }
}

/// `s` with each of `& < > " '` replaced by its XML entity.
pub open spec fn xml_escaped(s: Seq<char>) -> Seq<char>
    decreases s.len(),
{
    if s.len() == 0 {
        Seq::empty()
    } else {
        escape_char(s[0]) + xml_escaped(s.drop_first())
    }
}

/// `t` with the five XML entities `&amp; &lt; &gt; &quot; &apos;` read back
/// as the characters they stand for.
pub open spec fn xml_unescaped(t: Seq<char>) -> Seq<char>
    decreases t.len(),
{
    if t.len() == 0 {
        Seq::empty()
    } else if t.len() >= 5 && t.subrange(0, 5) == "&amp;"@ {
        seq!['&'] + xml_unescaped(t.skip(5))
    } else if t.len() >= 4 && t.subrange(0, 4) == "&lt;"@ {
        seq!['<'] + xml_unescaped(t.skip(4))
    } else if t.len() >= 4 && t.subrange(0, 4) == "&gt;"@ {
        seq!['>'] + xml_unescaped(t.skip(4))
    } else if t.len() >= 6 && t.subrange(0, 6) == "&quot;"@ {
        seq!['"'] + xml_unescaped(t.skip(6))
    } else if t.len() >= 6 && t.subrange(0, 6) == "&apos;"@ {
        seq!['\''] + xml_unescaped(t.skip(6))
    } else {
        seq![t[0]] + xml_unescaped(t.drop_first())
    }
}

/// `c` must be written as an entity in XML text.
pub open spec fn is_xml_special(c: char) -> bool {
    c == '&' || c == '<' || c == '>' || c == '"' || c == '\''
}

/// Escaping distributes over appending one character.
pub proof fn lemma_xml_escaped_push(s: Seq<char>, c: char)
    ensures
        xml_escaped(s.push(c)) == xml_escaped(s) + escape_char(c),
    decreases s.len(),
{
    let t = s.push(c);
    if s.len() == 0 {
        assert(t.drop_first() =~= Seq::<char>::empty());
        assert(xml_escaped(t.drop_first()) == Seq::<char>::empty());
        assert(xml_escaped(s) == Seq::<char>::empty());
        assert(xml_escaped(t) =~= escape_char(c));
    } else {
        assert(t.drop_first() =~= s.drop_first().push(c));
        lemma_xml_escaped_push(s.drop_first(), c);
        assert(xml_escaped(t) =~= escape_char(s[0]) + (xml_escaped(s.drop_first())
            + escape_char(c)));
    }
}

/// Escaping works character by character: each of `& < > " '` becomes
/// `&amp; &lt; &gt; &quot; &apos;` and every other character stays.
pub proof fn lemma_xml_escape_entities(s: Seq<char>, c: char)
    ensures
        xml_escaped(s.push(c)) == xml_escaped(s) + (if c == '&' {
            "&amp;"@
        } else if c == '<' {
            "&lt;"@
        } else if c == '>' {
            "&gt;"@
        } else if c == '"' {
            "&quot;"@
        } else if c == '\'' {
            "&apos;"@
        } else {
            seq![c]
        }),
        xml_escaped(Seq::empty()) == Seq::<char>::empty(),
{
    lemma_xml_escaped_push(s, c);
}

/// Reading back the escape of one character in front of any text gives the
/// character in front of the reading of that text.
pub proof fn lemma_unescape_escape_char(c: char, rest: Seq<char>)
    ensures
        xml_unescaped(escape_char(c) + rest) == seq![c] + xml_unescaped(rest),
{
    reveal_strlit("&amp;");
    reveal_strlit("&lt;");
    reveal_strlit("&gt;");
    reveal_strlit("&quot;");
    reveal_strlit("&apos;");
    let t = escape_char(c) + rest;
    if c == '&' {
        assert(t.subrange(0, 5) =~= "&amp;"@);
        assert(t.skip(5) =~= rest);
    } else if c == '<' {
        assert(t.subrange(0, 4) =~= "&lt;"@);
        assert(t.skip(4) =~= rest);
        assert(t.len() >= 5 ==> t.subrange(0, 5)[1] != "&amp;"@[1]);
    } else if c == '>' {
        assert(t.subrange(0, 4) =~= "&gt;"@);
        assert(t.skip(4) =~= rest);
        assert(t.len() >= 5 ==> t.subrange(0, 5)[1] != "&amp;"@[1]);
        assert(t.subrange(0, 4)[1] != "&lt;"@[1]);
    } else if c == '"' {
        assert(t.subrange(0, 6) =~= "&quot;"@);
        assert(t.skip(6) =~= rest);
        assert(t.subrange(0, 5)[1] != "&amp;"@[1]);
        assert(t.subrange(0, 4)[1] != "&lt;"@[1]);
        assert(t.subrange(0, 4)[1] != "&gt;"@[1]);
    } else if c == '\'' {
        assert(t.subrange(0, 6) =~= "&apos;"@);
        assert(t.skip(6) =~= rest);
        assert(t.subrange(0, 5)[2] != "&amp;"@[2]);
        assert(t.subrange(0, 4)[1] != "&lt;"@[1]);
        assert(t.subrange(0, 4)[1] != "&gt;"@[1]);
        assert(t.subrange(0, 6)[1] != "&quot;"@[1]);
    } else {
        assert(t[0] == c);
        assert(t.len() >= 5 ==> t.subrange(0, 5)[0] != "&amp;"@[0]);
        assert(t.len() >= 4 ==> t.subrange(0, 4)[0] != "&lt;"@[0]);
        assert(t.len() >= 4 ==> t.subrange(0, 4)[0] != "&gt;"@[0]);
        assert(t.len() >= 6 ==> t.subrange(0, 6)[0] != "&quot;"@[0]);
        assert(t.len() >= 6 ==> t.subrange(0, 6)[0] != "&apos;"@[0]);
        assert(t.drop_first() =~= rest);
    }
}

/// Escaping loses nothing: reading the entities back gives the original text.
pub proof fn lemma_xml_escape_round_trip(s: Seq<char>)
    ensures
        xml_unescaped(xml_escaped(s)) == s,
    decreases s.len(),
{
    if s.len() == 0 {
    } else {
        lemma_xml_escape_round_trip(s.drop_first());
        lemma_unescape_escape_char(s[0], xml_escaped(s.drop_first()));
        assert(seq![s[0]] + s.drop_first() =~= s);
    }
}

/// Escaped text holds none of `< > " '`, so it cannot end an element or an
/// attribute value.
pub proof fn lemma_xml_escaped_has_no_markup(s: Seq<char>)
    ensures
        forall|i: int|
            0 <= i < xml_escaped(s).len() ==> {
                let c = #[trigger] xml_escaped(s)[i];
                c != '<' && c != '>' && c != '"' && c != '\''
            },
    decreases s.len(),
{
    reveal_strlit("&amp;");
    reveal_strlit("&lt;");
    reveal_strlit("&gt;");
    reveal_strlit("&quot;");
    reveal_strlit("&apos;");
    if s.len() > 0 {
        lemma_xml_escaped_has_no_markup(s.drop_first());
        let head = escape_char(s[0]);
        let tail = xml_escaped(s.drop_first());
        assert forall|i: int| 0 <= i < xml_escaped(s).len() implies {
            let c = #[trigger] xml_escaped(s)[i];
            c != '<' && c != '>' && c != '"' && c != '\''
        } by {
            if i >= head.len() {
                assert(xml_escaped(s)[i] == tail[i - head.len()]);
            } else {
                assert(xml_escaped(s)[i] == head[i]);
            }
        }
    }
}

/// Text without any of `& < > " '` is left as it is.
pub proof fn lemma_xml_escape_plain_text(s: Seq<char>)
    requires
        forall|i: int| 0 <= i < s.len() ==> !is_xml_special(#[trigger] s[i]),
    ensures
        xml_escaped(s) == s,
    decreases s.len(),
{
    if s.len() > 0 {
        assert(!is_xml_special(s[0]));
        assert forall|i: int| 0 <= i < s.drop_first().len() implies !is_xml_special(
            #[trigger] s.drop_first()[i],
        ) by {
            assert(s.drop_first()[i] == s[i + 1]);
        }
        lemma_xml_escape_plain_text(s.drop_first());
        assert(seq![s[0]] + s.drop_first() =~= s);
    }
}

/// `value` with each of `& < > " '` replaced by its XML entity.
pub fn xml_escape(value: &str) -> (r: String)
    ensures
        r@ == xml_escaped(value@),
{
    let n = value.unicode_len();
    let mut out = String::new();
    let mut i: usize = 0;
    while i < n
        invariant
            n == value@.len(),
            i <= n,
            out@ == xml_escaped(value@.subrange(0, i as int)),
        decreases n - i,
    {
        let c = value.get_char(i);
        if c == '&' {
            out.append("&amp;");
        } else if c == '<' {
            out.append("&lt;");
        } else if c == '>' {
            out.append("&gt;");
        } else if c == '"' {
            out.append("&quot;");
        } else if c == '\'' {
            out.append("&apos;");
        } else {
            push_char(&mut out, c);
        }
        proof {
            assert(value@.subrange(0, i + 1) =~= value@.subrange(0, i as int).push(c));
            lemma_xml_escaped_push(value@.subrange(0, i as int), c);
        }
        i += 1;
    }
    assert(value@.subrange(0, n as int) =~= value@);
    out
}

// ---------------------------------------------------------------------------
// The property list
// ---------------------------------------------------------------------------

/// The property list text before the label.
pub open spec fn plist_head() -> Seq<char> {
    "<?xml version=\"1.0\" encoding=\"UTF-8\"?>\n<!DOCTYPE plist PUBLIC \"-//Apple//DTD PLIST 1.0//EN\" \"http://www.apple.com/DTDs/PropertyList-1.0.dtd\">\n<plist version=\"1.0\">\n<dict>\n  <key>Label</key>\n  <string>"@
}

/// The property list text between the label and the program path.
pub open spec fn plist_middle() -> Seq<char> {
    "</string>\n  <key>ProgramArguments</key>\n  <array>\n    <string>"@
}

/// The property list text after the program path.
pub open spec fn plist_tail() -> Seq<char> {
    "</string>\n    <string>run</string>\n  </array>\n  <key>RunAtLoad</key>\n  <true/>\n  <key>KeepAlive</key>\n  <true/>\n  <key>ProcessType</key>\n  <string>Interactive</string>\n</dict>\n</plist>\n"@
}

/// The login agent's property list for the program at `executable`: it
/// runs `<executable> run` at login and keeps it alive.
pub open spec fn plist_text(executable: Seq<u8>) -> Seq<char> {
    plist_head() + LABEL@ + plist_middle() + xml_escaped(shown(executable)) + plist_tail()
}

/// The login agent's property list for the program at `executable`.
pub fn render_plist(executable: &Vec<u8>) -> (r: String)
    ensures
        r@ == plist_text(executable@),
        contains_text(
            r@,
            "<key>ProgramArguments</key>\n  <array>\n    <string>"@ + xml_escaped(shown(executable@))
                + "</string>\n    <string>run</string>\n  </array>"@,
        ),
{
    proof {
        lemma_plist_runs_executable(executable@);
    }
    let path = lossy_text(executable.as_slice());
    let escaped = xml_escape(path.as_str());
    let mut s = owned(
        "<?xml version=\"1.0\" encoding=\"UTF-8\"?>\n<!DOCTYPE plist PUBLIC \"-//Apple//DTD PLIST 1.0//EN\" \"http://www.apple.com/DTDs/PropertyList-1.0.dtd\">\n<plist version=\"1.0\">\n<dict>\n  <key>Label</key>\n  <string>",
    );
    s.append(LABEL);
    s.append("</string>\n  <key>ProgramArguments</key>\n  <array>\n    <string>");
    s.append(escaped.as_str());
    s.append(
        "</string>\n    <string>run</string>\n  </array>\n  <key>RunAtLoad</key>\n  <true/>\n  <key>KeepAlive</key>\n  <true/>\n  <key>ProcessType</key>\n  <string>Interactive</string>\n</dict>\n</plist>\n",
    );
    s
}


/// `needle` occurs in `text` as a contiguous run of characters.
pub open spec fn contains_text(text: Seq<char>, needle: Seq<char>) -> bool {
    exists|i: int| 0 <= i && i + needle.len() <= text.len() && #[trigger] text.subrange(i, i + needle.len()) == needle
}

/// The property list names the agent by its label, and its program
/// arguments are exactly the escaped program path followed by `run`, in that
/// order, so launchd runs `<executable> run`; reading the escaped path back
/// gives the path as shown.
pub proof fn lemma_plist_runs_executable(executable: Seq<u8>)
    ensures
        contains_text(
            plist_text(executable),
            "<key>ProgramArguments</key>\n  <array>\n    <string>"@ + xml_escaped(shown(executable))
                + "</string>\n    <string>run</string>\n  </array>"@,
        ),
        contains_text(
            plist_text(executable),
            "<key>Label</key>\n  <string>"@ + "com.knothhe.scrollsplit"@ + "</string>"@,
        ),
        xml_unescaped(xml_escaped(shown(executable))) == shown(executable),
{
    let head = "<?xml version=\"1.0\" encoding=\"UTF-8\"?>\n<!DOCTYPE plist PUBLIC \"-//Apple//DTD PLIST 1.0//EN\" \"http://www.apple.com/DTDs/PropertyList-1.0.dtd\">\n<plist version=\"1.0\">\n<dict>\n  "@;
    let label_open = "<key>Label</key>\n  <string>"@;
    let gap = "\n  "@;
    let args_open = "<key>ProgramArguments</key>\n  <array>\n    <string>"@;
    let args_close = "</string>\n    <string>run</string>\n  </array>"@;
    let rest = "\n  <key>RunAtLoad</key>\n  <true/>\n  <key>KeepAlive</key>\n  <true/>\n  <key>ProcessType</key>\n  <string>Interactive</string>\n</dict>\n</plist>\n"@;
    let close = "</string>"@;
    reveal_strlit("<?xml version=\"1.0\" encoding=\"UTF-8\"?>\n<!DOCTYPE plist PUBLIC \"-//Apple//DTD PLIST 1.0//EN\" \"http://www.apple.com/DTDs/PropertyList-1.0.dtd\">\n<plist version=\"1.0\">\n<dict>\n  <key>Label</key>\n  <string>");
    reveal_strlit("<?xml version=\"1.0\" encoding=\"UTF-8\"?>\n<!DOCTYPE plist PUBLIC \"-//Apple//DTD PLIST 1.0//EN\" \"http://www.apple.com/DTDs/PropertyList-1.0.dtd\">\n<plist version=\"1.0\">\n<dict>\n  ");
    reveal_strlit("<key>Label</key>\n  <string>");
    reveal_strlit("</string>\n  <key>ProgramArguments</key>\n  <array>\n    <string>");
    reveal_strlit("\n  ");
    reveal_strlit("<key>ProgramArguments</key>\n  <array>\n    <string>");
    reveal_strlit("</string>\n    <string>run</string>\n  </array>\n  <key>RunAtLoad</key>\n  <true/>\n  <key>KeepAlive</key>\n  <true/>\n  <key>ProcessType</key>\n  <string>Interactive</string>\n</dict>\n</plist>\n");
    reveal_strlit("</string>\n    <string>run</string>\n  </array>");
    reveal_strlit("\n  <key>RunAtLoad</key>\n  <true/>\n  <key>KeepAlive</key>\n  <true/>\n  <key>ProcessType</key>\n  <string>Interactive</string>\n</dict>\n</plist>\n");
    reveal_strlit("</string>");
    assert(plist_head() =~= head + label_open);
    assert(plist_middle() =~= close + gap + args_open);
    assert(plist_tail() =~= args_close + rest);
    let e = xml_escaped(shown(executable));
    let label_part = label_open + LABEL@ + close;
    let args_part = args_open + e + args_close;
    let t = plist_text(executable);
    assert(t =~= head + label_part + gap + args_part + rest);
    let i = head.len() as int;
    assert(t.subrange(i, i + label_part.len()) =~= label_part);
    assert(label_part =~= "<key>Label</key>\n  <string>"@ + "com.knothhe.scrollsplit"@ + "</string>"@);
    let j = (head.len() + label_part.len() + gap.len()) as int;
    assert(t.subrange(j, j + args_part.len()) =~= args_part);
    lemma_xml_escape_round_trip(shown(executable));
}


/// The whole property list: a fixed text, with the escaped program path as
/// the only part that varies, so the agent is always labelled
/// `com.knothhe.scrollsplit`, run at load, kept alive and interactive.
pub proof fn lemma_plist_text_is_template(executable: Seq<u8>)
    ensures
        plist_text(executable) == "<?xml version=\"1.0\" encoding=\"UTF-8\"?>\n<!DOCTYPE plist PUBLIC \"-//Apple//DTD PLIST 1.0//EN\" \"http://www.apple.com/DTDs/PropertyList-1.0.dtd\">\n<plist version=\"1.0\">\n<dict>\n  <key>Label</key>\n  <string>com.knothhe.scrollsplit</string>\n  <key>ProgramArguments</key>\n  <array>\n    <string>"@ + xml_escaped(shown(executable))
            + "</string>\n    <string>run</string>\n  </array>\n  <key>RunAtLoad</key>\n  <true/>\n  <key>KeepAlive</key>\n  <true/>\n  <key>ProcessType</key>\n  <string>Interactive</string>\n</dict>\n</plist>\n"@,
{
    reveal_strlit("<?xml version=\"1.0\" encoding=\"UTF-8\"?>\n<!DOCTYPE plist PUBLIC \"-//Apple//DTD PLIST 1.0//EN\" \"http://www.apple.com/DTDs/PropertyList-1.0.dtd\">\n<plist version=\"1.0\">\n<dict>\n  <key>Label</key>\n  <string>com.knothhe.scrollsplit</string>\n  <key>ProgramArguments</key>\n  <array>\n    <string>");
    reveal_strlit("<?xml version=\"1.0\" encoding=\"UTF-8\"?>\n<!DOCTYPE plist PUBLIC \"-//Apple//DTD PLIST 1.0//EN\" \"http://www.apple.com/DTDs/PropertyList-1.0.dtd\">\n<plist version=\"1.0\">\n<dict>\n  <key>Label</key>\n  <string>");
    reveal_strlit("</string>\n  <key>ProgramArguments</key>\n  <array>\n    <string>");
    reveal_strlit("com.knothhe.scrollsplit");
    assert(plist_head() + LABEL@ + plist_middle() =~= "<?xml version=\"1.0\" encoding=\"UTF-8\"?>\n<!DOCTYPE plist PUBLIC \"-//Apple//DTD PLIST 1.0//EN\" \"http://www.apple.com/DTDs/PropertyList-1.0.dtd\">\n<plist version=\"1.0\">\n<dict>\n  <key>Label</key>\n  <string>com.knothhe.scrollsplit</string>\n  <key>ProgramArguments</key>\n  <array>\n    <string>"@);
    assert(plist_text(executable) =~= "<?xml version=\"1.0\" encoding=\"UTF-8\"?>\n<!DOCTYPE plist PUBLIC \"-//Apple//DTD PLIST 1.0//EN\" \"http://www.apple.com/DTDs/PropertyList-1.0.dtd\">\n<plist version=\"1.0\">\n<dict>\n  <key>Label</key>\n  <string>com.knothhe.scrollsplit</string>\n  <key>ProgramArguments</key>\n  <array>\n    <string>"@ + xml_escaped(shown(executable))
        + "</string>\n    <string>run</string>\n  </array>\n  <key>RunAtLoad</key>\n  <true/>\n  <key>KeepAlive</key>\n  <true/>\n  <key>ProcessType</key>\n  <string>Interactive</string>\n</dict>\n</plist>\n"@);
}

// ---------------------------------------------------------------------------
// launchctl
// ---------------------------------------------------------------------------

/// What a finished `launchctl` process reported.
#[derive(Debug, PartialEq, Eq)]
pub struct LaunchctlOutput {
    /// The process exited successfully.
    pub success: bool,
    /// Everything it wrote to standard output.
    pub stdout: Vec<u8>,
    /// Everything it wrote to standard error.
    pub stderr: Vec<u8>,
}

/// The message for a `launchctl` run with arguments `args` that failed and
/// wrote `stderr`: the trimmed error output, or, when that is empty, a line
/// naming the command.
pub open spec fn launchctl_failure(args: Seq<Seq<char>>, stderr: Seq<u8>) -> Seq<char> {
    let message = trim(utf8_lossy(stderr));
    if message.len() == 0 {
        "launchctl "@ + join(args, " "@) + " failed"@
    } else {
        message
    }
}

/// The message for a `launchctl` process that could not be started.
pub open spec fn launch_failure(error: Seq<char>) -> Seq<char> {
    "cannot run launchctl: "@ + error
}

/// The arguments as character sequences.
pub open spec fn arg_views(args: Seq<String>) -> Seq<Seq<char>> {
    args.map_values(|a: String| a@)
}

/// What a finished `launchctl` process reported, as mathematical values.
pub struct OutputView {
    pub success: bool,
    pub stdout: Seq<u8>,
    pub stderr: Seq<u8>,
}

impl View for LaunchctlOutput {
    type V = OutputView;

    open spec fn view(&self) -> OutputView {
        OutputView { success: self.success, stdout: self.stdout@, stderr: self.stderr@ }
    }
}

/// The outcome of a `launchctl` run with arguments `args`: success when the
/// process started and exited successfully, otherwise the message that
/// explains why not.
pub open spec fn launchctl_outcome(
    args: Seq<Seq<char>>,
    output: Result<OutputView, Seq<char>>,
) -> Result<(), Seq<char>> {
    match output {
        Err(error) => Err(launch_failure(error)),
        Ok(out) => if out.success {
            Ok(())
        } else {
            Err(launchctl_failure(args, out.stderr))
        },
    }
}

/// A launch attempt with its texts taken as character sequences.
pub open spec fn output_view(output: Result<LaunchctlOutput, String>) -> Result<OutputView, Seq<char>> {
    match output {
        Ok(out) => Ok(out@),
        Err(e) => Err(e@),
    }
}

/// A result with its message taken as a character sequence.
pub open spec fn result_text(r: Result<(), String>) -> Result<(), Seq<char>> {
    match r {
        Ok(()) => Ok(()),
        Err(m) => Err(m@),
    }
}

/// The outcome of running `launchctl` with `args`, given what the attempt
/// produced: the process, or the error that kept it from starting.
pub fn run_launchctl(args: &Vec<String>, output: &Result<LaunchctlOutput, String>) -> (r: Result<
    (),
    String,
>)
    ensures
        result_text(r) == launchctl_outcome(arg_views(args@), output_view(*output)),
{
    match output {
        Err(error) => {
            let mut m = owned("cannot run launchctl: ");
            m.append(error.as_str());
            Err(m)
        },
        Ok(out) => {
            if out.success {
                Ok(())
            } else {
                let text = lossy_text(out.stderr.as_slice());
                let message = trimmed(text.as_str());
                if message.unicode_len() == 0 {
                    let mut m = owned("launchctl ");
                    let listed = join_strings(args, " ");
                    m.append(listed.as_str());
                    m.append(" failed");
                    Err(m)
                } else {
                    Err(message)
                }
            }
        },
    }
}

/// The arguments that stop the agent of user `uid`.
pub fn bootout_args(uid: u32) -> (r: Vec<String>)
    ensures
        arg_views(r@) == seq!["bootout"@, target_text(uid)],
{
    let mut v: Vec<String> = Vec::new();
    v.push(owned("bootout"));
    v.push(target(uid));
    assert(arg_views(v@) =~= seq!["bootout"@, target_text(uid)]);
    v
}

/// The arguments that load the agent described at `plist` for user `uid`.
pub fn bootstrap_args(uid: u32, plist: &String) -> (r: Vec<String>)
    ensures
        arg_views(r@) == seq!["bootstrap"@, domain_text(uid), plist@],
{
    let mut v: Vec<String> = Vec::new();
    v.push(owned("bootstrap"));
    v.push(domain(uid));
    v.push(plist.clone());
    assert(arg_views(v@) =~= seq!["bootstrap"@, domain_text(uid), plist@]);
    v
}

/// The arguments that restart the running agent of user `uid`.
pub fn kickstart_args(uid: u32) -> (r: Vec<String>)
    ensures
        arg_views(r@) == seq!["kickstart"@, "-k"@, target_text(uid)],
{
    let mut v: Vec<String> = Vec::new();
    v.push(owned("kickstart"));
    v.push(owned("-k"));
    v.push(target(uid));
    assert(arg_views(v@) =~= seq!["kickstart"@, "-k"@, target_text(uid)]);
    v
}

/// The arguments that describe the agent of user `uid`.
pub fn print_args(uid: u32) -> (r: Vec<String>)
    ensures
        arg_views(r@) == seq!["print"@, target_text(uid)],
{
    let mut v: Vec<String> = Vec::new();
    v.push(owned("print"));
    v.push(target(uid));
    assert(arg_views(v@) =~= seq!["print"@, target_text(uid)]);
    v
}

// ---------------------------------------------------------------------------
// The service commands
// ---------------------------------------------------------------------------

/// The session that installs the login agent for the running program and
/// starts it.
pub fn install() -> (s: Session)
    ensures
        s@ == initial(CommandView::Install),
{
    Session::new(Command::InstallService)
}

/// The session that stops the login agent and removes its property list.
pub fn uninstall() -> (s: Session)
    ensures
        s@ == initial(CommandView::Uninstall),
{
    Session::new(Command::UninstallService)
}

/// The session that starts the installed login agent.
pub fn start() -> (s: Session)
    ensures
        s@ == initial(CommandView::Start),
{
    Session::new(Command::Start)
}

/// The session that stops the login agent.
pub fn stop() -> (s: Session)
    ensures
        s@ == initial(CommandView::Stop),
{
    Session::new(Command::Stop)
}

/// The session that stops the login agent, whatever that gives, and then
/// starts it.
pub fn restart() -> (s: Session)
    ensures
        s@ == initial(CommandView::Restart),
{
    Session::new(Command::Restart)
}

/// The session that shows what launchd knows of the login agent.
pub fn status() -> (s: Session)
    ensures
        s@ == initial(CommandView::Status),
{
    Session::new(Command::Status)
}

} // verus!
