//! The command line: the commands the tool offers and how a boolean setting
//! value is read from the user.
use vstd::prelude::*;
use crate::text::{
    ascii_lowercase, bool_text, debug_quote, debug_quoted, owned, same_text,
    to_ascii_lowercase,
};

verus! {

/// What to do with the configuration.
pub enum ConfigCommand {
    /// Print the current configuration.
    Show,
    /// Set a boolean configuration value.
    Update { key: String, value: String },
}

/// The commands of the tool.
pub enum Command {
    /// Run the scroll reverser in the foreground.
    Run,
    /// Start the installed login agent.
    Start,
    /// Stop the installed login agent.
    Stop,
    /// Restart the installed login agent.
    Restart,
    /// Show the login agent's status.
    Status,
    /// Read or update the configuration.
    Config(ConfigCommand),
    /// Install and start the login agent.
    InstallService,
    /// Stop and remove the login agent.
    UninstallService,
}

/// The boolean that a lower-case word names, if any.
pub open spec fn bool_word(w: Seq<char>) -> Option<bool> {
    if w == "true"@ || w == "1"@ || w == "yes"@ || w == "on"@ {
        Some(true)
    } else if w == "false"@ || w == "0"@ || w == "no"@ || w == "off"@ {
        Some(false)
    } else {
        None
    }
}

/// How a setting value typed by the user is read: the words `true 1 yes on`
/// and `false 0 no off`, in any mix of ASCII case; anything else is refused.
pub open spec fn parsed_bool(value: Seq<char>) -> Result<bool, Seq<char>> {
    match bool_word(ascii_lowercase(value)) {
        Some(b) => Ok(b),
        None => Err("expected a boolean, got "@ + debug_quoted(value)),
    }
}

/// Reads a boolean setting value (see `parsed_bool`).
pub fn parse_bool(value: &str) -> (r: Result<bool, String>)
    ensures
        match parsed_bool(value@) {
            Ok(b) => r == Ok::<bool, String>(b),
            Err(m) => r matches Err(e) && e@ == m,
        },
{
    let lower = to_ascii_lowercase(value);
    let w = lower.as_str();
    if same_text(w, "true") || same_text(w, "1") || same_text(w, "yes") || same_text(w, "on") {
        Ok(true)
    } else if same_text(w, "false") || same_text(w, "0") || same_text(w, "no") || same_text(
        w,
        "off",
    ) {
        Ok(false)
    } else {
        let mut m = owned("expected a boolean, got ");
        let quoted = debug_quote(value);
        m.append(quoted.as_str());
        Err(m)
    }
}

/// The line that confirms a changed setting: `<key> = <value>`.
pub open spec fn confirmation_text(key: Seq<char>, value: bool) -> Seq<char> {
    key + " = "@ + bool_text(value)
}

/// The line that confirms a changed setting.
pub fn set_confirmation(key: &str, value: bool) -> (r: String)
    ensures
        r@ == confirmation_text(key@, value),
{
    let mut s = owned(key);
    s.append(" = ");
    if value {
        s.append("true");
    } else {
        s.append("false");
    }
    proof {
        reveal_strlit("true");
        reveal_strlit("false");
    }
    s
}

/// Lower-casing twice is the same as lower-casing once.
pub proof fn lemma_ascii_lowercase_idempotent(s: Seq<char>)
    ensures
        ascii_lowercase(ascii_lowercase(s)) == ascii_lowercase(s),
{
    assert(ascii_lowercase(ascii_lowercase(s)) =~= ascii_lowercase(s));
}

/// Reading a value does not depend on its ASCII case: a value and its
/// lower-case form name the same boolean, or neither names one.
pub proof fn lemma_parse_ignores_case(value: Seq<char>)
    ensures
        parsed_bool(ascii_lowercase(value)) is Ok <==> parsed_bool(value) is Ok,
        parsed_bool(value) is Ok ==> parsed_bool(ascii_lowercase(value)) == parsed_bool(value),
{
    lemma_ascii_lowercase_idempotent(value);
}

/// The way a boolean is written back to the user (`true`, `false`) is read
/// as that boolean.
pub proof fn lemma_parse_reads_back_written_value(b: bool)
    ensures
        parsed_bool(bool_text(b)) == Ok::<bool, Seq<char>>(b),
{
    reveal_strlit("true");
    reveal_strlit("false");
    reveal_strlit("1");
    reveal_strlit("yes");
    reveal_strlit("on");
    reveal_strlit("0");
    reveal_strlit("no");
    reveal_strlit("off");
    let t = bool_text(b);
    assert(ascii_lowercase(t) =~= t);
    if b {
        assert(t =~= "true"@);
    } else {
        assert(t =~= "false"@);
        assert(t.len() != "true"@.len() && t.len() != "1"@.len() && t.len() != "yes"@.len()
            && t.len() != "on"@.len());
    }
}

/// Exactly the words `true 1 yes on` are read as `true` and `false 0 no off`
/// as `false`, whatever their ASCII case; every other value is refused with
/// a message that quotes it.
pub proof fn lemma_listed_words(value: Seq<char>)
    ensures
        ({
            let w = ascii_lowercase(value);
            &&& (w == "true"@ || w == "1"@ || w == "yes"@ || w == "on"@) ==> parsed_bool(value)
                == Ok::<bool, Seq<char>>(true)
            &&& (w == "false"@ || w == "0"@ || w == "no"@ || w == "off"@) ==> parsed_bool(value)
                == Ok::<bool, Seq<char>>(false)
            &&& !(w == "true"@ || w == "1"@ || w == "yes"@ || w == "on"@ || w == "false"@ || w
                == "0"@ || w == "no"@ || w == "off"@) ==> parsed_bool(value)
                == Err::<bool, Seq<char>>("expected a boolean, got "@ + debug_quoted(value))
        }),
{
    reveal_strlit("true");
    reveal_strlit("false");
    reveal_strlit("1");
    reveal_strlit("yes");
    reveal_strlit("on");
    reveal_strlit("0");
    reveal_strlit("no");
    reveal_strlit("off");
    assert("true"@.len() != "false"@.len() && "true"@.len() != "0"@.len() && "true"@.len()
        != "no"@.len() && "true"@.len() != "off"@.len());
    assert("1"@.len() != "false"@.len() && "1"@[0] != "0"@[0] && "1"@.len() != "no"@.len()
        && "1"@.len() != "off"@.len());
    assert("yes"@.len() != "false"@.len() && "yes"@.len() != "0"@.len() && "yes"@.len()
        != "no"@.len() && "yes"@[0] != "off"@[0]);
    assert("on"@.len() != "false"@.len() && "on"@.len() != "0"@.len() && "on"@[0] != "no"@[0]
        && "on"@.len() != "off"@.len());
}

} // verus!
