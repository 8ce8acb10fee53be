//! The user's configuration: which scroll devices are reversed, and the
//! rules for changing one setting by name.
use vstd::prelude::*;
use crate::text::{debug_quote, debug_quoted, join, join_strings, owned, same_text};

verus! {

/// The names of the settings, in the order they are listed to the user.
pub const CONFIG_KEYS: [&'static str; 4] = [
    "enabled",
    "reverse_mouse",
    "reverse_trackpad",
    "reverse_horizontal",
];

/// Which scroll devices are reversed, and whether reversing is on at all.
#[derive(Clone, Copy, Debug, PartialEq, Eq, Structural)]
pub struct Config {
    /// Reversing is active at all.
    pub enabled: bool,
    /// Reverse vertical scrolling from discrete wheels (mice).
    pub reverse_mouse: bool,
    /// Reverse vertical scrolling from continuous devices (trackpads).
    pub reverse_trackpad: bool,
    /// Reverse horizontal scrolling from every device.
    pub reverse_horizontal: bool,
}

/// The values a configuration starts with: enabled, mouse reversed,
/// trackpad and horizontal scrolling left alone.
pub open spec fn default_config() -> Config {
    Config { enabled: true, reverse_mouse: true, reverse_trackpad: false, reverse_horizontal: false }
}

/// The setting names, as character sequences.
pub open spec fn config_keys() -> Seq<Seq<char>> {
    seq!["enabled"@, "reverse_mouse"@, "reverse_trackpad"@, "reverse_horizontal"@]
}

/// `key` names one of the settings.
pub open spec fn is_config_key(key: Seq<char>) -> bool {
    config_keys().contains(key)
}

/// The message that rejects an unknown setting name.
pub open spec fn unknown_key_message(key: Seq<char>) -> Seq<char> {
    "unknown key "@ + debug_quoted(key) + "; expected one of "@ + join(config_keys(), ", "@)
}

impl Config {
    /// The value of the setting named `key`.
    pub open spec fn field(self, key: Seq<char>) -> bool {
        if key == "enabled"@ {
            self.enabled
        } else if key == "reverse_mouse"@ {
            self.reverse_mouse
        } else if key == "reverse_trackpad"@ {
            self.reverse_trackpad
        } else {
            self.reverse_horizontal
        }
    }

    /// This configuration with the setting named `key` (one of the keys)
    /// replaced by `value`.
    pub open spec fn with_field(self, key: Seq<char>, value: bool) -> Config {
        if key == "enabled"@ {
            Config { enabled: value, ..self }
        } else if key == "reverse_mouse"@ {
            Config { reverse_mouse: value, ..self }
        } else if key == "reverse_trackpad"@ {
            Config { reverse_trackpad: value, ..self }
        } else {
            Config { reverse_horizontal: value, ..self }
        }
    }

    /// Changes the setting named `key` to `value`.  An unknown name leaves
    /// the configuration as it was and is refused with a message that lists
    /// the known names.
    pub fn set(&mut self, key: &str, value: bool) -> (r: Result<(), String>)
        ensures
            is_config_key(key@) ==> r is Ok && *final(self) == old(self).with_field(key@, value),
            !is_config_key(key@) ==> *final(self) == *old(self) && r is Err,
            r matches Err(message) ==> message@ == unknown_key_message(key@),
            key@ == "enabled"@ ==> *final(self) == (Config { enabled: value, ..*old(self) }),
            key@ == "reverse_mouse"@ ==> *final(self) == (Config { reverse_mouse: value, ..*old(self) }),
            key@ == "reverse_trackpad"@ ==> *final(self) == (Config { reverse_trackpad: value, ..*old(self) }),
            key@ == "reverse_horizontal"@ ==> *final(self) == (Config { reverse_horizontal: value, ..*old(self) }),
    {
        proof {
            lemma_config_keys_distinct();
        }
        if same_text(key, "enabled") {
            self.enabled = value;
        } else if same_text(key, "reverse_mouse") {
            self.reverse_mouse = value;
        } else if same_text(key, "reverse_trackpad") {
            self.reverse_trackpad = value;
        } else if same_text(key, "reverse_horizontal") {
            self.reverse_horizontal = value;
        } else {
            let mut message = owned("unknown key ");
            let quoted = debug_quote(key);
            message.append(quoted.as_str());
            message.append("; expected one of ");
            let listed = config_key_list();
            message.append(listed.as_str());
            return Err(message);
        }
        Ok(())
    }
}

/// The setting names separated by `", "`.
pub fn config_key_list() -> (r: String)
    ensures
        r@ == join(config_keys(), ", "@),
{
    let mut names: Vec<String> = Vec::new();
    let mut i: usize = 0;
    while i < 4
        invariant
            i <= 4,
            names@.len() == i,
            forall|k: int| 0 <= k < i ==> #[trigger] names@[k]@ == config_keys()[k],
        decreases 4 - i,
    {
        names.push(owned(CONFIG_KEYS[i]));
        i += 1;
    }
    assert(names@.map_values(|t: String| t@) =~= config_keys());
    join_strings(&names, ", ")
}


/// The setting names are pairwise different.
pub proof fn lemma_config_keys_distinct()
    ensures
        forall|i: int, j: int|
            0 <= i < 4 && 0 <= j < 4 && i != j ==> config_keys()[i] != config_keys()[j],
{
    reveal_strlit("enabled");
    reveal_strlit("reverse_mouse");
    reveal_strlit("reverse_trackpad");
    reveal_strlit("reverse_horizontal");
    assert("enabled"@.len() != "reverse_mouse"@.len());
    assert("enabled"@.len() != "reverse_trackpad"@.len());
    assert("enabled"@.len() != "reverse_horizontal"@.len());
    assert("reverse_mouse"@.len() != "reverse_trackpad"@.len());
    assert("reverse_mouse"@.len() != "reverse_horizontal"@.len());
    assert("reverse_trackpad"@[8] != "reverse_horizontal"@[8]);
}

/// Each setting name reads and writes the field of the same name, and
/// exactly the four names are known.
pub proof fn lemma_names_select_fields(c: Config, v: bool, key: Seq<char>)
    ensures
        c.field("enabled"@) == c.enabled,
        c.field("reverse_mouse"@) == c.reverse_mouse,
        c.field("reverse_trackpad"@) == c.reverse_trackpad,
        c.field("reverse_horizontal"@) == c.reverse_horizontal,
        c.with_field("enabled"@, v) == (Config { enabled: v, ..c }),
        c.with_field("reverse_mouse"@, v) == (Config { reverse_mouse: v, ..c }),
        c.with_field("reverse_trackpad"@, v) == (Config { reverse_trackpad: v, ..c }),
        c.with_field("reverse_horizontal"@, v) == (Config { reverse_horizontal: v, ..c }),
        is_config_key(key) <==> (key == "enabled"@ || key == "reverse_mouse"@ || key
            == "reverse_trackpad"@ || key == "reverse_horizontal"@),
{
    lemma_config_keys_distinct();
    assert(config_keys()[0] == "enabled"@);
    assert(config_keys()[1] == "reverse_mouse"@);
    assert(config_keys()[2] == "reverse_trackpad"@);
    assert(config_keys()[3] == "reverse_horizontal"@);
    assert("enabled"@ != "reverse_mouse"@);
    assert("enabled"@ != "reverse_trackpad"@);
    assert("enabled"@ != "reverse_horizontal"@);
    assert("reverse_mouse"@ != "reverse_trackpad"@);
    assert("reverse_mouse"@ != "reverse_horizontal"@);
    assert("reverse_trackpad"@ != "reverse_horizontal"@);
}

/// The message for an unknown name quotes the name and lists the four
/// known names in order.
pub proof fn lemma_unknown_key_message_lists_names(key: Seq<char>)
    ensures
        unknown_key_message(key) == "unknown key "@ + debug_quoted(key)
            + "; expected one of enabled, reverse_mouse, reverse_trackpad, reverse_horizontal"@,
        default_config() == (Config {
            enabled: true,
            reverse_mouse: true,
            reverse_trackpad: false,
            reverse_horizontal: false,
        }),
{
    reveal_strlit("enabled");
    reveal_strlit("reverse_mouse");
    reveal_strlit("reverse_trackpad");
    reveal_strlit("reverse_horizontal");
    reveal_strlit(", ");
    reveal_strlit("; expected one of ");
    reveal_strlit("; expected one of enabled, reverse_mouse, reverse_trackpad, reverse_horizontal");
    let k = config_keys();
    assert(k.drop_last().drop_last().drop_last() =~= seq!["enabled"@]);
    assert(k.drop_last().drop_last() =~= seq!["enabled"@, "reverse_mouse"@]);
    assert(k.drop_last() =~= seq!["enabled"@, "reverse_mouse"@, "reverse_trackpad"@]);
    reveal_strlit("enabled, reverse_mouse, reverse_trackpad, reverse_horizontal");
    let k1 = k.drop_last().drop_last().drop_last();
    let k2 = k.drop_last().drop_last();
    let k3 = k.drop_last();
    assert(join(k1, ", "@) == "enabled"@);
    assert(k2.drop_last() == k1 && k2.last() == "reverse_mouse"@);
    assert(join(k2, ", "@) == "enabled"@ + ", "@ + "reverse_mouse"@);
    assert(k3.drop_last() == k2 && k3.last() == "reverse_trackpad"@);
    assert(join(k3, ", "@) == join(k2, ", "@) + ", "@ + "reverse_trackpad"@);
    assert(k.last() == "reverse_horizontal"@);
    assert(join(k, ", "@) == join(k3, ", "@) + ", "@ + "reverse_horizontal"@);
    assert(join(k, ", "@) =~= "enabled, reverse_mouse, reverse_trackpad, reverse_horizontal"@);
    assert("; expected one of "@ + join(k, ", "@)
        =~= "; expected one of enabled, reverse_mouse, reverse_trackpad, reverse_horizontal"@);
    assert(unknown_key_message(key) =~= "unknown key "@ + debug_quoted(key)
        + "; expected one of enabled, reverse_mouse, reverse_trackpad, reverse_horizontal"@);
}

/// Reading a setting after writing it gives the written value, and every
/// other setting keeps the value it had.
pub proof fn lemma_set_then_read(c: Config, key: Seq<char>, value: bool, other: Seq<char>)
    requires
        is_config_key(key),
        is_config_key(other),
    ensures
        c.with_field(key, value).field(key) == value,
        other != key ==> c.with_field(key, value).field(other) == c.field(other),
{
    lemma_config_keys_distinct();
}

/// Writing a setting twice leaves only the second value.
pub proof fn lemma_last_write_wins(c: Config, key: Seq<char>, first: bool, second: bool)
    requires
        is_config_key(key),
    ensures
        c.with_field(key, first).with_field(key, second) == c.with_field(key, second),
{
    lemma_config_keys_distinct();
}

/// Writing back the value a setting already has changes nothing.
pub proof fn lemma_rewrite_is_identity(c: Config, key: Seq<char>)
    requires
        is_config_key(key),
    ensures
        c.with_field(key, c.field(key)) == c,
{
    lemma_config_keys_distinct();
}

/// Two configurations are equal exactly when every named setting agrees.
pub proof fn lemma_config_determined_by_settings(a: Config, b: Config)
    ensures
        a == b <==> forall|k: Seq<char>| is_config_key(k) ==> a.field(k) == b.field(k),
{
    lemma_config_keys_distinct();
    if forall|k: Seq<char>| is_config_key(k) ==> a.field(k) == b.field(k) {
        assert(config_keys()[0] == "enabled"@);
        assert(is_config_key("enabled"@));
        assert(is_config_key("reverse_mouse"@));
        assert(is_config_key("reverse_trackpad"@));
        assert(is_config_key("reverse_horizontal"@));
        assert(a.field("enabled"@) == b.field("enabled"@));
        assert(a.field("reverse_mouse"@) == b.field("reverse_mouse"@));
        assert(a.field("reverse_trackpad"@) == b.field("reverse_trackpad"@));
        assert(a.field("reverse_horizontal"@) == b.field("reverse_horizontal"@));
    }
}

impl Default for Config {
    /// Enabled, with only mouse scrolling reversed.
    fn default() -> (c: Self)
        ensures
            c == default_config(),
            c.enabled,
            c.reverse_mouse,
            !c.reverse_trackpad,
            !c.reverse_horizontal,
    {
        Config { enabled: true, reverse_mouse: true, reverse_trackpad: false, reverse_horizontal: false }
    }
}

} // verus!
