//! File-system paths as the byte strings the operating system stores, and
//! the locations of the configuration file and the login agent.
use vstd::prelude::*;
use vstd::utf8::{decode_utf8, encode_utf8, valid_utf8};
use crate::text::{lossy_text, strict_text, utf8_lossy};

verus! {

/// The byte `/`.
pub open spec fn separator() -> u8 {
    47u8
}

/// The UTF-8 bytes of a string.
pub open spec fn text_bytes(s: Seq<char>) -> Seq<u8> {
    encode_utf8(s)
}

/// `base` extended by the relative path `rel`, with a separator in between
/// unless `base` is empty or already ends in one (as `PathBuf::push` does for
/// a relative component).
pub open spec fn join_path(base: Seq<u8>, rel: Seq<u8>) -> Seq<u8> {
    if base.len() == 0 || base.last() == separator() {
        base + rel
    } else {
        base + seq![separator()] + rel
    }
}

/// Where the configuration file lies below the home directory.
pub open spec fn config_rel() -> Seq<char> {
    "Library/Application Support/ScrollSplit/config.toml"@
}

/// The directory of the configuration file, below the home directory.
pub open spec fn config_dir_rel() -> Seq<char> {
    "Library/Application Support/ScrollSplit"@
}

/// Where the login agent's property list lies below the home directory.
pub open spec fn agent_rel() -> Seq<char> {
    "Library/LaunchAgents/com.knothhe.scrollsplit.plist"@
}

/// The directory of the login agent's property list, below the home directory.
pub open spec fn agent_dir_rel() -> Seq<char> {
    "Library/LaunchAgents"@
}

/// How a path is shown to the user: its bytes decoded, with invalid UTF-8
/// replaced.
pub open spec fn shown(path: Seq<u8>) -> Seq<char> {
    utf8_lossy(path)
}

/// The path as text, or the message that refuses a path that is not UTF-8.
pub open spec fn path_text(path: Seq<u8>) -> Result<Seq<char>, Seq<char>> {
    if valid_utf8(path) {
        Ok(decode_utf8(path))
    } else {
        Err("path is not valid UTF-8: "@ + shown(path))
    }
}


/// The UTF-8 encoding of a concatenation is the concatenation of the
/// encodings.
pub proof fn lemma_text_bytes_concat(a: Seq<char>, b: Seq<char>)
    ensures
        text_bytes(a + b) == text_bytes(a) + text_bytes(b),
    decreases a.len(),
{
    if a.len() == 0 {
        assert(a + b =~= b);
    } else {
        assert((a + b).drop_first() =~= a.drop_first() + b);
        lemma_text_bytes_concat(a.drop_first(), b);
        assert(text_bytes(a + b) =~= text_bytes(a) + text_bytes(b));
    }
}

/// An ASCII character is encoded as the one byte of its code.
pub proof fn lemma_text_bytes_ascii_char(c: char)
    requires
        (c as u32) < 0x80,
    ensures
        text_bytes(seq![c]) == seq![(c as u32) as u8],
{
    assert(seq![c].drop_first() =~= Seq::<char>::empty());
    let u = c as u32;
    assert((u & 0x7F) as u8 == u as u8) by (bit_vector)
        requires
            u < 0x80,
    ;
    assert(seq![c][0] == c);
    assert(vstd::utf8::encode_utf8(seq![c].drop_first()) == Seq::<u8>::empty());
    assert(vstd::utf8::encode_scalar(u) == seq![vstd::utf8::leading_byte_width_1(u)]);
    assert(vstd::utf8::encode_utf8(seq![c]) == vstd::utf8::encode_scalar(u) + Seq::<u8>::empty());
    assert(text_bytes(seq![c]) =~= seq![u as u8]);
}

/// Where `dir` (not empty, not ending in `/`) lies below `base`, the file
/// `name` in it lies at `dir/name` below `base`: the directory is the
/// parent of the file.
pub proof fn lemma_join_nested(base: Seq<u8>, dir: Seq<char>, name: Seq<char>)
    requires
        dir.len() > 0,
        (dir.last() as u32) < 0x80,
        dir.last() != '/',
    ensures
        join_path(join_path(base, text_bytes(dir)), text_bytes(name)) == join_path(
            base,
            text_bytes(dir + seq!['/'] + name),
        ),
{
    lemma_text_bytes_concat(dir + seq!['/'], name);
    lemma_text_bytes_concat(dir, seq!['/']);
    lemma_text_bytes_ascii_char('/');
    assert(dir.drop_last() + seq![dir.last()] =~= dir);
    lemma_text_bytes_concat(dir.drop_last(), seq![dir.last()]);
    lemma_text_bytes_ascii_char(dir.last());
    let d = text_bytes(dir);
    let u = dir.last() as u32;
    assert(d.last() == u as u8);
    assert(u != 47) by {
        if u == 47 {
            vstd::utf8::char_u32_cast(dir.last(), u);
            vstd::utf8::char_u32_cast('/', 47u32);
        }
    }
    assert(d.last() != separator());
    let j = join_path(base, d);
    assert(j.len() > 0);
    assert(j.last() == d.last());
    assert(join_path(j, text_bytes(name)) =~= join_path(base, d + seq![separator()] + text_bytes(name)));
}

/// The configuration file lies in the configuration directory, and the
/// login agent's property list in the agents directory, whatever the home
/// directory: creating the directory is what makes the file writable.
pub proof fn lemma_files_lie_in_their_directories(home: Seq<u8>)
    ensures
        join_path(home, text_bytes(config_rel())) == join_path(
            join_path(home, text_bytes(config_dir_rel())),
            text_bytes("config.toml"@),
        ),
        join_path(home, text_bytes(agent_rel())) == join_path(
            join_path(home, text_bytes(agent_dir_rel())),
            text_bytes("com.knothhe.scrollsplit.plist"@),
        ),
{
    reveal_strlit("Library/Application Support/ScrollSplit/config.toml");
    reveal_strlit("Library/Application Support/ScrollSplit");
    reveal_strlit("config.toml");
    reveal_strlit("Library/LaunchAgents/com.knothhe.scrollsplit.plist");
    reveal_strlit("Library/LaunchAgents");
    reveal_strlit("com.knothhe.scrollsplit.plist");
    assert(config_rel() =~= config_dir_rel() + seq!['/'] + "config.toml"@);
    assert(agent_rel() =~= agent_dir_rel() + seq!['/'] + "com.knothhe.scrollsplit.plist"@);
    lemma_join_nested(home, config_dir_rel(), "config.toml"@);
    lemma_join_nested(home, agent_dir_rel(), "com.knothhe.scrollsplit.plist"@);
}


/// The configuration file is `<home>/Library/Application Support/ScrollSplit/config.toml`
/// and the login agent's property list is
/// `<home>/Library/LaunchAgents/com.knothhe.scrollsplit.plist`: each is the
/// home directory joined, one component after the other, with those names.
pub proof fn lemma_paths_are_component_joins(home: Seq<u8>)
    ensures
        join_path(home, text_bytes(config_rel())) == join_path(
            join_path(
                join_path(join_path(home, text_bytes("Library"@)), text_bytes("Application Support"@)),
                text_bytes("ScrollSplit"@),
            ),
            text_bytes("config.toml"@),
        ),
        join_path(home, text_bytes(agent_rel())) == join_path(
            join_path(join_path(home, text_bytes("Library"@)), text_bytes("LaunchAgents"@)),
            text_bytes("com.knothhe.scrollsplit.plist"@),
        ),
{
    reveal_strlit("Library/Application Support/ScrollSplit/config.toml");
    reveal_strlit("Library/LaunchAgents/com.knothhe.scrollsplit.plist");
    reveal_strlit("Library");
    reveal_strlit("Application Support");
    reveal_strlit("ScrollSplit");
    reveal_strlit("config.toml");
    reveal_strlit("LaunchAgents");
    reveal_strlit("com.knothhe.scrollsplit.plist");
    let a = "Library"@ + seq!['/'] + "Application Support"@;
    let b = a + seq!['/'] + "ScrollSplit"@;
    let c = b + seq!['/'] + "config.toml"@;
    lemma_join_nested(home, "Library"@, "Application Support"@);
    lemma_join_nested(home, a, "ScrollSplit"@);
    lemma_join_nested(home, b, "config.toml"@);
    assert(config_rel() =~= c);
    let d = "Library"@ + seq!['/'] + "LaunchAgents"@;
    let e = d + seq!['/'] + "com.knothhe.scrollsplit.plist"@;
    lemma_join_nested(home, "Library"@, "LaunchAgents"@);
    lemma_join_nested(home, d, "com.knothhe.scrollsplit.plist"@);
    assert(agent_rel() =~= e);
}

/// Appends the UTF-8 bytes of `s` to `out`.
pub fn push_text_bytes(out: &mut Vec<u8>, s: &str)
    ensures
        final(out)@ == old(out)@ + text_bytes(s@),
{
    let bytes = s.as_bytes();
    let ghost start = out@;
    let mut i: usize = 0;
    while i < bytes.len()
        invariant
            bytes@ == text_bytes(s@),
            i <= bytes@.len(),
            out@ == start + bytes@.subrange(0, i as int),
        decreases bytes@.len() - i,
    {
        out.push(bytes[i]);
        assert(bytes@.subrange(0, i + 1) =~= bytes@.subrange(0, i as int).push(bytes@[i as int]));
        i += 1;
    }
    assert(bytes@.subrange(0, bytes@.len() as int) =~= bytes@);
}

/// `base` extended by the relative path `rel` (see `join_path`).
pub fn joined(base: &Vec<u8>, rel: &str) -> (r: Vec<u8>)
    ensures
        r@ == join_path(base@, text_bytes(rel@)),
{
    let mut out = base.clone();
    assert(out@ =~= base@);
    if base.len() > 0 && base[base.len() - 1] != 47u8 {
        out.push(47u8);
    }
    push_text_bytes(&mut out, rel);
    out
}

/// The configuration file below the home directory `home`.
pub fn config_path(home: &Vec<u8>) -> (r: Vec<u8>)
    ensures
        r@ == join_path(home@, text_bytes(config_rel())),
{
    joined(home, "Library/Application Support/ScrollSplit/config.toml")
}

/// The directory that holds the configuration file.
pub fn config_dir(home: &Vec<u8>) -> (r: Vec<u8>)
    ensures
        r@ == join_path(home@, text_bytes(config_dir_rel())),
{
    joined(home, "Library/Application Support/ScrollSplit")
}

/// The login agent's property list below the home directory `home`.
pub fn plist_path(home: &Vec<u8>) -> (r: Vec<u8>)
    ensures
        r@ == join_path(home@, text_bytes(agent_rel())),
{
    joined(home, "Library/LaunchAgents/com.knothhe.scrollsplit.plist")
}

/// The directory that holds the login agent's property list.
pub fn agent_dir(home: &Vec<u8>) -> (r: Vec<u8>)
    ensures
        r@ == join_path(home@, text_bytes(agent_dir_rel())),
{
    joined(home, "Library/LaunchAgents")
}

/// How `path` is shown in messages.
pub fn show_path(path: &Vec<u8>) -> (r: String)
    ensures
        r@ == shown(path@),
{
    lossy_text(path.as_slice())
}

/// The path as text; a path that is not valid UTF-8 is refused.
pub fn path_string(path: &Vec<u8>) -> (r: Result<String, String>)
    ensures
        r is Ok <==> path_text(path@) is Ok,
        r matches Ok(t) ==> path_text(path@) == Ok::<Seq<char>, Seq<char>>(t@),
        r matches Err(m) ==> path_text(path@) == Err::<Seq<char>, Seq<char>>(m@),
{
    match strict_text(path.as_slice()) {
        Some(t) => Ok(t),
        None => {
            let mut message = "path is not valid UTF-8: ".to_owned();
            let display = show_path(path);
            message.append(display.as_str());
            Err(message)
        },
    }
}

} // verus!
