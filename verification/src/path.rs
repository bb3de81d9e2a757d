//! Paths of a Unix system, as bytes.

use vstd::prelude::*;
use vstd::string::*;

verus! {

/// The byte that separates the parts of a path.
pub const SEPARATOR: u8 = 47;

/// The path that `part` names when it is read from `base`: an absolute `part` stands
/// for itself, any other goes behind `base`, with one separator between the two unless
/// `base` is empty or already ends in one.
pub open spec fn joined(base: Seq<u8>, part: Seq<u8>) -> Seq<u8> {
    if part.len() > 0 && part[0] == SEPARATOR {
        part
    } else if base.len() == 0 || base.last() == SEPARATOR {
        base + part
    } else {
        base.push(SEPARATOR) + part
    }
}

/// Puts `part` behind `base`.
pub fn join(base: &[u8], part: &str) -> (path: Vec<u8>)
    ensures
        path@ == joined(base@, part.spec_bytes()),
{
    let tail = part.as_bytes();
    let mut path: Vec<u8> = Vec::new();
    if tail.len() > 0 && tail[0] == SEPARATOR {
        append(&mut path, tail);
    } else {
        append(&mut path, base);
        if base.len() > 0 && base[base.len() - 1] != SEPARATOR {
            path.push(SEPARATOR);
        }
        append(&mut path, tail);
    }
    path
}

/// Appends `bytes` to `to`.
pub fn append(to: &mut Vec<u8>, bytes: &[u8])
    ensures
        final(to)@ == old(to)@ + bytes@,
{
    let ghost before = to@;
    let mut i: usize = 0;
    while i < bytes.len()
        invariant
            i <= bytes.len(),
            to@ == before + bytes@.take(i as int),
        decreases bytes.len() - i,
    {
        to.push(bytes[i]);
        assert(bytes@.take(i + 1) == bytes@.take(i as int).push(bytes@[i as int]));
        i = i + 1;
    }
    assert(bytes@.take(i as int) == bytes@);
}

/// A copy of `bytes`.
pub fn copy(bytes: &[u8]) -> (v: Vec<u8>)
    ensures
        v@ == bytes@,
{
    let mut v: Vec<u8> = Vec::new();
    append(&mut v, bytes);
    v
}

/// The directory that a variable of the environment names, or the fallback where the
/// variable is not set.
pub open spec fn directory_or(variable: Option<&[u8]>, fallback: Seq<u8>) -> Seq<u8> {
    match variable {
        Some(dir) => dir@,
        None => fallback,
    }
}

/// Joining a relative part never loses the base.
pub proof fn law_join_keeps_base(base: Seq<u8>, part: Seq<u8>)
    requires
        part.len() == 0 || part[0] != SEPARATOR,
    ensures
        joined(base, part).len() >= base.len() + part.len(),
        joined(base, part).take(base.len() as int) == base,
        joined(base, part).skip(joined(base, part).len() - part.len()) == part,
{
}

/// Joining puts exactly one separator between the two, and adds or drops nothing else; a
/// part that is absolute stands for itself.
pub proof fn law_join_puts_one_separator(base: Seq<u8>, part: Seq<u8>)
    ensures
        part.len() > 0 && part[0] == 47 ==> joined(base, part) == part,
        part.len() > 0 && part[0] != 47 && base.len() > 0 && base.last() != 47 ==> joined(
            base,
            part,
        ) == base + seq![47u8] + part,
        part.len() > 0 && part[0] != 47 && base.len() > 0 && base.last() == 47 ==> joined(
            base,
            part,
        ) == base + part,
        part.len() > 0 && part[0] != 47 && base.len() == 0 ==> joined(base, part) == part,
{
}

/// A variable that is set decides, and its value is taken as it is; the fallback counts
/// only where it is not set.
pub proof fn law_variable_comes_first(dir: &[u8], fallback: Seq<u8>, other: Seq<u8>)
    ensures
        directory_or(Some(dir), fallback) == dir@,
        directory_or(Some(dir), fallback) == directory_or(Some(dir), other),
        directory_or(None, fallback) == fallback,
{
}

/// The parts that are put behind directories are not empty and not absolute.
pub proof fn lemma_literal_parts()
    ensures
        "micloop".spec_bytes().len() > 0 && "micloop".spec_bytes()[0] != 47,
        "micloop".spec_bytes().last() != 47,
        "config.json".spec_bytes().len() > 0 && "config.json".spec_bytes()[0] != 47,
        ".config".spec_bytes().len() > 0 && ".config".spec_bytes()[0] != 47,
        ".config".spec_bytes().last() != 47,
        "micloop.pid".spec_bytes().len() > 0 && "micloop.pid".spec_bytes()[0] != 47,
        "micloop.wav".spec_bytes().len() > 0 && "micloop.wav".spec_bytes()[0] != 47,
        ".local/share".spec_bytes().len() > 0 && ".local/share".spec_bytes()[0] != 47,
        ".local/share".spec_bytes().last() != 47,
        "applications".spec_bytes().len() > 0 && "applications".spec_bytes()[0] != 47,
        "applications".spec_bytes().last() != 47,
        "icons/hicolor/scalable/apps".spec_bytes().len() > 0,
        "icons/hicolor/scalable/apps".spec_bytes()[0] != 47,
        "icons/hicolor/scalable/apps".spec_bytes().last() != 47,
        "micloop.desktop".spec_bytes().len() > 0 && "micloop.desktop".spec_bytes()[0] != 47,
        "micloop.svg".spec_bytes().len() > 0 && "micloop.svg".spec_bytes()[0] != 47,
{
    broadcast use vstd::string::is_ascii_spec_bytes;

    reveal_strlit("micloop");
    reveal_strlit("config.json");
    reveal_strlit(".config");
    reveal_strlit("micloop.pid");
    reveal_strlit("micloop.wav");
    reveal_strlit(".local/share");
    reveal_strlit("applications");
    reveal_strlit("icons/hicolor/scalable/apps");
    reveal_strlit("micloop.desktop");
    reveal_strlit("micloop.svg");
    assert(vstd::string::is_ascii("micloop"));
    assert(vstd::string::is_ascii("config.json"));
    assert(vstd::string::is_ascii(".config"));
    assert(vstd::string::is_ascii("micloop.pid"));
    assert(vstd::string::is_ascii("micloop.wav"));
    assert(vstd::string::is_ascii(".local/share"));
    assert(vstd::string::is_ascii("applications"));
    assert(vstd::string::is_ascii("icons/hicolor/scalable/apps"));
    assert(vstd::string::is_ascii("micloop.desktop"));
    assert(vstd::string::is_ascii("micloop.svg"));
}

} // verus!
