//! Paths, held as their text.
//!
//! How the text of a path falls into components is the platform's business
//! and is not spelled out here: `std::path` decides it, and the two functions
//! at the end of this file ask it. What an extension is, once the file name
//! is known, is a rule of a few lines; it is written down and proved.

use vstd::prelude::*;

verus! {

/// Whether the path `path` begins with the path `base`, whole components
/// only: the answer of `std::path::Path::starts_with`.
pub uninterp spec fn path_starts_with(path: Seq<char>, base: Seq<char>) -> bool;

/// The name of the file or directory that the path `path` ends in, or `None`
/// where it ends in none (the root, or a path that ends in `..`): the answer
/// of `std::path::Path::file_name`.
pub uninterp spec fn path_file_name(path: Seq<char>) -> Option<Seq<char>>;

/// Where the last dot of `name` stands, if it holds one.
pub open spec fn last_dot(name: Seq<char>) -> Option<int>
    decreases name.len(),
{
    if name.len() == 0 {
        None
    } else if name.last() == '.' {
        Some(name.len() - 1)
    } else {
        last_dot(name.drop_last())
    }
}

/// The extension of a file name: what follows its last dot. A name without a
/// dot has none, and neither has a name whose only dot is its first
/// character. This is the rule of `std::path::Path::extension`.
pub open spec fn extension_of(name: Seq<char>) -> Option<Seq<char>> {
    match last_dot(name) {
        Some(dot) => if dot > 0 {
            Some(name.skip(dot + 1))
        } else {
            None
        },
        None => None,
    }
}

/// The extension of the path `path`: that of its file name.
pub open spec fn path_extension(path: Seq<char>) -> Option<Seq<char>> {
    match path_file_name(path) {
        Some(name) => extension_of(name),
        None => None,
    }
}

/// The last dot of a name is a dot, and no dot follows it; a name without a
/// last dot holds no dot at all.
pub proof fn lemma_last_dot(name: Seq<char>)
    ensures
        match last_dot(name) {
            Some(dot) => {
                &&& 0 <= dot < name.len()
                &&& name[dot] == '.'
                &&& forall|i: int| dot < i < name.len() ==> name[i] != '.'
            },
            None => forall|i: int| 0 <= i < name.len() ==> name[i] != '.',
        },
    decreases name.len(),
{
    if name.len() > 0 && name.last() != '.' {
        let front = name.drop_last();
        lemma_last_dot(front);
        assert(forall|i: int| 0 <= i < front.len() ==> front[i] == name[i]);
    }
}

/// A name without a dot has no extension.
pub proof fn lemma_no_dot_no_extension(name: Seq<char>)
    requires
        !name.contains('.'),
    ensures
        extension_of(name) is None,
{
    lemma_last_dot(name);
    if let Some(dot) = last_dot(name) {
        assert(name.contains(name[dot]));
    }
}

/// A name with the extension `ext` is a stem that is not empty, a dot, and
/// `ext`, which holds no dot.
pub proof fn lemma_extension_ends_name(name: Seq<char>, ext: Seq<char>)
    requires
        extension_of(name) == Some(ext),
    ensures
        !ext.contains('.'),
        name.len() >= ext.len() + 2,
        name == name.take(name.len() - ext.len() - 1).push('.') + ext,
{
    lemma_last_dot(name);
    let dot = last_dot(name).unwrap();
    assert(name.skip(dot + 1) == ext);
    assert(name =~= name.take(dot).push('.') + ext);
    if ext.contains('.') {
        let i = choose|i: int| 0 <= i < ext.len() && ext[i] == '.';
        assert(name[dot + 1 + i] == '.');
    }
}

/// The extension of the file name `name`, without its dot.
pub fn name_extension<'a>(name: &'a str) -> (ext: Option<&'a str>)
    ensures
        ext.deep_view() == extension_of(name@),
{
    let len: usize = name.unicode_len();
    let mut dot: Option<usize> = None;
    let mut seen: usize = 0;
    assert(name@.take(0) =~= Seq::empty());
    for c in it: name.chars()
        invariant
            it.seq() == name@,
            len == name@.len(),
            seen == it.index(),
            match dot {
                Some(at) => at < seen && last_dot(name@.take(seen as int)) == Some(at as int),
                None => last_dot(name@.take(seen as int)) is None,
            },
    {
        assert(name@.take(seen + 1).drop_last() =~= name@.take(seen as int));
        if c == '.' {
            dot = Some(seen);
        }
        seen = seen + 1;
    }
    assert(name@.take(seen as int) =~= name@);
    match dot {
        Some(at) => if at > 0 {
            Some(name.substring_char(at + 1, len))
        } else {
            None
        },
        None => None,
    }
}

/// The extension of the path `path`, without its dot: that of the file
/// name it ends in.
pub fn extension<'a>(path: &'a str) -> (ext: Option<&'a str>)
    ensures
        ext.deep_view() == path_extension(path@),
{
    match file_name(path) {
        Some(name) => name_extension(name),
        None => None,
    }
}

/// Calls `std::path::Path::starts_with` on the two texts.
///
/// Trusted: the answer depends on the two texts alone, and is the one that
/// `path_starts_with` stands for.
#[verifier::external_body]
pub(crate) fn starts_with(path: &str, base: &str) -> (b: bool)
    ensures
        b == path_starts_with(path@, base@),
{
    std::path::Path::new(path).starts_with(std::path::Path::new(base))
}

/// Calls `std::path::Path::file_name` on the text.
///
/// Trusted: the answer depends on the text alone, and is the one that
/// `path_file_name` stands for. The file name of a path given as text is
/// text again, so nothing is lost on the way back.
#[verifier::external_body]
pub(crate) fn file_name<'a>(path: &'a str) -> (name: Option<&'a str>)
    ensures
        name.deep_view() == path_file_name(path@),
{
    match std::path::Path::new(path).file_name() {
        Some(name) => name.to_str(),
        None => None,
    }
}

} // verus!
