//! The name of the file that a path leads to, and its extension.

use std::path::Path;

use vstd::prelude::*;

verus! {

/// The text behind the last `mark`, or all of it if there is none.
pub open spec fn after_last(text: Seq<char>, mark: char) -> Seq<char>
    decreases text.len(),
{
    if text.len() == 0 || text.last() == mark {
        Seq::empty()
    } else {
        after_last(text.drop_last(), mark).push(text.last())
    }
}

/// The last part of a path. A slash at the end, and a part that is a single dot, do
/// not count, unless the path begins with that part.
pub open spec fn last_part(path: Seq<char>) -> Seq<char>
    decreases path.len(),
{
    let part = after_last(path, '/');
    if part.len() < path.len() && (part.len() == 0 || part == seq!['.']) {
        last_part(path.take(path.len() - part.len() - 1))
    } else {
        part
    }
}

/// The name of the file that a path leads to, if it says one.
pub open spec fn file_name(path: Seq<char>) -> Option<Seq<char>> {
    let part = last_part(path);
    if part.len() == 0 || part == seq!['.'] || part == seq!['.', '.'] {
        None
    } else {
        Some(part)
    }
}

/// The name of a file has a dot that it does not begin with.
pub open spec fn dotted(name: Seq<char>) -> bool {
    exists|i: int| 0 < i < name.len() && #[trigger] name[i] == '.'
}

/// What stands behind the last dot of the name of a file. A dot that is the only one
/// and that the name begins with does not count.
pub open spec fn extension(path: Seq<char>) -> Option<Seq<char>> {
    match file_name(path) {
        Some(name) => if dotted(name) {
            Some(after_last(name, '.'))
        } else {
            None
        },
        None => None,
    }
}

/// A character that parts of a path are separated by on some platform.
pub open spec fn separates(mark: char) -> bool {
    mark == '/' || mark == '\\'
}

/// The last part of the path is the same on every platform: it has no backslash and
/// no colon in it, and the path does not begin with two separators, as one with a
/// server does.
pub open spec fn portable(path: Seq<char>) -> bool {
    &&& !last_part(path).contains('\\')
    &&& !last_part(path).contains(':')
    &&& !(path.len() >= 2 && separates(path[0]) && separates(path[1]))
}

/// `std::path::Path::extension`: what stands behind the last dot of the file name,
/// where `std::path::Path::file_name` is the last part of the path. Nothing is said
/// of a path that platforms take apart in different ways.
#[verifier::external_body]
pub(crate) fn file_extension(path: &str) -> (found: Option<String>)
    ensures
        portable(path@) ==> match found {
            Some(found) => extension(path@) == Some(found@),
            None => extension(path@) is None,
        },
{
    Path::new(path).extension().map(|text| text.to_string_lossy().into_owned())
}

/// The text behind the last `mark` does not depend on what stands before the mark.
proof fn after_last_mark(before: Seq<char>, text: Seq<char>, mark: char)
    requires
        before.len() == 0 || before.last() == mark,
        forall|i: int| 0 <= i < text.len() ==> #[trigger] text[i] != mark,
    ensures
        after_last(before + text, mark) == text,
    decreases text.len(),
{
    let all = before + text;
    if text.len() == 0 {
        assert(all =~= before);
    } else {
        after_last_mark(before, text.drop_last(), mark);
        assert(all.drop_last() =~= before + text.drop_last());
        assert(text =~= text.drop_last().push(text.last()));
    }
}

/// A file whose name is `stem`, a dot and `ending` has `ending` as its extension, in
/// whichever directory it is.
pub proof fn extension_of_file(directory: Seq<char>, stem: Seq<char>, ending: Seq<char>)
    requires
        directory.len() == 0 || directory.last() == '/',
        stem.len() > 0 && ending.len() > 0,
        forall|i: int| 0 <= i < stem.len() ==> #[trigger] stem[i] != '/',
        forall|i: int| 0 <= i < ending.len() ==> #[trigger] ending[i] != '/' && ending[i] != '.',
    ensures
        file_name(directory + (stem + seq!['.'] + ending)) == Some(stem + seq!['.'] + ending),
        extension(directory + (stem + seq!['.'] + ending)) == Some(ending),
{
    let name = stem + seq!['.'] + ending;
    assert forall|i: int| 0 <= i < name.len() implies #[trigger] name[i] != '/' by {
        if i < stem.len() {
            assert(name[i] == stem[i]);
        } else if i > stem.len() {
            assert(name[i] == ending[i - stem.len() - 1]);
        }
    }
    after_last_mark(directory, name, '/');
    assert(file_name(directory + name) == Some(name));
    let dot = stem.len() as int;
    assert(0 < dot < name.len() && name[dot] == '.');
    assert(dotted(name));
    after_last_mark(stem + seq!['.'], ending, '.');
    assert(after_last(name, '.') == ending);
}

/// A slash at the end of a path, with or without a dot behind it, does not change
/// which file it leads to.
pub proof fn slash_at_end_is_ignored(path: Seq<char>)
    requires
        path.len() > 0,
    ensures
        file_name(path.push('/')) == file_name(path),
        extension(path.push('/')) == extension(path),
        file_name(path.push('/').push('.')) == file_name(path),
        extension(path.push('/').push('.')) == extension(path),
{
    let (slash, dot) = (path.push('/'), path.push('/').push('.'));
    assert(slash.drop_last() =~= path);
    assert(after_last(slash, '/') =~= Seq::<char>::empty());
    assert(slash.take(slash.len() - 1) =~= path);
    assert(dot.drop_last() =~= slash);
    assert(after_last(dot, '/') =~= seq!['.']);
    assert(dot.take(dot.len() - 2) =~= path);
}

/// The name of a file is the last part of its path, whichever directory it is in. It
/// has no extension if there is no dot in it, or only one at its beginning.
pub proof fn undotted_has_no_extension(directory: Seq<char>, name: Seq<char>)
    requires
        directory.len() == 0 || directory.last() == '/',
        name.len() > 0 && name != seq!['.'],
        forall|i: int| 0 <= i < name.len() ==> #[trigger] name[i] != '/',
        forall|i: int| 0 < i < name.len() ==> #[trigger] name[i] != '.',
    ensures
        file_name(directory + name) == Some(name),
        extension(directory + name) is None,
{
    after_last_mark(directory, name, '/');
    if name == seq!['.', '.'] {
        assert(name[1] == '.');
    }
}

/// A file with a plain name is found on every platform, whichever directory it is in,
/// as long as that is not on a server.
pub proof fn plain_names_are_portable(directory: Seq<char>, name: Seq<char>)
    requires
        directory.len() == 0 || directory.last() == '/',
        directory.len() >= 2 ==> !(separates(directory[0]) && separates(directory[1])),
        name.len() > 0 && name != seq!['.'],
        forall|i: int|
            0 <= i < name.len() ==> !separates(#[trigger] name[i]) && name[i] != ':',
    ensures
        portable(directory + name),
{
    let path = directory + name;
    after_last_mark(directory, name, '/');
    assert(last_part(path) == name);
    if path.len() >= 2 && separates(path[0]) && separates(path[1]) {
        if directory.len() < 2 {
            assert(path[1] == name[1 - directory.len()]);
        } else {
            assert(path[0] == directory[0] && path[1] == directory[1]);
        }
    }
}

} // verus!
