//! Paths as text: joining, and the portable relative paths of logical modules.

use vstd::prelude::*;
use vstd::string::*;

use crate::client::ErrorCode;
use crate::failure::{permanent, FailureView, ProtocolFailure};
use crate::text::join3;

verus! {

/// `tail` below `base`: an absolute `tail` replaces `base`, and a separator stands between the
/// two where `base` has none at its end.
pub open spec fn joined(base: Seq<char>, tail: Seq<char>) -> Seq<char> {
    if tail.len() > 0 && tail[0] == '/' {
        tail
    } else if base.len() == 0 || base.last() == '/' {
        base + tail
    } else {
        base + "/"@ + tail
    }
}

/// Whether a path starts at the root.
pub open spec fn is_absolute_path(path: Seq<char>) -> bool {
    path.len() > 0 && path[0] == '/'
}

/// Tests whether a path starts at the root.
pub fn is_absolute(path: &str) -> (absolute: bool)
    ensures
        absolute == is_absolute_path(path@),
{
    if path.unicode_len() == 0 {
        return false;
    }
    path.get_char(0) == '/'
}

/// Joins two paths.
pub fn join(base: &str, tail: &str) -> (path: String)
    ensures
        path@ == joined(base@, tail@),
{
    if is_absolute(tail) {
        return tail.to_owned();
    }
    let length: usize = base.unicode_len();
    let mut path = base.to_owned();
    if length > 0 && base.get_char(length - 1) != '/' {
        path.append("/");
    }
    path.append(tail);
    path
}

/// How the platform reads a path that is taken below a directory. It is asked where the platform's
/// paths are not those in which `/` alone separates and a leading `/` means the root: a drive
/// letter, say, makes a path absolute there.
#[derive(Debug, PartialEq, Eq)]
pub struct NativePath {
    /// Whether the platform takes the path for an absolute one.
    pub absolute: bool,
    /// The path below the directory, as the platform joins the two.
    pub below: String,
}

/// Whether a path does not depend on a directory: as the platform reads it where it is asked, and
/// by its first character else.
pub open spec fn is_absolute_on(path: Seq<char>, native: Option<NativePath>) -> bool {
    match native {
        Some(native) => native.absolute,
        None => is_absolute_path(path),
    }
}

/// `path` taken below `base`: itself where it is absolute, and else the two joined.
pub open spec fn placed(base: Seq<char>, path: Seq<char>, native: Option<NativePath>) -> Seq<char> {
    if is_absolute_on(path, native) {
        path
    } else {
        match native {
            Some(native) => native.below@,
            None => joined(base, path),
        }
    }
}

/// Tests whether a path does not depend on a directory.
pub fn absolute_on(path: &str, native: &Option<NativePath>) -> (absolute: bool)
    ensures
        absolute == is_absolute_on(path@, *native),
{
    match native {
        Some(native) => native.absolute,
        None => is_absolute(path),
    }
}

/// Takes a path below a directory.
pub fn place(base: &str, path: &str, native: &Option<NativePath>) -> (place: String)
    ensures
        place@ == placed(base@, path@, *native),
{
    if absolute_on(path, native) {
        return path.to_owned();
    }
    match native {
        Some(native) => native.below.clone(),
        None => join(base, path),
    }
}

/// What a segment between two separators adds to a path's parts: nothing where it is empty or `.`.
pub open spec fn kept_segment(segment: Seq<char>) -> Seq<Seq<char>> {
    if segment.len() == 0 || segment == seq!['.'] {
        Seq::empty()
    } else {
        seq![segment]
    }
}

/// The parts of a path whose first segment so far is `current` and whose other characters are
/// `rest`.
pub open spec fn parts_from(current: Seq<char>, rest: Seq<char>) -> Seq<Seq<char>>
    decreases rest.len(),
{
    if rest.len() == 0 {
        kept_segment(current)
    } else if rest[0] == '/' {
        kept_segment(current) + parts_from(Seq::empty(), rest.drop_first())
    } else {
        parts_from(current.push(rest[0]), rest.drop_first())
    }
}

/// The parts of a path: its segments without the empty ones and the `.` ones.
pub open spec fn path_parts(path: Seq<char>) -> Seq<Seq<char>> {
    parts_from(Seq::empty(), path)
}

/// Whether a relative path starts with a `.` segment.
pub open spec fn starts_with_dot(path: Seq<char>) -> bool {
    path.len() > 0 && path[0] == '.' && (path.len() == 1 || path[1] == '/')
}

/// Whether two paths name the same place by their components.
pub open spec fn same_place(a: Seq<char>, b: Seq<char>) -> bool {
    &&& is_absolute_path(a) == is_absolute_path(b)
    &&& starts_with_dot(a) == starts_with_dot(b)
    &&& path_parts(a) == path_parts(b)
}

/// The views of segments.
pub open spec fn parts_view(parts: Seq<Vec<char>>) -> Seq<Seq<char>> {
    Seq::new(parts.len(), |i: int| parts[i]@)
}

fn keep_segment(parts: &mut Vec<Vec<char>>, segment: Vec<char>)
    ensures
        parts_view(final(parts)@) == parts_view(old(parts)@) + kept_segment(segment@),
{
    let ghost before = parts@;
    if segment.len() == 0 || (segment.len() == 1 && segment[0] == '.') {
        proof {
            if segment@.len() == 1 {
                assert(segment@ =~= seq!['.']);
            }
            assert(parts_view(before) + kept_segment(segment@) =~= parts_view(before));
        }
        return;
    }
    let ghost view = segment@;
    parts.push(segment);
    proof {
        assert(view != seq!['.']) by {
            if view == seq!['.'] {
                assert(view.len() == 1 && view[0] == '.');
            }
        }
        assert(parts_view(parts@) =~= parts_view(before) + seq![view]);
    }
}

/// Takes a path apart.
pub fn split_path(path: &str) -> (parts: Vec<Vec<char>>)
    ensures
        parts_view(parts@) == path_parts(path@),
{
    let mut parts: Vec<Vec<char>> = Vec::new();
    let mut current: Vec<char> = Vec::new();
    let mut i: usize = 0;
    let count: usize = path.unicode_len();
    proof {
        assert(path@.skip(0) =~= path@);
        assert(parts_view(parts@) + path_parts(path@) =~= path_parts(path@));
        assert(current@ =~= Seq::<char>::empty());
    }
    for c in chars: path.chars()
        invariant
            chars.seq() == path@,
            i == chars.index(),
            count == path@.len(),
            path_parts(path@) == parts_view(parts@) + parts_from(current@, path@.skip(i as int)),
    {
        let ghost rest = path@.skip(i as int);
        let ghost held = parts_view(parts@);
        let ghost segment = current@;
        proof {
            assert(rest[0] == c);
            assert(rest.drop_first() =~= path@.skip(i + 1));
        }
        if c == '/' {
            keep_segment(&mut parts, current);
            current = Vec::new();
            proof {
                assert(current@ =~= Seq::<char>::empty());
                assert(held + (kept_segment(segment) + parts_from(
                    Seq::empty(),
                    rest.drop_first(),
                )) =~= held + kept_segment(segment) + parts_from(
                    Seq::empty(),
                    rest.drop_first(),
                ));
            }
        } else {
            current.push(c);
        }
        i = i + 1;
    }
    keep_segment(&mut parts, current);
    parts
}

fn same_chars(a: &Vec<char>, b: &Vec<char>) -> (same: bool)
    ensures
        same == (a@ == b@),
{
    if a.len() != b.len() {
        return false;
    }
    let mut i: usize = 0;
    while i < a.len()
        invariant
            a@.len() == b@.len(),
            i <= a@.len(),
            forall|k: int| 0 <= k < i ==> a@[k] == b@[k],
        decreases a.len() - i,
    {
        if a[i] != b[i] {
            return false;
        }
        i = i + 1;
    }
    assert(a@ =~= b@);
    true
}

fn dot_first(path: &str) -> (dot: bool)
    ensures
        dot == starts_with_dot(path@),
{
    let length: usize = path.unicode_len();
    if length == 0 {
        return false;
    }
    if path.get_char(0) != '.' {
        return false;
    }
    length == 1 || path.get_char(1) == '/'
}

/// Tests whether two paths name the same place by their components.
pub fn same_path(a: &str, b: &str) -> (same: bool)
    ensures
        same == same_place(a@, b@),
{
    if is_absolute(a) != is_absolute(b) || dot_first(a) != dot_first(b) {
        return false;
    }
    let left = split_path(a);
    let right = split_path(b);
    if left.len() != right.len() {
        proof {
            assert(parts_view(left@).len() != parts_view(right@).len());
        }
        return false;
    }
    let mut i: usize = 0;
    while i < left.len()
        invariant
            left@.len() == right@.len(),
            i <= left@.len(),
            parts_view(left@) == path_parts(a@),
            parts_view(right@) == path_parts(b@),
            forall|k: int| 0 <= k < i ==> (#[trigger] left@[k])@ == right@[k]@,
        decreases left.len() - i,
    {
        if !same_chars(&left[i], &right[i]) {
            proof {
                assert(parts_view(left@)[i as int] != parts_view(right@)[i as int]);
            }
            return false;
        }
        i = i + 1;
    }
    proof {
        assert(parts_view(left@) =~= parts_view(right@));
    }
    true
}

/// Whether a file name has the extension `nostdb`: a name before the last dot, `nostdb` behind it.
pub open spec fn has_module_extension(name: Seq<char>) -> bool {
    name.len() > 7 && name.skip(name.len() - 7) == ".nostdb"@
}

/// The segments of a path whose first segment so far is `current` and whose other characters are
/// `rest`.
pub open spec fn segments_from(current: Seq<char>, rest: Seq<char>) -> Seq<Seq<char>>
    decreases rest.len(),
{
    if rest.len() == 0 {
        seq![current]
    } else if rest[0] == '/' {
        seq![current] + segments_from(Seq::empty(), rest.drop_first())
    } else {
        segments_from(current.push(rest[0]), rest.drop_first())
    }
}

/// The segments between the separators of a path, the empty ones too.
pub open spec fn segments(path: Seq<char>) -> Seq<Seq<char>> {
    segments_from(Seq::empty(), path)
}

/// Whether a segment is a plain name: neither empty nor a step aside or up.
pub open spec fn is_plain_name(segment: Seq<char>) -> bool {
    segment.len() > 0 && segment != seq!['.'] && segment != seq!['.', '.']
}

/// A logical module's path is relative, normalized and free of traversal, and ends in a `.nostdb`
/// file.
pub open spec fn is_module_path(path: Seq<char>) -> bool {
    &&& forall|i: int| 0 <= i < segments(path).len() ==> is_plain_name(#[trigger] segments(path)[i])
    &&& has_module_extension(segments(path).last())
}

proof fn lemma_first_segment(current: Seq<char>, rest: Seq<char>)
    ensures
        segments_from(current, rest).len() > 0,
        segments_from(current, rest)[0].len() >= current.len(),
        current.len() == 0 && rest.len() > 0 && rest[0] == '/' ==> segments_from(
            current,
            rest,
        )[0].len() == 0,
    decreases rest.len(),
{
    if rest.len() > 0 {
        if rest[0] == '/' {
            lemma_first_segment(Seq::empty(), rest.drop_first());
        } else {
            lemma_first_segment(current.push(rest[0]), rest.drop_first());
        }
    }
}

/// A module path is neither empty nor absolute, and written below a directory it stays below it:
/// the directory's path comes first, and no part of what follows is empty, `.` or `..`.
pub proof fn law_module_paths_are_relative(path: Seq<char>, directory: Seq<char>, i: int)
    requires
        is_module_path(path),
        directory.len() > 0,
        directory.last() != '/',
        0 <= i < segments(path).len(),
    ensures
        path.len() > 0,
        !is_absolute_path(path),
        joined(directory, path) == directory + "/"@ + path,
        segments(path)[i].len() > 0,
        segments(path)[i] != "."@,
        segments(path)[i] != ".."@,
{
    reveal_strlit(".");
    reveal_strlit("..");
    assert("."@ =~= seq!['.']);
    assert(".."@ =~= seq!['.', '.']);
    lemma_first_segment(Seq::empty(), path);
    assert(is_plain_name(segments(path)[0]));
    assert(is_plain_name(segments(path)[i]));
}

/// The failure for a path that is no module path.
pub open spec fn module_path_view(path: Seq<char>) -> FailureView {
    permanent(ErrorCode::QueryError, "invalid logical module path `"@ + path + "`"@)
}

fn module_extension(name: &Vec<char>) -> (has: bool)
    ensures
        has == has_module_extension(name@),
{
    let length: usize = name.len();
    if length <= 7 {
        return false;
    }
    let start: usize = length - 7;
    let has: bool = name[start] == '.' && name[start + 1] == 'n' && name[start + 2] == 'o'
        && name[start + 3] == 's' && name[start + 4] == 't' && name[start + 5] == 'd' && name[start
        + 6] == 'b';
    proof {
        reveal_strlit(".nostdb");
        let tail = name@.skip(start as int);
        assert(tail[0] == name@[start as int]);
        assert(tail[1] == name@[start + 1]);
        assert(tail[2] == name@[start + 2]);
        assert(tail[3] == name@[start + 3]);
        assert(tail[4] == name@[start + 4]);
        assert(tail[5] == name@[start + 5]);
        assert(tail[6] == name@[start + 6]);
        if has {
            assert(tail =~= ".nostdb"@);
        }
    }
    has
}

fn split_segments(path: &str) -> (parts: Vec<Vec<char>>)
    ensures
        parts_view(parts@) == segments(path@),
{
    let mut parts: Vec<Vec<char>> = Vec::new();
    let mut current: Vec<char> = Vec::new();
    let mut i: usize = 0;
    let count: usize = path.unicode_len();
    proof {
        assert(path@.skip(0) =~= path@);
        assert(parts_view(parts@) + segments(path@) =~= segments(path@));
        assert(current@ =~= Seq::<char>::empty());
    }
    for c in chars: path.chars()
        invariant
            chars.seq() == path@,
            i == chars.index(),
            count == path@.len(),
            segments(path@) == parts_view(parts@) + segments_from(current@, path@.skip(i as int)),
    {
        let ghost rest = path@.skip(i as int);
        let ghost held = parts_view(parts@);
        let ghost segment = current@;
        proof {
            assert(rest[0] == c);
            assert(rest.drop_first() =~= path@.skip(i + 1));
        }
        if c == '/' {
            parts.push(current);
            current = Vec::new();
            proof {
                assert(current@ =~= Seq::<char>::empty());
                assert(parts_view(parts@) =~= held + seq![segment]);
                assert(held + (seq![segment] + segments_from(Seq::empty(), rest.drop_first()))
                    =~= held + seq![segment] + segments_from(Seq::empty(), rest.drop_first()));
            }
        } else {
            current.push(c);
        }
        i = i + 1;
    }
    let ghost held = parts_view(parts@);
    let ghost segment = current@;
    parts.push(current);
    proof {
        assert(path@.skip(i as int).len() == 0);
        assert(parts_view(parts@) =~= held + seq![segment]);
    }
    parts
}

fn plain_name(segment: &Vec<char>) -> (plain: bool)
    ensures
        plain == is_plain_name(segment@),
{
    let length: usize = segment.len();
    let dot: bool = length == 1 && segment[0] == '.';
    let dots: bool = length == 2 && segment[0] == '.' && segment[1] == '.';
    proof {
        if dot {
            assert(segment@ =~= seq!['.']);
        }
        if dots {
            assert(segment@ =~= seq!['.', '.']);
        }
        if segment@ == seq!['.'] {
            assert(segment@.len() == 1 && segment@[0] == '.');
        }
        if segment@ == seq!['.', '.'] {
            assert(segment@.len() == 2 && segment@[0] == '.' && segment@[1] == '.');
        }
    }
    length > 0 && !dot && !dots
}

/// Tests whether a text is a logical module's path.
pub fn valid_module_path(value: &str) -> (safe: bool)
    ensures
        safe == is_module_path(value@),
{
    let parts = split_segments(value);
    let ghost views = segments(value@);
    proof {
        lemma_first_segment(Seq::empty(), value@);
        assert(parts@.len() == views.len());
    }
    let mut i: usize = 0;
    while i < parts.len()
        invariant
            i <= parts@.len(),
            parts_view(parts@) == views,
            views == segments(value@),
            forall|k: int| 0 <= k < i ==> is_plain_name(#[trigger] views[k]),
        decreases parts.len() - i,
    {
        assert(views[i as int] == parts@[i as int]@);
        if !plain_name(&parts[i]) {
            assert(!is_plain_name(segments(value@)[i as int]));
            return false;
        }
        i = i + 1;
    }
    assert(views.last() == parts@[parts@.len() - 1]@);
    module_extension(&parts[parts.len() - 1])
}

/// Checks a logical module's path.
pub fn safe_module_path(value: &str) -> (path: Result<String, ProtocolFailure>)
    ensures
        is_module_path(value@) ==> path is Ok && path->Ok_0@ == value@,
        !is_module_path(value@) ==> path is Err && path->Err_0@ == module_path_view(value@),
{
    if !valid_module_path(value) {
        return Err(
            ProtocolFailure::new(
                ErrorCode::QueryError,
                join3("invalid logical module path `", value, "`").as_str(),
            ),
        );
    }
    Ok(value.to_owned())
}

/// Whether a text is one name: not empty, not `.`, and without a separator.
pub open spec fn is_single_name(name: Seq<char>) -> bool {
    &&& name.len() > 0
    &&& name != seq!['.']
    &&& forall|i: int| 0 <= i < name.len() ==> #[trigger] name[i] != '/'
}

proof fn lemma_no_separator(current: Seq<char>, name: Seq<char>)
    requires
        forall|i: int| 0 <= i < name.len() ==> #[trigger] name[i] != '/',
    ensures
        parts_from(current, name) == kept_segment(current + name),
    decreases name.len(),
{
    if name.len() == 0 {
        assert(current + name =~= current);
    } else {
        let rest = name.drop_first();
        assert forall|i: int| 0 <= i < rest.len() implies #[trigger] rest[i] != '/' by {
            assert(rest[i] == name[i + 1]);
        }
        lemma_no_separator(current.push(name[0]), rest);
        assert(current.push(name[0]) + rest =~= current + name);
    }
}

proof fn lemma_last_part(current: Seq<char>, base: Seq<char>, name: Seq<char>)
    requires
        is_single_name(name),
    ensures
        parts_from(current, base + seq!['/'] + name).len() > 0,
        parts_from(current, base + seq!['/'] + name).last() == name,
    decreases base.len(),
{
    let whole = base + seq!['/'] + name;
    if base.len() == 0 {
        assert(whole[0] == '/');
        assert(whole.drop_first() =~= name);
        lemma_no_separator(Seq::empty(), name);
        assert(Seq::<char>::empty() + name =~= name);
        assert(kept_segment(name) == seq![name]);
        let parts = kept_segment(current) + seq![name];
        assert(parts_from(current, whole) == parts);
        assert(parts.last() == name);
    } else {
        let rest = base.drop_first();
        assert(whole[0] == base[0]);
        assert(whole.drop_first() =~= rest + seq!['/'] + name);
        if base[0] == '/' {
            lemma_last_part(Seq::empty(), rest, name);
            let tail = parts_from(Seq::empty(), whole.drop_first());
            assert((kept_segment(current) + tail).last() == tail.last());
        } else {
            lemma_last_part(current.push(base[0]), rest, name);
        }
    }
}

/// Two different names below one directory are two places.
pub proof fn lemma_names_apart(base: Seq<char>, a: Seq<char>, b: Seq<char>)
    requires
        base.len() > 0,
        base.last() != '/',
        is_single_name(a),
        is_single_name(b),
        a != b,
    ensures
        !same_place(joined(base, a), joined(base, b)),
{
    reveal_strlit("/");
    assert("/"@ =~= seq!['/']);
    assert(a[0] != '/' && b[0] != '/');
    lemma_last_part(Seq::empty(), base, a);
    lemma_last_part(Seq::empty(), base, b);
}

/// A path below a base begins with the base and ends with the path, with one separator between them
/// and no second where the base already ends with one. An absolute path stands for itself.
pub proof fn law_joining_separates_once(base: Seq<char>, tail: Seq<char>)
    ensures
        is_absolute_path(tail) ==> joined(base, tail) == tail,
        !is_absolute_path(tail) && base.len() > 0 && base.last() != '/' ==> joined(base, tail)
            == base.push('/') + tail,
        !is_absolute_path(tail) && (base.len() == 0 || base.last() == '/') ==> joined(base, tail)
            == base + tail,
        is_absolute_path(tail) <==> tail.len() > 0 && tail[0] == '/',
{
    reveal_strlit("/");
    assert(base + "/"@ + tail =~= base.push('/') + tail);
}

/// Texts with separators between them.
pub open spec fn with_separators(parts: Seq<Seq<char>>) -> Seq<char>
    decreases parts.len(),
{
    if parts.len() == 0 {
        Seq::empty()
    } else if parts.len() == 1 {
        parts[0]
    } else {
        parts[0].push('/') + with_separators(parts.drop_first())
    }
}

proof fn lemma_segments(current: Seq<char>, rest: Seq<char>)
    requires
        forall|j: int| 0 <= j < current.len() ==> #[trigger] current[j] != '/',
    ensures
        segments_from(current, rest).len() > 0,
        with_separators(segments_from(current, rest)) == current + rest,
        forall|i: int, j: int|
            0 <= i < segments_from(current, rest).len() && 0 <= j < segments_from(
                current,
                rest,
            )[i].len() ==> #[trigger] segments_from(current, rest)[i][j] != '/',
    decreases rest.len(),
{
    let parts = segments_from(current, rest);
    if rest.len() == 0 {
        assert(current + rest =~= current);
    } else if rest[0] == '/' {
        let tail = rest.drop_first();
        lemma_segments(Seq::empty(), tail);
        let behind = segments_from(Seq::empty(), tail);
        assert(parts.drop_first() =~= behind);
        assert(Seq::<char>::empty() + tail =~= tail);
        assert(current.push('/') + tail =~= current + rest);
        assert forall|i: int, j: int|
            0 <= i < parts.len() && 0 <= j < parts[i].len() implies #[trigger] parts[i][j]
            != '/' by {
            if i > 0 {
                assert(parts[i] == behind[i - 1]);
                assert(behind[i - 1][j] != '/');
            }
        }
    } else {
        lemma_segments(current.push(rest[0]), rest.drop_first());
        assert(current.push(rest[0]) + rest.drop_first() =~= current + rest);
    }
}

/// The segments of a path are what stands between its separators: they hold none, and with
/// separators between them they are the path again.
pub proof fn law_segments_make_the_path(path: Seq<char>)
    ensures
        with_separators(segments(path)) == path,
        forall|i: int, j: int|
            0 <= i < segments(path).len() && 0 <= j < segments(path)[i].len()
                ==> #[trigger] segments(path)[i][j] != '/',
{
    lemma_segments(Seq::empty(), path);
    assert(Seq::<char>::empty() + path =~= path);
}

/// A path is a module path exactly where none of its segments is empty, `.` or `..`, and the last
/// is a name with the extension `.nostdb`.
pub proof fn law_module_paths_name_modules(path: Seq<char>)
    ensures
        is_module_path(path) <==> {
            &&& forall|i: int|
                0 <= i < segments(path).len() ==> (#[trigger] segments(path)[i]).len() > 0
                    && segments(path)[i] != "."@ && segments(path)[i] != ".."@
            &&& exists|name: Seq<char>|
                name.len() > 0 && #[trigger] (name + ".nostdb"@) == segments(path).last()
        },
{
    reveal_strlit(".");
    reveal_strlit("..");
    reveal_strlit(".nostdb");
    assert("."@ =~= seq!['.']);
    assert(".."@ =~= seq!['.', '.']);
    let last = segments(path).last();
    if is_module_path(path) {
        let name = last.take(last.len() - 7);
        assert(name + ".nostdb"@ =~= last);
        assert forall|i: int| 0 <= i < segments(path).len() implies (
        #[trigger] segments(path)[i]).len() > 0 && segments(path)[i] != "."@ && segments(path)[i]
            != ".."@ by {
            assert(is_plain_name(segments(path)[i]));
        }
    }
    if (forall|i: int|
        0 <= i < segments(path).len() ==> (#[trigger] segments(path)[i]).len() > 0
            && segments(path)[i] != "."@ && segments(path)[i] != ".."@) && exists|name: Seq<char>|
        name.len() > 0 && #[trigger] (name + ".nostdb"@) == last {
        let name = choose|name: Seq<char>|
            name.len() > 0 && #[trigger] (name + ".nostdb"@) == last;
        assert(last.skip(last.len() - 7) =~= ".nostdb"@);
        assert forall|i: int| 0 <= i < segments(path).len() implies is_plain_name(
            #[trigger] segments(path)[i],
        ) by {}
    }
}

/// Whether a segment counts for where a path leads.
pub open spec fn counts(segment: Seq<char>) -> bool {
    segment.len() > 0 && segment != seq!['.']
}

proof fn lemma_parts(current: Seq<char>, rest: Seq<char>)
    ensures
        parts_from(current, rest) == segments_from(current, rest).filter(
            |segment: Seq<char>| counts(segment),
        ),
    decreases rest.len(),
{
    let keep = |segment: Seq<char>| counts(segment);
    reveal(Seq::filter);
    let one = seq![current];
    assert(one.filter(keep) =~= kept_segment(current)) by {
        assert(one.drop_last() =~= Seq::<Seq<char>>::empty());
        assert(one.last() == current);
        assert(Seq::<Seq<char>>::empty().filter(keep) =~= Seq::<Seq<char>>::empty());
    }
    if rest.len() == 0 {
    } else if rest[0] == '/' {
        let tail = rest.drop_first();
        lemma_parts(Seq::empty(), tail);
        Seq::filter_distributes_over_add(one, segments_from(Seq::empty(), tail), keep);
    } else {
        lemma_parts(current.push(rest[0]), rest.drop_first());
    }
}

/// Two paths name the same place exactly where both are absolute or neither is, both begin at `.` or
/// neither does, and their segments agree but for the empty ones and `.`.
pub proof fn law_places_are_compared_by_their_names(a: Seq<char>, b: Seq<char>)
    ensures
        same_place(a, b) <==> {
            &&& (a.len() > 0 && a[0] == '/') == (b.len() > 0 && b[0] == '/')
            &&& (a.len() > 0 && a[0] == '.' && (a.len() == 1 || a[1] == '/')) == (b.len() > 0
                && b[0] == '.' && (b.len() == 1 || b[1] == '/'))
            &&& segments(a).filter(|segment: Seq<char>| counts(segment)) == segments(b).filter(
                |segment: Seq<char>| counts(segment),
            )
        },
{
    lemma_parts(Seq::empty(), a);
    lemma_parts(Seq::empty(), b);
}

/// A path stands for itself where it is absolute, and else for what is below the base. The platform
/// says both where it is asked.
pub proof fn law_paths_are_placed_below_the_base(
    base: Seq<char>,
    path: Seq<char>,
    native: Option<NativePath>,
)
    ensures
        native is None && is_absolute_path(path) ==> placed(base, path, native) == path,
        native is None && !is_absolute_path(path) ==> placed(base, path, native) == joined(
            base,
            path,
        ),
        native matches Some(reading) ==> placed(base, path, native) == (if reading.absolute {
            path
        } else {
            reading.below@
        }),
{
}

/// A bad module path is a bad query, and is named.
pub proof fn law_bad_module_paths_are_named(path: Seq<char>)
    ensures
        module_path_view(path).code is QueryError,
        module_path_view(path).message == "invalid logical module path `"@ + path + "`"@,
        !module_path_view(path).retryable,
{
}

} // verus!
