//! Session ids, relative paths and file names.
use crate::error::{other_io_error, ErrorKind, ErrorView, StorageError};
use crate::error;
use crate::outside::new_uuid_text;
use crate::outside;
use crate::text::{chars_of, contains_char, contains_text, join2, join4, same_text, split};
use crate::text;
use vstd::prelude::*;

verus! {

/// File that holds a session's runtime control plane, beside `session.json`.
pub const RUNTIME_SIDECAR_FILE: &'static str = "runtime.json";

/// File that holds a session with its message history.
pub const SESSION_FILE: &'static str = "session.json";

/// File that names the revision which the search index may take up.
pub const SEARCH_INDEX_REVISION_FILE: &'static str = ".search-index-revision";

// ------------------------------------------------------------------ session ids

/// Whether a session id is safe as one path component.
pub open spec fn valid_id(id: Seq<char>) -> bool {
    &&& id.len() > 0
    &&& !id.contains('/')
    &&& !id.contains('\\')
    &&& !text::has_text(id, ".."@)
}

/// What checking a session id gives.
pub open spec fn id_check(id: Seq<char>) -> Result<(), ErrorView> {
    if valid_id(id) {
        Ok(())
    } else {
        Err(error::plain_error(ErrorKind::Other, "invalid session id: "@ + id))
    }
}

/// Rejects a session id that is empty or holds a path separator or two dots in a row.
pub fn validate_session_id(session_id: &str) -> (r: Result<(), StorageError>)
    ensures
        error::plain_view(r) == id_check(session_id@),
{
    if session_id.is_empty() || contains_char(session_id, '/') || contains_char(session_id, '\\')
        || contains_text(session_id, "..") {
        return Err(other_io_error(&join2("invalid session id: ", session_id)));
    }
    Ok(())
}

// ------------------------------------------------------------------ fresh names

/// A fresh random name for a transaction, a revision or a file that is written aside.
pub fn fresh_id() -> (r: String)
    ensures
        r@.len() == 36,
        outside::uuid_text(r@),
        outside::parsed_uuid(r@) is Ok && outside::parsed_uuid(r@)->Ok_0 != 0,
{
    new_uuid_text()
}

// --------------------------------------------------------------- relative paths

/// Directory of a root session, relative to the home directory.
pub open spec fn root_path(id: Seq<char>) -> Seq<char> {
    "sessions/"@ + id
}

/// Directory of a child session, relative to the home directory.
pub open spec fn child_path(root: Seq<char>, child: Seq<char>) -> Seq<char> {
    "sessions/"@ + root + "/children/"@ + child
}

/// Directory of a root session, relative to the home directory.
pub fn root_rel_path(session_id: &str) -> (r: String)
    ensures
        r@ == root_path(session_id@),
{
    join2("sessions/", session_id)
}

/// Directory of a child session, relative to the home directory.
pub fn child_rel_path(root_id: &str, child_id: &str) -> (r: String)
    ensures
        r@ == child_path(root_id@, child_id@),
{
    join4("sessions/", root_id, "/children/", child_id)
}

// ------------------------------------------------------------------- file names

/// The last component that names something.
pub open spec fn last_component(parts: Seq<Seq<char>>) -> Option<Seq<char>>
    decreases parts.len(),
{
    if parts.len() == 0 {
        None
    } else if parts.last().len() == 0 || parts.last() == "."@ {
        last_component(parts.drop_last())
    } else if parts.last() == ".."@ {
        None
    } else {
        Some(parts.last())
    }
}

/// The file name at the end of a path.
pub open spec fn name_of(path: Seq<char>) -> Option<Seq<char>> {
    last_component(text::pieces(path, '/'))
}

/// The index of the last dot of a name, or -1.
pub open spec fn last_dot(name: Seq<char>) -> int
    decreases name.len(),
{
    if name.len() == 0 {
        -1
    } else if name.last() == '.' {
        name.len() - 1
    } else {
        last_dot(name.drop_last())
    }
}

/// What stands before the last dot of a file name, a leading dot aside.
pub open spec fn stem_of(path: Seq<char>) -> Option<Seq<char>> {
    match name_of(path) {
        None => None,
        Some(name) => if last_dot(name) <= 0 {
            Some(name)
        } else {
            Some(name.subrange(0, last_dot(name)))
        },
    }
}

/// What stands behind the last dot of a file name, a leading dot aside.
pub open spec fn extension_of(path: Seq<char>) -> Option<Seq<char>> {
    match name_of(path) {
        None => None,
        Some(name) => if last_dot(name) <= 0 {
            None
        } else {
            Some(name.subrange(last_dot(name) + 1, name.len() as int))
        },
    }
}

/// The file name at the end of a path.
pub fn file_name(path: &str) -> (r: Option<String>)
    ensures
        crate::session::opt_text(r) == name_of(path@),
{
    let parts = split(path, '/');
    let mut n: usize = parts.len();
    assert(text::texts(parts@).take(n as int) =~= text::texts(parts@));
    while n > 0
        invariant
            n <= parts.len(),
            text::texts(parts@) == text::pieces(path@, '/'),
            last_component(text::texts(parts@).take(n as int)) == name_of(path@),
        decreases n,
    {
        let part = &parts[n - 1];
        let ghost head = text::texts(parts@).take(n as int);
        assert(head.last() == part@);
        assert(head.drop_last() =~= text::texts(parts@).take(n - 1));
        if !(part.as_str().is_empty() || same_text(part, ".")) {
            if same_text(part, "..") {
                return None;
            }
            return Some(part.clone());
        }
        n = n - 1;
    }
    None
}

proof fn lemma_last_dot(name: Seq<char>)
    ensures
        -1 <= last_dot(name) < name.len(),
    decreases name.len(),
{
    if name.len() > 0 && name.last() != '.' {
        lemma_last_dot(name.drop_last());
    }
}

/// One more than the index of the last dot.
fn after_last_dot(name: &str) -> (r: usize)
    ensures
        r == last_dot(name@) + 1,
        r <= name@.len(),
{
    let v = chars_of(name);
    let mut n: usize = v.len();
    assert(name@.take(n as int) =~= name@);
    while n > 0 && v[n - 1] != '.'
        invariant
            v@ == name@,
            n <= v.len(),
            last_dot(name@.take(n as int)) == last_dot(name@),
        decreases n,
    {
        assert(name@.take(n as int).drop_last() =~= name@.take(n - 1));
        n = n - 1;
    }
    proof {
        lemma_last_dot(name@.take(n as int));
    }
    n
}

/// What stands before the last dot of a file name, a leading dot aside.
pub fn file_stem(path: &str) -> (r: Option<String>)
    ensures
        crate::session::opt_text(r) == stem_of(path@),
{
    match file_name(path) {
        None => None,
        Some(name) => {
            let n: usize = after_last_dot(&name);
            if n <= 1 {
                Some(name)
            } else {
                Some(name.as_str().substring_char(0, n - 1).to_owned())
            }
        },
    }
}

/// What stands behind the last dot of a file name, a leading dot aside.
pub fn extension(path: &str) -> (r: Option<String>)
    ensures
        crate::session::opt_text(r) == extension_of(path@),
{
    match file_name(path) {
        None => None,
        Some(name) => {
            let n: usize = after_last_dot(&name);
            if n <= 1 {
                None
            } else {
                let len: usize = name.as_str().unicode_len();
                Some(name.as_str().substring_char(n, len).to_owned())
            }
        },
    }
}

// ------------------------------------------------------------------- tombstones

/// The name under which a file of a stem is kept out of use, told from others by a token.
pub open spec fn tombstone_of(stem: Seq<char>, token: Seq<char>) -> Seq<char> {
    stem + ".removed"@ + "."@ + token
}

/// Whether a name is one under which a file of a stem is kept out of use.
pub open spec fn is_tombstone(name: Seq<char>, stem: Seq<char>) -> bool {
    exists|token: Seq<char>|
        token.len() == 36 && outside::uuid_text(token) && name == #[trigger] tombstone_of(
            stem,
            token,
        )
}

/// A fresh name under which a recovery marker is kept out of use until it is removed; a path
/// that names no file has none. Which of the names comes is chance.
pub fn tombstone_name(marker: &str) -> (r: Option<String>)
    ensures
        r is Some <==> stem_of(marker@) is Some,
        r is Some ==> is_tombstone(r->0@, stem_of(marker@)->0),
{
    match file_stem(marker) {
        None => None,
        Some(stem) => {
            let token = fresh_id();
            let name = join4(&stem, ".removed", ".", &token);
            assert(name@ == tombstone_of(stem@, token@));
            Some(name)
        },
    }
}

// ------------------------------------------------------------------------- laws

proof fn lemma_clean_pieces(s: Seq<char>, sep: char)
    ensures
        forall|i: int|
            0 <= i < text::pieces(s, sep).len() ==> !(#[trigger] text::pieces(s, sep)[i]).contains(sep),
    decreases s.len(),
{
    crate::text::lemma_position(s, sep);
    let p = text::position(s, sep);
    if p < s.len() {
        let rest = s.subrange(p + 1, s.len() as int);
        lemma_clean_pieces(rest, sep);
        let head = s.subrange(0, p);
        assert(!head.contains(sep)) by {
            if head.contains(sep) {
                let i = choose|i: int| 0 <= i < head.len() && head[i] == sep;
                assert(s[i] == sep);
            }
        }
        assert forall|i: int|
            0 <= i < text::pieces(s, sep).len() implies !(#[trigger] text::pieces(s, sep)[i]).contains(
            sep,
        ) by {
            if i > 0 {
                assert(text::pieces(s, sep)[i] == text::pieces(rest, sep)[i - 1]);
            }
        }
    }
}

proof fn lemma_last_component(parts: Seq<Seq<char>>)
    ensures
        last_component(parts) is Some ==> parts.contains(last_component(parts)->0)
            && last_component(parts)->0.len() > 0,
    decreases parts.len(),
{
    if parts.len() > 0 {
        lemma_last_component(parts.drop_last());
        assert(parts.contains(parts.last()));
        if last_component(parts.drop_last()) is Some {
            let x = last_component(parts.drop_last())->0;
            if parts.drop_last().contains(x) {
                let i = choose|i: int| 0 <= i < parts.drop_last().len() && parts.drop_last()[i] == x;
                assert(parts[i] == x);
            }
        }
    }
}

/// The stem of a file is not empty and holds no slash.
pub proof fn a_stem_is_clean(path: Seq<char>)
    ensures
        stem_of(path) is Some ==> stem_of(path)->0.len() > 0 && !stem_of(path)->0.contains('/'),
{
    if stem_of(path) is Some {
        let parts = text::pieces(path, '/');
        lemma_clean_pieces(path, '/');
        lemma_last_component(parts);
        let name = name_of(path)->0;
        let i = choose|i: int| 0 <= i < parts.len() && parts[i] == name;
        assert(!parts[i].contains('/'));
        lemma_last_dot(name);
        let stem = stem_of(path)->0;
        if stem.contains('/') {
            let j = choose|j: int| 0 <= j < stem.len() && stem[j] == '/';
            assert(name[j] == '/');
        }
    }
}

/// The extension of a tombstone is its token alone.
pub proof fn a_tombstone_ends_in_its_token(path: Seq<char>, token: Seq<char>)
    requires
        stem_of(path) is Some,
        token.len() > 0,
        outside::uuid_text(token),
    ensures
        extension_of(tombstone_of(stem_of(path)->0, token)) == Some(token),
{
    a_stem_is_clean(path);
    let stem = stem_of(path)->0;
    let longer = stem + ".removed"@;
    reveal_strlit(".removed");
    assert(!longer.contains('/')) by {
        if longer.contains('/') {
            let i = choose|i: int| 0 <= i < longer.len() && longer[i] == '/';
            if i < stem.len() {
                assert(stem[i] == '/');
            } else {
                assert(".removed"@[i - stem.len()] == '/');
            }
        }
    }
    assert(!token.contains('/') && !token.contains('.'));
    name_splits_at_its_dot(longer, token);
}

proof fn lemma_pieces_of_clean(s: Seq<char>, sep: char)
    requires
        !s.contains(sep),
    ensures
        text::pieces(s, sep) == seq![s],
{
    crate::text::lemma_position(s, sep);
}

/// A file named by a clean stem, a dot and a clean extension has that stem and extension.
pub proof fn name_splits_at_its_dot(stem: Seq<char>, ext: Seq<char>)
    requires
        stem.len() > 0,
        !stem.contains('/'),
        !ext.contains('/'),
        !ext.contains('.'),
        ext.len() > 0,
    ensures
        stem_of(stem + "."@ + ext) == Some(stem),
        extension_of(stem + "."@ + ext) == Some(ext),
{
    reveal_strlit(".");
    reveal_strlit("..");
    let name = stem + "."@ + ext;
    assert(!name.contains('/')) by {
        if name.contains('/') {
            let i = choose|i: int| 0 <= i < name.len() && name[i] == '/';
            if i < stem.len() {
                assert(stem[i] == '/');
            } else if i > stem.len() {
                assert(ext[i - stem.len() - 1] == '/');
            }
        }
    }
    lemma_pieces_of_clean(name, '/');
    let parts = text::pieces(name, '/');
    assert(parts.last() == name);
    assert(name.len() >= 3);
    lemma_dot_at(name, stem.len() as int);
    assert(name.subrange(0, stem.len() as int) =~= stem);
    assert(name.subrange((stem.len() + 1) as int, name.len() as int) =~= ext);
}

proof fn lemma_dot_at(name: Seq<char>, k: int)
    requires
        0 <= k < name.len(),
        name[k] == '.',
        forall|i: int| k < i < name.len() ==> name[i] != '.',
    ensures
        last_dot(name) == k,
    decreases name.len(),
{
    if k < name.len() - 1 {
        lemma_dot_at(name.drop_last(), k);
    }
}

/// The directory that a valid id names lies directly under `sessions/`: no part of it leads
/// out again.
pub proof fn valid_id_names_one_component(id: Seq<char>)
    requires
        valid_id(id),
    ensures
        text::pieces(id, '/') == seq![id],
        id != ".."@,
{
    lemma_pieces_of_clean(id, '/');
    reveal_strlit("..");
    if id == ".."@ {
        assert(id.subrange(0, 2) =~= ".."@);
        assert(crate::text::occurs_at(id, ".."@, 0));
    }
}

/// An id is accepted exactly where it is not empty and holds no slash, no backslash and no two dots
/// in a row; else it is refused by a text that names it.
pub proof fn which_ids_are_accepted(id: Seq<char>)
    ensures
        id_check(id) is Ok <==> id.len() > 0 && (forall|i: int|
            0 <= i < id.len() ==> #[trigger] id[i] != '/' && id[i] != '\\') && (forall|i: int|
            0 <= i < id.len() - 1 ==> !(#[trigger] id[i] == '.' && id[i + 1] == '.')),
        id_check(id) is Err ==> id_check(id)->Err_0.kind == ErrorKind::Other
            && id_check(id)->Err_0.message == "invalid session id: "@ + id,
{
    reveal_strlit("..");
    let clean = (forall|i: int| 0 <= i < id.len() ==> #[trigger] id[i] != '/' && id[i] != '\\') && (
    forall|i: int| 0 <= i < id.len() - 1 ==> !(#[trigger] id[i] == '.' && id[i + 1] == '.'));
    if valid_id(id) {
        assert forall|i: int| 0 <= i < id.len() implies #[trigger] id[i] != '/' && id[i] != '\\' by {
            if id[i] == '/' {
                assert(id.contains('/'));
            }
            if id[i] == '\\' {
                assert(id.contains('\\'));
            }
        }
        assert forall|i: int| 0 <= i < id.len() - 1 implies !(#[trigger] id[i] == '.' && id[i + 1]
            == '.') by {
            if id[i] == '.' && id[i + 1] == '.' {
                assert(id.subrange(i, i + 2) =~= ".."@);
                assert(text::occurs_at(id, ".."@, i));
            }
        }
    }
    if id.len() > 0 && clean {
        assert(!id.contains('/'));
        assert(!id.contains('\\'));
        if text::has_text(id, ".."@) {
            let i = choose|i: int| 0 <= i && #[trigger] text::occurs_at(id, ".."@, i);
            assert(id.subrange(i, i + 2)[0] == '.');
            assert(id.subrange(i, i + 2)[1] == '.');
            assert(id[i] == '.' && id[i + 1] == '.');
        }
    }
}

/// A root stands under `sessions`, a child under the `children` of its root; different roots stand at
/// different places.
pub proof fn where_sessions_stand(a: Seq<char>, b: Seq<char>, child: Seq<char>)
    ensures
        root_path(a) == "sessions/"@ + a,
        child_path(a, child) == "sessions/"@ + a + "/children/"@ + child,
        root_path(a) == root_path(b) ==> a == b,
        RUNTIME_SIDECAR_FILE@ == "runtime.json"@ && SESSION_FILE@ == "session.json"@,
        SEARCH_INDEX_REVISION_FILE@ == ".search-index-revision"@,
{
    if root_path(a) == root_path(b) {
        let n = "sessions/"@.len() as int;
        assert(a =~= root_path(a).skip(n));
        assert(b =~= root_path(b).skip(n));
    }
}

proof fn lemma_last_piece(d: Seq<char>, name: Seq<char>, sep: char)
    requires
        !name.contains(sep),
    ensures
        text::pieces(d + seq![sep] + name, sep).len() > 0,
        text::pieces(d + seq![sep] + name, sep).last() == name,
    decreases d.len(),
{
    let s = d + seq![sep] + name;
    text::lemma_position(s, sep);
    let p = text::position(s, sep);
    assert(s[d.len() as int] == sep);
    assert(p <= d.len());
    let rest = s.subrange(p + 1, s.len() as int);
    if p < d.len() {
        let e = d.subrange(p + 1, d.len() as int);
        assert(rest =~= e + seq![sep] + name);
        lemma_last_piece(e, name, sep);
    } else {
        assert(rest =~= name);
        lemma_pieces_of_clean(name, sep);
    }
}

/// The name at the end of a path is what stands behind its last slash, where that names something; a
/// name alone is its own.
pub proof fn a_path_ends_in_its_name(directory: Seq<char>, name: Seq<char>)
    requires
        name.len() > 0,
        !name.contains('/'),
        name != "."@,
        name != ".."@,
    ensures
        name_of(directory + "/"@ + name) == Some(name),
        name_of(name) == Some(name),
{
    reveal_strlit("/");
    assert("/"@ =~= seq!['/']);
    lemma_last_piece(directory, name, '/');
    lemma_pieces_of_clean(name, '/');
    assert(text::pieces(name, '/').last() == name);
}

} // verus!
