//! Image attachments of a session: what is decoded, what it is named, and how it is found again.
use crate::error::{ErrorKind, ErrorView, StorageError};
use crate::error;
use crate::outside::{decode_base64, new_uuid_text, sha256};
use crate::outside;
use crate::paths::validate_session_id;
use crate::paths;
use crate::save::session_rel_path;
use crate::save;
use crate::session::{Session, SessionView};
use crate::session;
use crate::text::{contains_text, find_char, join2, join3, join4, lowers_to, split, starts_with, strip_prefix, trim, trim_end_newlines};
use crate::text;
use vstd::prelude::*;

verus! {

// ---------------------------------------------------------------------------- media types

/// The file extension of an image type, whatever its case and the white space around it.
pub open spec fn extension_for(mime: Seq<char>) -> Option<Seq<char>> {
    let m = text::lowered(text::trimmed(mime));
    if m == "image/png"@ {
        Some("png"@)
    } else if m == "image/jpeg"@ {
        Some("jpg"@)
    } else if m == "image/webp"@ {
        Some("webp"@)
    } else if m == "image/gif"@ {
        Some("gif"@)
    } else if m == "image/bmp"@ {
        Some("bmp"@)
    } else {
        None
    }
}

/// What an optional text slice holds.
pub open spec fn opt_str(o: Option<&str>) -> Option<Seq<char>> {
    match o {
        Some(s) => Some(s@),
        None => None,
    }
}

/// The file extension of an image type.
pub fn mime_to_extension(mime: &str) -> (r: Option<&'static str>)
    ensures
        opt_str(r) == extension_for(mime@),
{
    let m = trim(mime);
    if lowers_to(m, "image/png") {
        Some("png")
    } else if lowers_to(m, "image/jpeg") {
        Some("jpg")
    } else if lowers_to(m, "image/webp") {
        Some("webp")
    } else if lowers_to(m, "image/gif") {
        Some("gif")
    } else if lowers_to(m, "image/bmp") {
        Some("bmp")
    } else {
        None
    }
}

/// The image type of a file extension, whatever its case and the white space around it.
pub open spec fn mime_for(ext: Seq<char>) -> Option<Seq<char>> {
    let x = text::lowered(text::trimmed(ext));
    if x == "png"@ {
        Some("image/png"@)
    } else if x == "jpg"@ || x == "jpeg"@ {
        Some("image/jpeg"@)
    } else if x == "webp"@ {
        Some("image/webp"@)
    } else if x == "gif"@ {
        Some("image/gif"@)
    } else if x == "bmp"@ {
        Some("image/bmp"@)
    } else {
        None
    }
}

/// The image type of a file extension.
pub fn extension_to_mime(ext: &str) -> (r: Option<&'static str>)
    ensures
        opt_str(r) == mime_for(ext@),
{
    let x = trim(ext);
    if lowers_to(x, "png") {
        Some("image/png")
    } else if lowers_to(x, "jpg") || lowers_to(x, "jpeg") {
        Some("image/jpeg")
    } else if lowers_to(x, "webp") {
        Some("image/webp")
    } else if lowers_to(x, "gif") {
        Some("image/gif")
    } else if lowers_to(x, "bmp") {
        Some("image/bmp")
    } else {
        None
    }
}

// ------------------------------------------------------------------------------- data URLs

/// The type and the payload of a base64 data URL: `data:`, a header that names the encoding, a
/// comma, the payload.
pub open spec fn data_url(url: Seq<char>) -> Option<(Seq<char>, Seq<char>)> {
    let t = text::trimmed(url);
    if !text::has_prefix(t, "data:"@) {
        None
    } else {
        let rest = t.subrange("data:"@.len() as int, t.len() as int);
        let comma = text::position(rest, ',');
        if comma >= rest.len() {
            None
        } else {
            let header = rest.subrange(0, comma);
            if !text::has_text(header, ";base64"@) {
                None
            } else {
                Some(
                    (
                        text::trimmed(text::pieces(header, ';')[0]),
                        text::trimmed(rest.subrange(comma + 1, rest.len() as int)),
                    ),
                )
            }
        }
    }
}

/// What a pair of texts holds.
pub open spec fn opt_pair(o: Option<(String, String)>) -> Option<(Seq<char>, Seq<char>)> {
    match o {
        Some(p) => Some((p.0@, p.1@)),
        None => None,
    }
}

/// The type and the payload of a base64 data URL.
pub fn parse_data_url_base64(url: &str) -> (r: Option<(String, String)>)
    ensures
        opt_pair(r) == data_url(url@),
{
    let t = trim(url);
    let rest = match strip_prefix(t, "data:") {
        None => {
            return None;
        },
        Some(rest) => rest,
    };
    let n: usize = rest.unicode_len();
    let comma: usize = find_char(rest, ',');
    if comma >= n {
        return None;
    }
    let header = rest.substring_char(0, comma);
    if !contains_text(header, ";base64") {
        return None;
    }
    let parts = split(header, ';');
    proof {
        assert(text::pieces(header@, ';').len() > 0);
        assert(text::texts(parts@).len() == parts.len());
        assert(text::texts(parts@)[0] == parts@[0]@);
    }
    let mime = trim(&parts[0]).to_owned();
    let data = trim(rest.substring_char(comma + 1, n)).to_owned();
    Some((mime, data))
}

/// The type and the payload of an image: those of a data URL, or else the payload as it is, of
/// the hinted type.
pub open spec fn image_source_of(raw: Seq<char>, hint: Option<Seq<char>>) -> (Seq<char>, Seq<char>) {
    match data_url(raw) {
        Some(p) => p,
        None => (
            text::trimmed(
                match hint {
                    Some(h) => h,
                    None => "image/png"@,
                },
            ),
            text::trimmed(raw),
        ),
    }
}

/// The type and the payload of an image.
pub fn image_source(raw_base64_or_data_url: &str, mime_hint: Option<&str>) -> (r: (String, String))
    ensures
        (r.0@, r.1@) == image_source_of(raw_base64_or_data_url@, opt_str(mime_hint)),
{
    match parse_data_url_base64(raw_base64_or_data_url) {
        Some(p) => p,
        None => {
            let hint = match mime_hint {
                Some(h) => h,
                None => "image/png",
            };
            (trim(hint).to_owned(), trim(raw_base64_or_data_url).to_owned())
        },
    }
}

// --------------------------------------------------------------------------------- writing

/// An attachment to be written.
pub struct AttachmentPlan {
    pub attachment_id: String,
    /// The session's directory.
    pub rel_path: String,
    pub file_name: String,
    pub bytes: Vec<u8>,
    /// The URL that messages refer to the attachment by.
    pub url: String,
}

/// What an [`AttachmentPlan`] holds.
#[verifier::ext_equal]
pub struct AttachmentView {
    pub attachment_id: Seq<char>,
    pub rel_path: Seq<char>,
    pub file_name: Seq<char>,
    pub bytes: Seq<u8>,
    pub url: Seq<char>,
}

impl View for AttachmentPlan {
    type V = AttachmentView;

    open spec fn view(&self) -> AttachmentView {
        AttachmentView {
            attachment_id: self.attachment_id@,
            rel_path: self.rel_path@,
            file_name: self.file_name@,
            bytes: self.bytes@,
            url: self.url@,
        }
    }
}

/// The attachment that an image of a type becomes, where `decoded` is what decoding it gave.
pub open spec fn attachment_of(
    s: SessionView,
    mime: Seq<char>,
    decoded: Result<Seq<u8>, Seq<char>>,
    attachment_id: Seq<char>,
) -> Result<AttachmentView, ErrorView> {
    match decoded {
        Err(e) => Err(
            error::plain_error(ErrorKind::Other, "invalid base64 image data: "@ + e),
        ),
        Ok(bytes) => match save::session_place(s) {
            Err(e) => Err(e),
            Ok(rel_path) => Ok(
                AttachmentView {
                    attachment_id,
                    rel_path,
                    file_name: attachment_id + "."@ + match extension_for(mime) {
                        Some(x) => x,
                        None => "bin"@,
                    },
                    bytes,
                    url: "bamboo-attachment://"@ + s.id + "/"@ + attachment_id,
                },
            ),
        },
    }
}

/// What decoding an image gave.
pub open spec fn decoded_view(r: Result<Vec<u8>, String>) -> Result<Seq<u8>, Seq<char>> {
    match r {
        Ok(v) => Ok(v@),
        Err(e) => Err(e@),
    }
}

/// Decides what an image of a type becomes under an id, given what decoding it gave.
pub fn image_attachment(
    session: &Session,
    mime: &str,
    decoded: Result<Vec<u8>, String>,
    attachment_id: String,
) -> (r: Result<AttachmentPlan, StorageError>)
    ensures
        error::result_view(r) == attachment_of(
            session@,
            mime@,
            decoded_view(decoded),
            attachment_id@,
        ),
{
    let bytes = match decoded {
        Err(e) => {
            return Err(
                StorageError::new(ErrorKind::Other, join2("invalid base64 image data: ", &e)),
            );
        },
        Ok(b) => b,
    };
    let ext = match mime_to_extension(mime) {
        Some(x) => x,
        None => "bin",
    };
    let rel_path = match session_rel_path(session) {
        Err(e) => {
            return Err(e);
        },
        Ok(p) => p,
    };
    let file_name = join3(&attachment_id, ".", ext);
    let url = join4("bamboo-attachment://", &session.id, "/", &attachment_id);
    Ok(AttachmentPlan { attachment_id, rel_path, file_name, bytes, url })
}

/// Decodes an image and decides what it becomes, under a fresh id.
pub fn write_image_attachment(
    session: &Session,
    raw_base64_or_data_url: &str,
    mime_hint: Option<&str>,
) -> (r: Result<AttachmentPlan, StorageError>)
    ensures
        exists|id: Seq<char>|
            outside::uuid_text(id) && id.len() == 36 && error::result_view(r) == #[trigger] attachment_of(
                session@,
                image_source_of(raw_base64_or_data_url@, opt_str(mime_hint)).0,
                outside::base64_decoded(image_source_of(raw_base64_or_data_url@, opt_str(mime_hint)).1),
                id,
            ),
{
    let (mime, data) = image_source(raw_base64_or_data_url, mime_hint);
    let decoded = decode_base64(&data);
    let id = new_uuid_text();
    let ghost chosen = id@;
    let ghost source = image_source_of(raw_base64_or_data_url@, opt_str(mime_hint));
    assert(decoded_view(decoded) == outside::base64_decoded(source.1));
    let r = image_attachment(session, &mime, decoded, id);
    assert(error::result_view(r) == attachment_of(
        session@,
        source.0,
        outside::base64_decoded(source.1),
        chosen,
    ));
    r
}

// --------------------------------------------------------------------------------- reading

/// Whether a file is the attachment of an id: the id, a dot, and something behind it.
pub open spec fn names_attachment(name: Seq<char>, id: Seq<char>) -> bool {
    text::has_prefix(name, id) && name.len() > id.len() + 1 && name[id.len() as int] == '.'
}

/// The type of an attachment, by what stands behind the last dot of its name.
pub open spec fn attachment_mime(name: Seq<char>) -> Seq<char> {
    match mime_for(text::pieces(name, '.').last()) {
        Some(m) => m,
        None => "application/octet-stream"@,
    }
}

/// The first attachment of an id among some names, and its type.
pub open spec fn found_attachment(names: Seq<Seq<char>>, id: Seq<char>) -> Option<
    (Seq<char>, Seq<char>),
>
    decreases names.len(),
{
    if names.len() == 0 {
        None
    } else if names_attachment(names[0], id) {
        Some((names[0], attachment_mime(names[0])))
    } else {
        found_attachment(names.subrange(1, names.len() as int), id)
    }
}

fn is_attachment(name: &str, id: &str) -> (r: bool)
    ensures
        r == names_attachment(name@, id@),
{
    let n: usize = name.unicode_len();
    let m: usize = id.unicode_len();
    if !starts_with(name, id) {
        return false;
    }
    if n <= m || n - m <= 1 {
        return false;
    }
    name.get_char(m) == '.'
}

fn mime_of(name: &str) -> (r: String)
    ensures
        r@ == attachment_mime(name@),
{
    let parts = split(name, '.');
    proof {
        assert(text::pieces(name@, '.').len() > 0);
        assert(text::texts(parts@).len() == parts.len());
        assert(text::texts(parts@)[parts.len() - 1] == parts@[parts.len() - 1]@);
    }
    let ext = &parts[parts.len() - 1];
    match extension_to_mime(ext) {
        Some(m) => m.to_owned(),
        None => "application/octet-stream".to_owned(),
    }
}

/// What looking for an attachment gave.
pub open spec fn read_view(r: Result<Option<(String, String)>, StorageError>) -> Result<
    Option<(Seq<char>, Seq<char>)>,
    ErrorView,
> {
    match r {
        Ok(o) => Ok(opt_pair(o)),
        Err(e) => Err(e@),
    }
}

/// What looking for an attachment comes to: `names` are the files that were listed, and `failure`
/// is what ended the listing early.
pub open spec fn attachment_lookup(
    session_id: Seq<char>,
    attachment_id: Seq<char>,
    names: Seq<Seq<char>>,
    failure: Option<ErrorView>,
) -> Result<Option<(Seq<char>, Seq<char>)>, ErrorView> {
    if paths::id_check(session_id) is Err {
        Err(paths::id_check(session_id)->Err_0)
    } else if paths::id_check(attachment_id) is Err {
        Err(paths::id_check(attachment_id)->Err_0)
    } else {
        match found_attachment(names, attachment_id) {
            Some(p) => Ok(Some(p)),
            None => match failure {
                Some(e) => Err(e),
                None => Ok(None),
            },
        }
    }
}

/// Finds the file and the type of an attachment among the files of its session.
pub fn read_attachment(
    session_id: &str,
    attachment_id: &str,
    names: &Vec<String>,
    failure: &Option<StorageError>,
) -> (r: Result<Option<(String, String)>, StorageError>)
    ensures
        read_view(r) == attachment_lookup(
            session_id@,
            attachment_id@,
            text::texts(names@),
            crate::task_protocol::opt_error(*failure),
        ),
{
    match validate_session_id(session_id) {
        Err(e) => {
            return Err(e);
        },
        Ok(_) => {},
    }
    match validate_session_id(attachment_id) {
        Err(e) => {
            return Err(e);
        },
        Ok(_) => {},
    }
    let ghost all = text::texts(names@);
    let mut i: usize = 0;
    assert(all.subrange(0, all.len() as int) =~= all);
    while i < names.len()
        invariant
            i <= names.len(),
            all == text::texts(names@),
            paths::id_check(session_id@) is Ok,
            paths::id_check(attachment_id@) is Ok,
            found_attachment(all, attachment_id@) == found_attachment(
                all.subrange(i as int, all.len() as int),
                attachment_id@,
            ),
        decreases names.len() - i,
    {
        let ghost rest = all.subrange(i as int, all.len() as int);
        assert(rest[0] == names@[i as int]@);
        assert(rest.subrange(1, rest.len() as int) =~= all.subrange(i + 1, all.len() as int));
        if is_attachment(&names[i], attachment_id) {
            return Ok(Some((names[i].clone(), mime_of(&names[i]))));
        }
        i = i + 1;
    }
    match failure {
        Some(e) => Err(e.clone()),
        None => Ok(None),
    }
}

// ------------------------------------------------------------------------------- lock names

/// A lower-case hexadecimal digit.
pub open spec fn hex_digit(n: int) -> char {
    "0123456789abcdef"@[n]
}

/// The bytes as lower-case hexadecimal digits, two for each.
pub open spec fn hex_of(bytes: Seq<u8>) -> Seq<char>
    decreases bytes.len(),
{
    if bytes.len() == 0 {
        Seq::empty()
    } else {
        hex_of(bytes.drop_last()).push(hex_digit(bytes.last() as int / 16)).push(
            hex_digit(bytes.last() as int % 16),
        )
    }
}

fn append_digit(out: &mut String, n: u8)
    requires
        n < 16,
    ensures
        final(out)@ == old(out)@.push(hex_digit(n as int)),
{
    proof {
        reveal_strlit("0123456789abcdef");
    }
    let k: usize = n as usize;
    out.append("0123456789abcdef".substring_char(k, k + 1));
    assert(out@ =~= old(out)@.push(hex_digit(n as int)));
}

/// The bytes as lower-case hexadecimal digits.
pub fn hex_text(bytes: &Vec<u8>) -> (r: String)
    ensures
        r@ == hex_of(bytes@),
{
    let mut out: String = String::new();
    let mut i: usize = 0;
    assert(bytes@.take(0) =~= Seq::<u8>::empty());
    while i < bytes.len()
        invariant
            i <= bytes.len(),
            out@ == hex_of(bytes@.take(i as int)),
        decreases bytes.len() - i,
    {
        assert(bytes@.take(i + 1).drop_last() =~= bytes@.take(i as int));
        append_digit(&mut out, bytes[i] / 16);
        append_digit(&mut out, bytes[i] % 16);
        i = i + 1;
    }
    assert(bytes@.take(bytes@.len() as int) =~= bytes@);
    out
}

/// The file that serializes the writers of a session across processes: its name is a digest, so
/// that no session id becomes a path.
pub fn session_write_lock_path(session_id: &str) -> (r: String)
    ensures
        r@ == ".session-write-locks/"@ + hex_of(outside::sha256_of(session_id@)) + ".lock"@,
{
    join3(".session-write-locks/", &hex_text(&sha256(session_id)), ".lock")
}

// ------------------------------------------------------------------------------ token usage

/// The name of the log of token usage in a session's directory.
pub const TOKEN_USAGE_FILE: &'static str = "token-usage.jsonl";

/// What a token-usage record comes to: the file that it is appended to and its line, or nothing
/// for a session that was never saved.
pub open spec fn token_usage_append(
    session_id: Seq<char>,
    rel_path: Option<Seq<char>>,
    json_line: Seq<char>,
) -> Result<Option<(Seq<char>, Seq<char>)>, ErrorView> {
    if paths::id_check(session_id) is Err {
        Err(paths::id_check(session_id)->Err_0)
    } else {
        match rel_path {
            None => Ok(None),
            Some(rel) => Ok(
                Some(
                    (
                        rel + "/"@ + TOKEN_USAGE_FILE@,
                        text::without_final_newlines(json_line) + "\n"@,
                    ),
                ),
            ),
        }
    }
}

/// Decides where a token-usage record is appended, as exactly one line.
pub fn append_token_usage_record(
    session_id: &str,
    rel_path: &Option<String>,
    json_line: &str,
) -> (r: Result<Option<(String, String)>, StorageError>)
    ensures
        read_view(r) == token_usage_append(session_id@, session::opt_text(*rel_path), json_line@),
{
    match validate_session_id(session_id) {
        Err(e) => {
            return Err(e);
        },
        Ok(_) => {},
    }
    match rel_path {
        None => Ok(None),
        Some(rel) => Ok(
            Some(
                (
                    join3(rel, "/", TOKEN_USAGE_FILE),
                    join2(trim_end_newlines(json_line), "\n"),
                ),
            ),
        ),
    }
}

// ------------------------------------------------------------------------------------- laws

proof fn lemma_no_dot_is_one_piece(s: Seq<char>)
    requires
        forall|i: int| 0 <= i < s.len() ==> s[i] != '.',
    ensures
        text::pieces(s, '.') == seq![s],
{
    text::lemma_position(s, '.');
}

proof fn lemma_last_piece(a: Seq<char>, b: Seq<char>)
    requires
        forall|i: int| 0 <= i < a.len() ==> a[i] != '.',
        forall|i: int| 0 <= i < b.len() ==> b[i] != '.',
    ensures
        text::pieces(a + "."@ + b, '.').last() == b,
{
    reveal_strlit(".");
    let s = a + "."@ + b;
    text::lemma_position(s, '.');
    assert(s[a.len() as int] == '.');
    let p = text::position(s, '.');
    if p < a.len() {
        assert(s[p] == a[p]);
    }
    assert(p == a.len());
    assert(s.subrange(p + 1, s.len() as int) =~= b);
    lemma_no_dot_is_one_piece(b);
    assert(text::pieces(s, '.') =~= seq![s.subrange(0, p)] + seq![b]);
}

proof fn lemma_known_extension(x: Seq<char>)
    requires
        x == "png"@ || x == "jpg"@ || x == "webp"@ || x == "gif"@ || x == "bmp"@ || x == "bin"@,
    ensures
        text::lowered(text::trimmed(x)) == x,
        forall|i: int| 0 <= i < x.len() ==> x[i] != '.',
        x.len() > 0,
{
    reveal_strlit("png");
    reveal_strlit("jpg");
    reveal_strlit("webp");
    reveal_strlit("gif");
    reveal_strlit("bmp");
    reveal_strlit("bin");
    assert(!text::white_space(x.last()));
    assert(!text::white_space(x[0]));
    assert(text::trimmed(x) == x);
    assert(text::lowered(x) =~= x);
}

/// An image that was written under a known type is found again by its id among any files, with
/// that very type; one of another type is found as plain bytes.
pub proof fn a_written_image_is_found_again(
    s: SessionView,
    mime: Seq<char>,
    bytes: Seq<u8>,
    id: Seq<char>,
    before: Seq<Seq<char>>,
    after: Seq<Seq<char>>,
)
    requires
        outside::uuid_text(id),
        attachment_of(s, mime, Ok(bytes), id) is Ok,
        forall|i: int| 0 <= i < before.len() ==> !names_attachment(#[trigger] before[i], id),
    ensures
        ({
            let name = attachment_of(s, mime, Ok(bytes), id)->Ok_0.file_name;
            found_attachment(before.push(name) + after, id) == Some(
                (
                    name,
                    match extension_for(mime) {
                        Some(_) => text::lowered(text::trimmed(mime)),
                        None => "application/octet-stream"@,
                    },
                ),
            )
        }),
    decreases before.len(),
{
    let name = attachment_of(s, mime, Ok(bytes), id)->Ok_0.file_name;
    let ext = match extension_for(mime) {
        Some(x) => x,
        None => "bin"@,
    };
    let all = before.push(name) + after;
    if before.len() > 0 {
        assert(all[0] == before[0]);
        let rest = before.subrange(1, before.len() as int);
        assert forall|i: int| 0 <= i < rest.len() implies !names_attachment(
            #[trigger] rest[i],
            id,
        ) by {
            assert(rest[i] == before[i + 1]);
        }
        a_written_image_is_found_again(s, mime, bytes, id, rest, after);
        assert(all.subrange(1, all.len() as int) =~= rest.push(name) + after);
    } else {
        assert(all[0] == name);
        reveal_strlit(".");
        lemma_known_extension(ext);
        assert forall|i: int| 0 <= i < id.len() implies id[i] != '.' by {
            assert(outside::uuid_char(id[i]));
        }
        lemma_last_piece(id, ext);
        assert(name == id + "."@ + ext);
        assert(name.subrange(0, id.len() as int) =~= id);
        assert(names_attachment(name, id));
        reveal_strlit("png");
        reveal_strlit("jpg");
        reveal_strlit("jpeg");
        reveal_strlit("webp");
        reveal_strlit("gif");
        reveal_strlit("bmp");
        reveal_strlit("bin");
        assert("png"@[0] == 'p' && "jpg"@[0] == 'j' && "jpeg"@[0] == 'j' && "webp"@[0] == 'w'
            && "gif"@[0] == 'g' && "bmp"@[0] == 'b' && "bin"@[0] == 'b');
        assert("bmp"@[1] == 'm' && "bin"@[1] == 'i' && "jpg"@.len() == 3 && "jpeg"@.len() == 4);
    }
}

/// The name of a lock file holds nothing but hexadecimal digits, two for each byte of the digest,
/// whatever the session id holds.
pub proof fn lock_names_are_hexadecimal(bytes: Seq<u8>)
    ensures
        hex_of(bytes).len() == 2 * bytes.len(),
        forall|i: int|
            0 <= i < hex_of(bytes).len() ==> '0' <= #[trigger] hex_of(bytes)[i] <= '9' || 'a'
                <= hex_of(bytes)[i] <= 'f',
    decreases bytes.len(),
{
    reveal_strlit("0123456789abcdef");
    if bytes.len() > 0 {
        lock_names_are_hexadecimal(bytes.drop_last());
        let b = bytes.last() as int;
        assert(0 <= b / 16 < 16 && 0 <= b % 16 < 16);
        assert(hex_of(bytes) == hex_of(bytes.drop_last()).push(hex_digit(b / 16)).push(
            hex_digit(b % 16),
        ));
    }
}

proof fn lemma_no_final_newline(s: Seq<char>)
    ensures
        text::without_final_newlines(s).len() > 0 ==> text::without_final_newlines(s).last()
            != '\n',
    decreases s.len(),
{
    if s.len() > 0 && s.last() == '\n' {
        lemma_no_final_newline(s.drop_last());
    }
}

/// However a record was framed, its line ends in exactly one line feed.
pub proof fn a_record_ends_in_one_line_feed(
    session_id: Seq<char>,
    rel_path: Seq<char>,
    json_line: Seq<char>,
)
    requires
        paths::id_check(session_id) is Ok,
    ensures
        ({
            let pair = token_usage_append(session_id, Some(rel_path), json_line)->Ok_0->0;
            let line = pair.1;
            &&& line.len() > 0 && line.last() == '\n'
            &&& line.len() > 1 ==> line[line.len() - 2] != '\n'
        }),
{
    reveal_strlit("\n");
    lemma_no_final_newline(json_line);
}

/// Each image type has its extension and each extension its image type, whatever the case and the
/// white space around them; nothing else has one.
pub proof fn image_types_and_extensions(mime: Seq<char>, name: Seq<char>)
    ensures
        text::lowered(text::trimmed(mime)) == "image/png"@ ==> extension_for(mime) == Some("png"@),
        text::lowered(text::trimmed(mime)) == "image/jpeg"@ ==> extension_for(mime) == Some("jpg"@),
        text::lowered(text::trimmed(mime)) == "image/webp"@ ==> extension_for(mime) == Some("webp"@),
        text::lowered(text::trimmed(mime)) == "image/gif"@ ==> extension_for(mime) == Some("gif"@),
        text::lowered(text::trimmed(mime)) == "image/bmp"@ ==> extension_for(mime) == Some("bmp"@),
        text::lowered(
            text::trimmed(mime),
        ) != "image/png"@ && text::lowered(
            text::trimmed(mime),
        ) != "image/jpeg"@ && text::lowered(
            text::trimmed(mime),
        ) != "image/webp"@ && text::lowered(
            text::trimmed(mime),
        ) != "image/gif"@ && text::lowered(
            text::trimmed(mime),
        ) != "image/bmp"@ ==> extension_for(mime) is None,
        text::lowered(text::trimmed(name)) == "png"@ ==> mime_for(name) == Some("image/png"@),
        text::lowered(text::trimmed(name)) == "jpg"@ ==> mime_for(name) == Some("image/jpeg"@),
        text::lowered(text::trimmed(name)) == "jpeg"@ ==> mime_for(name) == Some("image/jpeg"@),
        text::lowered(text::trimmed(name)) == "webp"@ ==> mime_for(name) == Some("image/webp"@),
        text::lowered(text::trimmed(name)) == "gif"@ ==> mime_for(name) == Some("image/gif"@),
        text::lowered(text::trimmed(name)) == "bmp"@ ==> mime_for(name) == Some("image/bmp"@),
        text::lowered(
            text::trimmed(name),
        ) != "png"@ && text::lowered(
            text::trimmed(name),
        ) != "jpg"@ && text::lowered(
            text::trimmed(name),
        ) != "jpeg"@ && text::lowered(
            text::trimmed(name),
        ) != "webp"@ && text::lowered(
            text::trimmed(name),
        ) != "gif"@ && text::lowered(
            text::trimmed(name),
        ) != "bmp"@ ==> mime_for(name) is None,
{
    reveal_strlit("image/png");
    reveal_strlit("image/jpeg");
    reveal_strlit("image/webp");
    reveal_strlit("image/gif");
    reveal_strlit("image/bmp");
    reveal_strlit("png");
    reveal_strlit("jpg");
    reveal_strlit("jpeg");
    reveal_strlit("webp");
    reveal_strlit("gif");
    reveal_strlit("bmp");
    assert("image/png"@[6] == 'p' && "image/jpeg"@[6] == 'j' && "image/webp"@[6] == 'w'
        && "image/gif"@[6] == 'g' && "image/bmp"@[6] == 'b');
    assert("png"@[0] == 'p' && "jpg"@[0] == 'j' && "jpeg"@[0] == 'j' && "webp"@[0] == 'w'
        && "gif"@[0] == 'g' && "bmp"@[0] == 'b');
    assert("jpg"@.len() == 3 && "jpeg"@.len() == 4);
}

/// A base64 data URL gives its type and its payload; a text that does not begin as a data URL gives
/// none.
pub proof fn a_data_url_gives_type_and_payload(
    url: Seq<char>,
    mime: Seq<char>,
    payload: Seq<char>,
)
    ensures
        text::trimmed(url) == "data:"@ + mime + ";base64,"@ + payload && !mime.contains(',')
            && !mime.contains(';') ==> data_url(url) == Some(
            (text::trimmed(mime), text::trimmed(payload)),
        ),
        !text::has_prefix(text::trimmed(url), "data:"@) ==> data_url(url) is None,
{
    let t = text::trimmed(url);
    if t == "data:"@ + mime + ";base64,"@ + payload && !mime.contains(',') && !mime.contains(';') {
        reveal_strlit("data:");
        reveal_strlit(";base64,");
        reveal_strlit(";base64");
        assert(t.subrange(0, 5) =~= "data:"@);
        let rest = t.subrange(5, t.len() as int);
        assert(rest =~= mime + ";base64,"@ + payload);
        let k = mime.len() as int + 7;
        assert(rest[k] == ',');
        assert forall|i: int| 0 <= i < k implies rest[i] != ',' by {
            if i < mime.len() {
                assert(rest[i] == mime[i]);
            } else {
                assert(rest[i] == ";base64,"@[i - mime.len()]);
            }
        }
        crate::text::lemma_position_is(rest, ',', k);
        let header = rest.subrange(0, k);
        assert(header =~= mime + ";base64"@);
        let n = mime.len() as int;
        assert(header.subrange(n, n + ";base64"@.len()) =~= ";base64"@);
        assert(text::occurs_at(header, ";base64"@, n));
        assert(header[n] == ';');
        assert forall|i: int| 0 <= i < n implies header[i] != ';' by {
            assert(header[i] == mime[i]);
        }
        crate::text::lemma_position_is(header, ';', n);
        assert(header.subrange(0, n) =~= mime);
        assert(text::pieces(header, ';')[0] == mime);
        assert(rest.subrange(k + 1, rest.len() as int) =~= payload);
    }
}

/// An image that is no data URL is taken as it is, of the hinted type or else as PNG.
pub proof fn an_image_may_come_bare(raw: Seq<char>, hint: Seq<char>)
    requires
        data_url(raw) is None,
    ensures
        ({
            let (mime, payload) = image_source_of(raw, Some(hint));
            mime == text::trimmed(hint) && payload == text::trimmed(raw)
        }),
        ({
            let (mime, payload) = image_source_of(raw, None);
            mime == text::trimmed("image/png"@) && payload == text::trimmed(raw)
        }),
{
}

/// What a data URL says of its type and payload goes before any hint.
pub proof fn a_data_url_overrules_the_hint(raw: Seq<char>, hint: Option<Seq<char>>)
    requires
        data_url(raw) is Some,
    ensures
        image_source_of(raw, hint) == data_url(raw)->0,
{
}

/// An image is written exactly where it could be decoded and its session has a place: its bytes as
/// they were decoded, under the session's directory, named by its id and the extension of its type,
/// and its address names session and id.
pub proof fn an_image_is_written_as_decoded(
    s: SessionView,
    mime: Seq<char>,
    decoded: Result<Seq<u8>, Seq<char>>,
    id: Seq<char>,
)
    ensures
        ({
            let r = attachment_of(s, mime, decoded, id);
            &&& r is Ok <==> decoded is Ok && save::session_place(s) is Ok
            &&& r is Ok ==> {
                let a = r->Ok_0;
                &&& decoded == Ok::<Seq<u8>, Seq<char>>(a.bytes)
                &&& save::session_place(s) == Ok::<Seq<char>, ErrorView>(a.rel_path)
                &&& a.attachment_id == id
                &&& a.url == "bamboo-attachment://"@ + s.id + "/"@ + id
                &&& extension_for(mime) is Some ==> a.file_name == id + "."@ + extension_for(
                    mime,
                )->0
                &&& extension_for(mime) is None ==> a.file_name == id + "."@ + "bin"@
            }
        }),
{
}

/// An attachment is found exactly where some file is named by its id, a dot and something behind
/// it; it is the first such file, whatever comes after it.
pub proof fn the_first_file_of_an_id_is_found(names: Seq<Seq<char>>, id: Seq<char>)
    ensures
        found_attachment(names, id) is None <==> forall|i: int|
            0 <= i < names.len() ==> !names_attachment(#[trigger] names[i], id),
        found_attachment(names, id) is Some ==> exists|i: int|
            0 <= i < names.len() && names_attachment(#[trigger] names[i], id) && found_attachment(
                names,
                id,
            ) == Some((names[i], attachment_mime(names[i]))) && forall|j: int|
                0 <= j < i ==> !names_attachment(#[trigger] names[j], id),
    decreases names.len(),
{
    if names.len() > 0 && !names_attachment(names[0], id) {
        let rest = names.subrange(1, names.len() as int);
        the_first_file_of_an_id_is_found(rest, id);
        assert forall|i: int| 0 <= i < rest.len() implies rest[i] == #[trigger] names[i + 1] by {}
        if found_attachment(names, id) is Some {
            let i = choose|i: int|
                0 <= i < rest.len() && names_attachment(#[trigger] rest[i], id) && found_attachment(
                    rest,
                    id,
                ) == Some((rest[i], attachment_mime(rest[i]))) && forall|j: int|
                    0 <= j < i ==> !names_attachment(#[trigger] rest[j], id);
            assert(names_attachment(names[i + 1], id));
            assert forall|j: int| 0 <= j < i + 1 implies !names_attachment(
                #[trigger] names[j],
                id,
            ) by {
                if j > 0 {
                    assert(rest[j - 1] == names[j]);
                }
            }
        } else {
            assert forall|i: int| 0 <= i < names.len() implies !names_attachment(
                #[trigger] names[i],
                id,
            ) by {
                if i > 0 {
                    assert(rest[i - 1] == names[i]);
                }
            }
        }
    } else if names.len() > 0 {
        assert(names_attachment(names[0], id));
    }
}

/// Which names are those of an attachment.
pub proof fn an_attachment_is_named_by_its_id(id: Seq<char>, rest: Seq<char>, name: Seq<char>)
    ensures
        rest.len() > 0 ==> names_attachment(id + "."@ + rest, id),
        names_attachment(name, id) ==> exists|tail: Seq<char>|
            tail.len() > 0 && name == #[trigger] (id + "."@ + tail),
{
    reveal_strlit(".");
    let n = id + "."@ + rest;
    assert(n.subrange(0, id.len() as int) =~= id);
    if names_attachment(name, id) {
        let tail = name.subrange(id.len() as int + 1, name.len() as int);
        assert(name =~= id + "."@ + tail);
    }
}

/// A lookup with valid ids gives the attachment that is found, or nothing where the listing was
/// complete; a listing that broke off before it found one is a failure.
pub proof fn a_lookup_gives_what_is_found(
    session_id: Seq<char>,
    attachment_id: Seq<char>,
    names: Seq<Seq<char>>,
    failure: Option<ErrorView>,
)
    ensures
        ({
            let r = attachment_lookup(session_id, attachment_id, names, failure);
            let valid = paths::id_check(session_id) is Ok && paths::id_check(attachment_id) is Ok;
            let found = found_attachment(names, attachment_id);
            &&& !valid ==> r is Err
            &&& valid && found is Some ==> r == Ok::<Option<(Seq<char>, Seq<char>)>, ErrorView>(
                found,
            )
            &&& valid && found is None && failure is None ==> r == Ok::<
                Option<(Seq<char>, Seq<char>)>,
                ErrorView,
            >(None)
            &&& valid && found is None && failure is Some ==> r == Err::<
                Option<(Seq<char>, Seq<char>)>,
                ErrorView,
            >(failure->0)
        }),
{
}

/// A record of token usage goes to the log in the session's directory, as the line that it is but for
/// its ending; a session without a place has no log.
pub proof fn a_record_goes_to_the_session_log(
    session_id: Seq<char>,
    rel: Seq<char>,
    json_line: Seq<char>,
)
    ensures
        paths::id_check(session_id) is Err ==> token_usage_append(session_id, Some(rel), json_line)
            is Err,
        paths::id_check(session_id) is Ok ==> token_usage_append(session_id, None, json_line)
            == Ok::<Option<(Seq<char>, Seq<char>)>, ErrorView>(None),
        paths::id_check(session_id) is Ok ==> ({
            let r = token_usage_append(session_id, Some(rel), json_line);
            let (file, line) = r->Ok_0->0;
            &&& r is Ok && r->Ok_0 is Some
            &&& file == rel + "/"@ + "token-usage.jsonl"@
            &&& line.len() >= 1
            &&& line.drop_last().is_prefix_of(json_line)
            &&& forall|i: int| line.len() - 1 <= i < json_line.len() ==> #[trigger] json_line[i] == '\n'
        }),
{
    reveal_strlit("\n");
    crate::text::only_final_newlines_go(json_line);
    let line = text::without_final_newlines(json_line) + "\n"@;
    assert(line.drop_last() =~= text::without_final_newlines(json_line));
}

/// What is said of these values is said of their own fields: none is left out or exchanged.
pub proof fn nothing_is_left_unseen(a: AttachmentPlan)
    ensures
        a@.attachment_id == a.attachment_id@ && a@.rel_path == a.rel_path@,
        a@.file_name == a.file_name@ && a@.bytes == a.bytes@,
        a@.url == a.url@,
{
}

/// What was decoded, found or read is seen as it is, a failure with its text or error.
pub proof fn lookups_are_seen_whole(a: String, b: String, v: Vec<u8>, t: &str, e: StorageError)
    ensures
        decoded_view(Ok(v)) == Ok::<Seq<u8>, Seq<char>>(v@),
        decoded_view(Err(a)) == Err::<Seq<u8>, Seq<char>>(a@),
        opt_str(None) == None::<Seq<char>> && opt_str(Some(t)) == Some(t@),
        read_view(Ok(None)) == Ok::<Option<(Seq<char>, Seq<char>)>, ErrorView>(None),
        read_view(Ok(Some((a, b)))) == Ok::<Option<(Seq<char>, Seq<char>)>, ErrorView>(
            Some((a@, b@)),
        ),
        read_view(Err(e)) == Err::<Option<(Seq<char>, Seq<char>)>, ErrorView>(e@),
{
}

/// An image that cannot be decoded is refused with no special kind and with the reason.
pub proof fn how_an_image_is_refused(
    s: SessionView,
    mime: Seq<char>,
    reason: Seq<char>,
    id: Seq<char>,
)
    ensures
        attachment_of(s, mime, Err(reason), id) is Err,
        attachment_of(s, mime, Err(reason), id)->Err_0.kind == ErrorKind::Other,
        attachment_of(s, mime, Err(reason), id)->Err_0.message == "invalid base64 image data: "@
            + reason,
{
}

} // verus!
