//! Uploaded media files: each upload is stored under a fresh random name
//! that keeps the extension of the uploaded file's name.

use crate::ids::{new_uuid, uuid_string, uuid_text, Uuid};
use vstd::prelude::*;

verus! {

/// Where an uploaded file can be fetched from.
pub struct UploadFileResponse {
    pub path: String,
}

/// Why an upload is refused.
#[derive(Clone, Copy, Debug, PartialEq, Eq, Structural)]
pub enum UploadError {
    /// The upload carries no file name.
    MissingFileName,
    /// The file name has no extension.
    MissingExtension,
}

/// Where an upload is stored on disk and where it is served from.
pub struct UploadTarget {
    pub storage_path: String,
    pub response: UploadFileResponse,
}

/// The directory uploads are stored in, relative to the working directory.
pub open spec fn storage_prefix() -> Seq<char> {
    seq!['.', '/', 'm', 'e', 'd', 'i', 'a', '/']
}

/// The path uploads are served under.
pub open spec fn public_prefix() -> Seq<char> {
    seq!['/', 'm', 'e', 'd', 'i', 'a', '/']
}

/// The stored name of an upload: its id, a dot and the extension.
pub open spec fn stored_name(id: Uuid, ext: Seq<char>) -> Seq<char> {
    uuid_text(id) + seq!['.'] + ext
}

/// Whether a path is read the same way on every platform: it holds no `\`
/// and no `:`, and does not start with `//` (a network share on Windows).
/// Such a path is split into pieces at `/` alone.
pub open spec fn portable_path(s: Seq<char>) -> bool {
    &&& forall|i: int| #![trigger s[i]] 0 <= i < s.len() ==> s[i] != '\\' && s[i] != ':'
    &&& !(s.len() >= 2 && s[0] == '/' && s[1] == '/')
}

/// Whether position `i` of `s` lies in a `/`-separated piece that is empty
/// or `.`: it is a slash, or a dot with a slash or an end on either side.
pub open spec fn in_blank_piece(s: Seq<char>, i: int) -> bool {
    ||| s[i] == '/'
    ||| s[i] == '.' && (i == 0 || s[i - 1] == '/') && (i + 1 == s.len() || s[i + 1] == '/')
}

/// Whether `s[a..b]` is the file name of path `s`: its last `/`-separated
/// piece that is neither empty nor `.`.
pub open spec fn is_final_piece(s: Seq<char>, a: int, b: int) -> bool {
    &&& 0 <= a < b <= s.len()
    &&& (a == 0 || s[a - 1] == '/')
    &&& forall|i: int| #![trigger s[i]] a <= i < b ==> s[i] != '/'
    &&& s.subrange(a, b) != seq!['.']
    &&& forall|i: int| b <= i < s.len() ==> #[trigger] in_blank_piece(s, i)
}

/// Whether the name has a dot after its first character.
pub open spec fn has_inner_dot(s: Seq<char>) -> bool {
    exists|i: int| #![trigger s[i]] 1 <= i < s.len() && s[i] == '.'
}

/// Whether path `s` names a file with an extension: its file name is not
/// `..` and has a dot after its first character.
pub open spec fn has_extension(s: Seq<char>) -> bool {
    exists|a: int, b: int|
        #![trigger is_final_piece(s, a, b)]
        is_final_piece(s, a, b) && s.subrange(a, b) != seq!['.', '.'] && has_inner_dot(
            s.subrange(a, b),
        )
}

/// Whether `e` is the part of name `s` after its last dot, that dot not
/// being the first character.
pub open spec fn is_suffix_after_last_dot(s: Seq<char>, e: Seq<char>) -> bool {
    &&& !e.contains('.')
    &&& exists|i: int|
        #![trigger s[i]]
        1 <= i < s.len() && s[i] == '.' && e == s.subrange(i + 1, s.len() as int)
}

/// What is known of an extension `e` read from path `s` on any platform: it
/// holds no dot and follows a dot somewhere in `s`; for a portable path it
/// is the part of the file name after its last dot.
pub open spec fn is_extension_of(s: Seq<char>, e: Seq<char>) -> bool {
    &&& !e.contains('.')
    &&& exists|p: Seq<char>, q: Seq<char>| s == p + seq!['.'] + e + q
    &&& portable_path(s) ==> exists|a: int, b: int|
        #![trigger is_final_piece(s, a, b)]
        is_final_piece(s, a, b) && is_suffix_after_last_dot(s.subrange(a, b), e)
}

/// Calls `std::path::Path::extension` on the file name and reads the result
/// as text. As std documents it, the extension is the part of the file
/// name (the last piece of the path that is neither empty nor `.`) after
/// its last dot; there is none when the file name is `..` or has no dot
/// after its first character. Where `\`, `:` or a leading `//` appear the
/// pieces depend on the platform, so for those paths only the shape of a
/// result is stated.
#[verifier::external_body]
fn path_extension(file_name: &str) -> (r: Option<String>)
    ensures
        r matches Some(e) ==> is_extension_of(file_name@, e@),
        portable_path(file_name@) ==> (r is Some <==> has_extension(file_name@)),
{
    match std::path::Path::new(file_name).extension() {
        Some(e) => e.to_str().map(String::from),
        None => None,
    }
}

/// Where an upload with id `id` and extension `ext` goes: under `./media/`
/// on disk and `/media/` for clients, named by the id and the extension.
pub fn upload_paths(id: &Uuid, ext: &str) -> (r: UploadTarget)
    ensures
        r.storage_path@ == storage_prefix() + stored_name(*id, ext@),
        r.response.path@ == public_prefix() + stored_name(*id, ext@),
{
    proof {
        reveal_strlit("./media/");
        reveal_strlit("/media/");
        reveal_strlit(".");
    }
    let name = uuid_string(id);
    let mut storage_path = String::from_str("./media/");
    storage_path.append(name.as_str());
    storage_path.append(".");
    storage_path.append(ext);
    let mut path = String::from_str("/media/");
    path.append(name.as_str());
    path.append(".");
    path.append(ext);
    proof {
        assert("./media/"@ =~= storage_prefix());
        assert("/media/"@ =~= public_prefix());
        assert("."@ =~= seq!['.']);
        assert(storage_path@ =~= storage_prefix() + stored_name(*id, ext@));
        assert(path@ =~= public_prefix() + stored_name(*id, ext@));
    }
    UploadTarget { storage_path, response: UploadFileResponse { path } }
}

/// Where an upload named `file_name` is stored: refused without a file
/// name or without an extension; otherwise under a fresh random (version 4)
/// id with the file's extension. A portable path is stored exactly when its
/// file name has an extension, and then with the part of the file name
/// after its last dot.
pub fn upload_target(file_name: Option<String>) -> (r: Result<UploadTarget, UploadError>)
    ensures
        file_name is None ==> r == Err::<UploadTarget, UploadError>(UploadError::MissingFileName),
        file_name is Some ==> (r matches Err(e) ==> e == UploadError::MissingExtension),
        file_name matches Some(n) ==> (portable_path(n@) ==> (r is Ok <==> has_extension(n@))),
        r matches Ok(t) ==> exists|id: Uuid, ext: Seq<char>|
            #![trigger stored_name(id, ext)]
            t.storage_path@ == storage_prefix() + stored_name(id, ext)
                && t.response.path@ == public_prefix() + stored_name(id, ext)
                && id.bytes@[6] / 16 == 4 && id.bytes@[8] / 64 == 2
                && (file_name matches Some(n) && is_extension_of(n@, ext)),
{
    let id = new_uuid();
    let name = match file_name {
        Some(n) => n,
        None => {
            return Err(UploadError::MissingFileName);
        },
    };
    match path_extension(name.as_str()) {
        Some(ext) => {
            let t = upload_paths(&id, ext.as_str());
            assert(t.storage_path@ == storage_prefix() + stored_name(id, ext@)
                && t.response.path@ == public_prefix() + stored_name(id, ext@)
                && is_extension_of(name@, ext@));
            Ok(t)
        },
        None => Err(UploadError::MissingExtension),
    }
}

} // verus!
