//! Validation and naming of attachments.
//!
//! An attachment is accepted by its file name alone: the name's extension
//! must be that of an image. It is stored under a name made of a fresh
//! identifier and the extension, never under the name the client gave.

use crate::error::{BadRequest, BadRequestView, IngestError, IngestErrorView};
use crate::ids::{is_uuid_text, random_uuid_text};
use crate::text::{find_last, join, last_index_of, text_eq, text_from};
use vstd::prelude::*;
use vstd::string::StringExecFns;

verus! {

/// The top-level media type of images.
pub const IMAGE_CATEGORY: &'static str = "image";

/// The extension of a stored file whose name as the client gave it has none.
pub const DEFAULT_EXTENSION: &'static str = "jpg";

/// The directory, relative to the service's working directory, that holds
/// the stored attachments.
pub const UPLOADS_DIR: &'static str = "uploads/";

/// The URL prefix under which stored attachments are served.
pub const UPLOADS_URL: &'static str = "/uploads/";

/// The top-level media type that `mime_guess` infers for a file name from
/// its extension, `application` standing for every name it knows nothing
/// of.
pub uninterp spec fn guessed_category(filename: Seq<char>) -> Seq<char>;

/// Calls `mime_guess::from_path` and `MimeGuess::first_or_octet_stream`, and
/// hands out the top-level type of the result (`Mime::type_`) as text.
/// Trusted: the guess is a function of the file name; no file is opened.
#[verifier::external_body]
pub(crate) fn media_category(filename: &str) -> (category: String)
    ensures
        category@ == guessed_category(filename@),
{
    mime_guess::from_path(filename).first_or_octet_stream().type_().as_str().to_string()
}

/// The extension of a file name: what follows its last dot, or the default
/// where it has no dot.
pub open spec fn extension_of(filename: Seq<char>) -> Seq<char> {
    match last_index_of(filename, '.') {
        Some(i) => filename.skip(i + 1),
        None => DEFAULT_EXTENSION@,
    }
}

/// The extension of a file name.
pub fn file_extension(filename: &str) -> (extension: String)
    ensures
        extension@ == extension_of(filename@),
{
    match find_last(filename, '.') {
        Some(i) => text_from(filename, i + 1),
        None => String::from_str(DEFAULT_EXTENSION),
    }
}

/// The name under which a file is stored: the identifier, a dot, the
/// extension.
pub open spec fn stored_name(unique_id: Seq<char>, extension: Seq<char>) -> Seq<char> {
    unique_id + "."@ + extension
}

/// Where a stored file lies on disk.
pub open spec fn disk_path(name: Seq<char>) -> Seq<char> {
    UPLOADS_DIR@ + name
}

/// Where a stored file is served.
pub open spec fn url_path(name: Seq<char>) -> Seq<char> {
    UPLOADS_URL@ + name
}

/// The place of an accepted attachment.
#[derive(Debug, Clone, PartialEq, Eq)]
pub struct StoredFile {
    /// The file's name in the uploads directory.
    pub name: String,
    /// The path to write the bytes to.
    pub disk_path: String,
    /// The path under which clients fetch the file.
    pub url_path: String,
}

/// The mathematical content of a [`StoredFile`].
pub struct StoredFileView {
    pub name: Seq<char>,
    pub disk_path: Seq<char>,
    pub url_path: Seq<char>,
}

impl View for StoredFile {
    type V = StoredFileView;

    open spec fn view(&self) -> StoredFileView {
        StoredFileView { name: self.name@, disk_path: self.disk_path@, url_path: self.url_path@ }
    }
}

/// The place of a file stored under the given identifier, its extension
/// taken from the name the client gave.
pub open spec fn placed(unique_id: Seq<char>, client_filename: Seq<char>) -> StoredFileView {
    let name = stored_name(unique_id, extension_of(client_filename));
    StoredFileView { name, disk_path: disk_path(name), url_path: url_path(name) }
}

/// Whether an attachment of the given media category is accepted, and where
/// it is then stored. Only images are accepted.
pub open spec fn placement(
    category: Seq<char>,
    unique_id: Seq<char>,
    client_filename: Seq<char>,
) -> Result<StoredFileView, BadRequestView> {
    if category == IMAGE_CATEGORY@ {
        Ok(placed(unique_id, client_filename))
    } else {
        Err(BadRequestView::NotAnImage)
    }
}

/// The content of the outcome of a validation.
pub open spec fn placement_view(outcome: Result<StoredFile, BadRequest>) -> Result<
    StoredFileView,
    BadRequestView,
> {
    match outcome {
        Ok(file) => Ok(file@),
        Err(error) => Err(error@),
    }
}

/// Decides on an attachment whose media category has been inferred: an
/// image gets its place, anything else is refused.
pub fn place_attachment(category: &str, unique_id: &str, client_filename: &str) -> (outcome:
    Result<StoredFile, BadRequest>)
    ensures
        placement_view(outcome) == placement(category@, unique_id@, client_filename@),
{
    if !text_eq(category, IMAGE_CATEGORY) {
        return Err(BadRequest::NotAnImage);
    }
    let extension = file_extension(client_filename);
    let name = join(join(unique_id, ".").as_str(), extension.as_str());
    let disk = join(UPLOADS_DIR, name.as_str());
    let url = join(UPLOADS_URL, name.as_str());
    Ok(StoredFile { name, disk_path: disk, url_path: url })
}

/// Validates an attachment by the file name the client gave, and names its
/// place under the given identifier. The attachment's bytes are not looked
/// at.
pub fn validate_attachment(client_filename: &str, unique_id: &str) -> (outcome: Result<
    StoredFile,
    BadRequest,
>)
    ensures
        placement_view(outcome) == placement(
            guessed_category(client_filename@),
            unique_id@,
            client_filename@,
        ),
{
    let category = media_category(client_filename);
    place_attachment(category.as_str(), unique_id, client_filename)
}

/// Whether `id` is an identifier as `fresh_id` makes them under `prefix`:
/// the prefix followed by a UUID.
pub open spec fn is_fresh_id(prefix: Seq<char>, id: Seq<char>) -> bool {
    &&& id.len() == prefix.len() + 36
    &&& id.subrange(0, prefix.len() as int) == prefix
    &&& is_uuid_text(id.skip(prefix.len() as int))
}

/// A new identifier for a stored file: the prefix followed by a random
/// UUID. Two calls give the same identifier only if the random UUIDs
/// collide.
pub fn fresh_id(prefix: &str) -> (id: String)
    ensures
        is_fresh_id(prefix@, id@),
{
    let uuid = random_uuid_text();
    let id = join(prefix, uuid.as_str());
    assert(id@.subrange(0, prefix@.len() as int) =~= prefix@);
    assert(id@.skip(prefix@.len() as int) =~= uuid@);
    id
}

/// The content of a report on a write: nothing, or the diagnostic of its
/// failure.
pub open spec fn written_view(written: Result<(), String>) -> Result<(), Seq<char>> {
    match written {
        Ok(()) => Ok(()),
        Err(diagnostic) => Err(diagnostic@),
    }
}

/// The outcome of storing an attachment: the path under which it is served,
/// or an internal error that carries the storage's diagnostic.
pub open spec fn storage_outcome(file: StoredFileView, written: Result<(), Seq<char>>) -> Result<
    Seq<char>,
    IngestErrorView,
> {
    match written {
        Ok(()) => Ok(file.url_path),
        Err(diagnostic) => Err(IngestErrorView::InternalError(diagnostic)),
    }
}

/// The content of the outcome of storing an attachment.
pub open spec fn stored_view(outcome: Result<String, IngestError>) -> Result<
    Seq<char>,
    IngestErrorView,
> {
    match outcome {
        Ok(url) => Ok(url@),
        Err(error) => Err(error@),
    }
}

/// Concludes the storing of an attachment once the write to `disk_path` was
/// attempted: `written` is the diagnostic of a failed write.
pub fn conclude_storage(file: StoredFile, written: Result<(), String>) -> (outcome: Result<
    String,
    IngestError,
>)
    ensures
        stored_view(outcome) == storage_outcome(file@, written_view(written)),
{
    match written {
        Ok(()) => Ok(file.url_path),
        Err(diagnostic) => Err(IngestError::InternalError(diagnostic)),
    }
}

/// Files stored under different identifiers of one length lie at different
/// places, whatever their extensions: neither overwrites the other.
pub proof fn lemma_distinct_ids_distinct_places(
    id1: Seq<char>,
    id2: Seq<char>,
    filename1: Seq<char>,
    filename2: Seq<char>,
)
    requires
        id1.len() == id2.len(),
        id1 != id2,
    ensures
        placed(id1, filename1).name != placed(id2, filename2).name,
        placed(id1, filename1).disk_path != placed(id2, filename2).disk_path,
        placed(id1, filename1).url_path != placed(id2, filename2).url_path,
{
    let n1 = placed(id1, filename1).name;
    let n2 = placed(id2, filename2).name;
    let len = id1.len() as int;
    assert(n1.subrange(0, len) =~= id1);
    assert(n2.subrange(0, len) =~= id2);
    let d = UPLOADS_DIR@.len() as int;
    assert(disk_path(n1).skip(d) =~= n1);
    assert(disk_path(n2).skip(d) =~= n2);
    let u = UPLOADS_URL@.len() as int;
    assert(url_path(n1).skip(u) =~= n1);
    assert(url_path(n2).skip(u) =~= n2);
}

/// Two identifiers made under one prefix have the same length, so they name
/// different places unless they are the same identifier.
pub proof fn lemma_fresh_ids_distinct_places(
    prefix: Seq<char>,
    id1: Seq<char>,
    id2: Seq<char>,
    filename: Seq<char>,
)
    requires
        is_fresh_id(prefix, id1),
        is_fresh_id(prefix, id2),
        id1 != id2,
    ensures
        placed(id1, filename).disk_path != placed(id2, filename).disk_path,
        placed(id1, filename).url_path != placed(id2, filename).url_path,
{
    lemma_distinct_ids_distinct_places(id1, id2, filename, filename);
}

/// A stored name begins with the identifier, and takes from the client's
/// file name nothing but what follows its last dot.
pub proof fn lemma_stored_name_shape(unique_id: Seq<char>, client_filename: Seq<char>)
    ensures
        unique_id.is_prefix_of(placed(unique_id, client_filename).name),
        placed(unique_id, client_filename).name.skip(unique_id.len() as int + 1) == extension_of(
            client_filename,
        ),
        last_index_of(client_filename, '.') is Some ==> !extension_of(
            client_filename,
        ).contains('.'),
{
    let name = placed(unique_id, client_filename).name;
    let ext = extension_of(client_filename);
    reveal_strlit(".");
    assert(name.subrange(0, unique_id.len() as int) =~= unique_id);
    assert(name.skip(unique_id.len() as int + 1) =~= ext);
    crate::text::lemma_last_index_of(client_filename, '.');
    if last_index_of(client_filename, '.') is Some {
        let i = last_index_of(client_filename, '.')->0;
        assert forall|k: int| 0 <= k < ext.len() implies ext[k] != '.' by {
            assert(ext[k] == client_filename[i + 1 + k]);
        }
    }
}

} // verus!
