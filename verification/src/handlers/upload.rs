//! Image uploads: what is accepted, and under which name it is stored.

use vstd::prelude::*;
use crate::error::ApiError;
use crate::ids::{hyphenated_text, is_hyphenated_id};
use crate::policy::same_text;

verus! {

/// The directory that uploads are stored in.
pub const UPLOAD_DIR: &'static str = "uploads";

/// The largest image accepted, in bytes: 5 MiB.
pub const MAX_IMAGE_BYTES: usize = 5242880;

/// The name of the form field that carries the image.
pub const IMAGE_FIELD: &'static str = "image";

/// The file name assumed for an upload that gives none.
pub const DEFAULT_FILE_NAME: &'static str = "unknown.jpg";

/// The extension assumed for a file name that has none.
pub const DEFAULT_EXTENSION: &'static str = "jpg";

/// The text sent for an image that is too large.
pub const MSG_TOO_LARGE: &'static str = "La imagen excede el tamaño máximo de 5MB";

/// The text sent for a file that is no accepted image.
pub const MSG_NOT_AN_IMAGE: &'static str = "Solo se permiten imágenes (jpg, png, webp, gif)";

/// Why an upload was refused. Both reasons are a `BadRequest`.
#[derive(Clone, Copy, Debug, PartialEq, Eq, Structural)]
pub enum UploadError {
    /// The image is larger than `MAX_IMAGE_BYTES`.
    TooLarge,
    /// The declared content type is none of the accepted image types.
    UnsupportedType,
}

/// Where an accepted upload goes and how it is reported.
#[derive(Debug, Clone)]
pub struct StoredImage {
    /// The name it is stored under.
    pub file_name: String,
    /// The path to write it to.
    pub path: String,
    /// The public address it is served from.
    pub url: String,
    /// The name the client gave it.
    pub original_name: String,
}

/// The extension that `Path::extension` finds in a file name, if it is
/// there and is valid Unicode.
pub uninterp spec fn extension_of(file_name: Seq<char>) -> Option<Seq<char>>;

/// The type and subtype of a media type as the `mime` parser reads it, or
/// `None` where it does not parse.
pub uninterp spec fn mime_parts(content_type: Seq<char>) -> Option<(Seq<char>, Seq<char>)>;

/// Calls `Path::extension` on the file name: the result is the extension
/// it finds.
#[verifier::external_body]
fn file_extension(file_name: &str) -> (r: Option<String>)
    ensures
        match r {
            Some(ext) => extension_of(file_name@) == Some(ext@),
            None => extension_of(file_name@) is None,
        },
{
    std::path::Path::new(file_name).extension().and_then(|ext| ext.to_str()).map(
        |ext| ext.to_string(),
    )
}

/// Parses the text as a `mime::Mime` and reads `type_` and `subtype`: the
/// result is the two parts that the parser finds.
#[verifier::external_body]
fn parse_mime(content_type: &str) -> (r: Option<(String, String)>)
    ensures
        match r {
            Some(parts) => mime_parts(content_type@) == Some((parts.0@, parts.1@)),
            None => mime_parts(content_type@) is None,
        },
{
    content_type.parse::<mime::Mime>().ok().map(
        |m| (m.type_().as_str().to_string(), m.subtype().as_str().to_string()),
    )
}

/// Whether a media type is one of the accepted image types.
pub open spec fn allowed_image(kind: Seq<char>, subtype: Seq<char>) -> bool {
    kind == "image"@ && (subtype == "jpeg"@ || subtype == "png"@ || subtype == "webp"@ || subtype
        == "gif"@)
}

/// Whether a declared media type rules the upload out. An upload that
/// declares none, or one that does not parse, is not ruled out.
pub open spec fn type_rejected(parts: Option<(Seq<char>, Seq<char>)>) -> bool {
    parts matches Some(p) && !allowed_image(p.0, p.1)
}

/// The parts of a parsed media type as texts.
pub open spec fn parts_view(parts: Option<(String, String)>) -> Option<(Seq<char>, Seq<char>)> {
    match parts {
        Some(p) => Some((p.0@, p.1@)),
        None => None,
    }
}

/// The name an upload is stored under: the id, a dot, the extension.
pub open spec fn stored_name(id: Seq<char>, extension: Seq<char>) -> Seq<char> {
    id + "."@ + extension
}

/// Whether `image` is where an upload with this id and extension goes.
pub open spec fn placed(
    image: &StoredImage,
    original_name: Seq<char>,
    extension: Seq<char>,
    id: Seq<char>,
) -> bool {
    &&& image.file_name@ == stored_name(id, extension)
    &&& image.path@ == UPLOAD_DIR@ + "/"@ + stored_name(id, extension)
    &&& image.url@ == "/uploads/"@ + stored_name(id, extension)
    &&& image.original_name@ == original_name
}

/// Whether a media type is one of the accepted image types.
pub fn is_allowed_image(kind: &str, subtype: &str) -> (r: bool)
    ensures
        r == allowed_image(kind@, subtype@),
{
    same_text(kind, "image") && (same_text(subtype, "jpeg") || same_text(subtype, "png")
        || same_text(subtype, "webp") || same_text(subtype, "gif"))
}

/// Whether a form field is the one that carries the image.
pub fn is_image_field(field_name: &str) -> (r: bool)
    ensures
        r == (field_name@ == IMAGE_FIELD@),
{
    same_text(field_name, IMAGE_FIELD)
}

/// Decides an upload whose name, extension, parsed media type, size and
/// fresh id are at hand. Size is checked first, then the media type; an
/// accepted image is stored under the id and the extension.
pub fn plan_upload(
    original_name: &str,
    extension: &str,
    parts: &Option<(String, String)>,
    size: usize,
    id: &str,
) -> (r: Result<StoredImage, UploadError>)
    ensures
        match r {
            Ok(image) => {
                &&& size <= MAX_IMAGE_BYTES
                &&& !type_rejected(parts_view(*parts))
                &&& placed(&image, original_name@, extension@, id@)
            },
            Err(e) => if size > MAX_IMAGE_BYTES {
                e == UploadError::TooLarge
            } else {
                e == UploadError::UnsupportedType && type_rejected(parts_view(*parts))
            },
        },
{
    if size > MAX_IMAGE_BYTES {
        return Err(UploadError::TooLarge);
    }
    match parts {
        Some(p) => {
            if !is_allowed_image(p.0.as_str(), p.1.as_str()) {
                return Err(UploadError::UnsupportedType);
            }
        },
        None => {},
    }
    let file_name = String::from_str(id).concat(".").concat(extension);
    let path = String::from_str(UPLOAD_DIR).concat("/").concat(file_name.as_str());
    let url = String::from_str("/uploads/").concat(file_name.as_str());
    Ok(StoredImage { file_name, path, url, original_name: String::from_str(original_name) })
}

/// The file name an upload goes by: the one given, else the default.
pub open spec fn name_or_default(file_name: Option<&str>) -> Seq<char> {
    match file_name {
        Some(name) => name@,
        None => DEFAULT_FILE_NAME@,
    }
}

/// The extension an upload is stored with: the one of its file name, else
/// the default.
pub open spec fn extension_or_default(file_name: Seq<char>) -> Seq<char> {
    match extension_of(file_name) {
        Some(ext) => ext,
        None => DEFAULT_EXTENSION@,
    }
}

/// The parts of the media type that an upload declares, if it declares
/// one that parses.
pub open spec fn declared_parts(content_type: Option<&str>) -> Option<(Seq<char>, Seq<char>)> {
    match content_type {
        Some(text) => mime_parts(text@),
        None => None,
    }
}

/// Decides an upload of `size` bytes from the file name and the media
/// type it declares. It is accepted exactly when it is not too large and
/// its media type does not rule it out; then it is stored under a fresh
/// random id in hyphenated form and the extension of its file name.
pub fn upload_image_handler(file_name: Option<&str>, content_type: Option<&str>, size: usize) -> (r:
    Result<StoredImage, UploadError>)
    ensures
        match r {
            Ok(image) => {
                &&& size <= MAX_IMAGE_BYTES
                &&& !type_rejected(declared_parts(content_type))
                &&& exists|id: Seq<char>|
                    is_hyphenated_id(id) && #[trigger] placed(
                        &image,
                        name_or_default(file_name),
                        extension_or_default(name_or_default(file_name)),
                        id,
                    )
            },
            Err(e) => if size > MAX_IMAGE_BYTES {
                e == UploadError::TooLarge
            } else {
                e == UploadError::UnsupportedType && type_rejected(declared_parts(content_type))
            },
        },
{
    let name = match file_name {
        Some(given) => given,
        None => DEFAULT_FILE_NAME,
    };
    let parts = match content_type {
        Some(text) => parse_mime(text),
        None => None,
    };
    let found = file_extension(name);
    let id = hyphenated_text(&uuid::Uuid::new_v4());
    let r = match &found {
        Some(ext) => plan_upload(name, ext.as_str(), &parts, size, id.as_str()),
        None => plan_upload(name, DEFAULT_EXTENSION, &parts, size, id.as_str()),
    };
    proof {
        if r is Ok {
            assert(placed(
                &r->Ok_0,
                name_or_default(file_name),
                extension_or_default(name_or_default(file_name)),
                id@,
            ));
        }
    }
    r
}

/// The failure and the short text that go with a refused upload.
pub fn upload_failure(error: UploadError) -> (r: (ApiError, &'static str))
    ensures
        r.0 == ApiError::BadRequest,
        r.1@ == match error {
            UploadError::TooLarge => MSG_TOO_LARGE@,
            UploadError::UnsupportedType => MSG_NOT_AN_IMAGE@,
        },
{
    match error {
        UploadError::TooLarge => (ApiError::BadRequest, MSG_TOO_LARGE),
        UploadError::UnsupportedType => (ApiError::BadRequest, MSG_NOT_AN_IMAGE),
    }
}

} // verus!
