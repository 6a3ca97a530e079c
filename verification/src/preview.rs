//! The preview endpoint's decision logic: classify a path by its
//! extension, enforce the size cap, and build the inline payload with the
//! file bytes encoded as standard base64 text. The host checks existence,
//! queries the metadata and reads the bytes.

use vstd::prelude::*;

use base64::Engine;

use crate::pathname::{file_name_of, raw_extension_of, spec_extension, spec_file_name};
use crate::text::lower_eq;

verus! {

/// Largest file size, in bytes, that the preview endpoint will read
/// (20 MiB).
pub const MAX_PREVIEW_FILE_SIZE: u64 = 20 * 1024 * 1024;

/// An inline preview payload: the payload kind ("pdf" or "image"), its
/// MIME type, the file bytes as base64 text, and the file's name.
#[derive(Debug, Clone)]
pub struct PreviewPayload {
    pub kind: String,
    pub mime: String,
    pub base64_data: String,
    pub file_name: String,
}

/// Ghost image of a preview payload.
pub struct PreviewPayloadView {
    pub kind: Seq<char>,
    pub mime: Seq<char>,
    pub base64_data: Seq<char>,
    pub file_name: Seq<char>,
}

impl View for PreviewPayload {
    type V = PreviewPayloadView;

    open spec fn view(&self) -> PreviewPayloadView {
        PreviewPayloadView {
            kind: self.kind@,
            mime: self.mime@,
            base64_data: self.base64_data@,
            file_name: self.file_name@,
        }
    }
}

/// The classification a preview request earns from its path alone: the
/// payload kind, the MIME type, and the file's name.
#[derive(Debug, Clone)]
pub struct PreviewHeader {
    pub kind: String,
    pub mime: String,
    pub file_name: String,
}

/// Ghost image of a preview header.
pub struct PreviewHeaderView {
    pub kind: Seq<char>,
    pub mime: Seq<char>,
    pub file_name: Seq<char>,
}

impl View for PreviewHeader {
    type V = PreviewHeaderView;

    open spec fn view(&self) -> PreviewHeaderView {
        PreviewHeaderView { kind: self.kind@, mime: self.mime@, file_name: self.file_name@ }
    }
}

/// The kind and MIME type a lowercased extension classifies to, `None`
/// for an unsupported extension.
pub open spec fn spec_preview_kind_mime(ext: Seq<char>) -> Option<(Seq<char>, Seq<char>)> {
    if ext == "pdf"@ {
        Some(("pdf"@, "application/pdf"@))
    } else if ext == "png"@ {
        Some(("image"@, "image/png"@))
    } else if ext == "jpg"@ || ext == "jpeg"@ {
        Some(("image"@, "image/jpeg"@))
    } else {
        None
    }
}

/// Classifies a preview request from the existence check the host made
/// and the source path: a missing source is rejected first, then an
/// unsupported extension; a supported one yields the header.
pub fn preview_gate(source_exists: bool, source_path: &str) -> (r: Result<PreviewHeader, String>)
    ensures
        !source_exists ==> (r matches Err(e) && e@ == "source_not_found"@),
        source_exists && spec_preview_kind_mime(spec_extension(source_path@)) is None ==> (
        r matches Err(e) && e@ == "unsupported_preview_format"@),
        (source_exists && spec_preview_kind_mime(spec_extension(source_path@)) is Some) ==> (
        r matches Ok(h) && {
            let km = spec_preview_kind_mime(spec_extension(source_path@))->Some_0;
            h@.kind == km.0 && h@.mime == km.1 && h@.file_name == spec_file_name(source_path@)
        }),
{
    if !source_exists {
        return Err(String::from_str("source_not_found"));
    }
    let file_name = file_name_of(source_path);
    let ext = raw_extension_of(file_name.as_str());
    if lower_eq(ext, "pdf") {
        Ok(
            PreviewHeader {
                kind: String::from_str("pdf"),
                mime: String::from_str("application/pdf"),
                file_name,
            },
        )
    } else if lower_eq(ext, "png") {
        Ok(
            PreviewHeader {
                kind: String::from_str("image"),
                mime: String::from_str("image/png"),
                file_name,
            },
        )
    } else if lower_eq(ext, "jpg") || lower_eq(ext, "jpeg") {
        Ok(
            PreviewHeader {
                kind: String::from_str("image"),
                mime: String::from_str("image/jpeg"),
                file_name,
            },
        )
    } else {
        Err(String::from_str("unsupported_preview_format"))
    }
}

/// Enforces the preview size cap on the file length the host read from
/// the metadata.
pub fn preview_size_check(len: u64) -> (r: Result<(), String>)
    ensures
        len <= MAX_PREVIEW_FILE_SIZE <==> r is Ok,
        len > MAX_PREVIEW_FILE_SIZE ==> (r matches Err(e) && e@ == "preview_file_too_large"@),
{
    if len > MAX_PREVIEW_FILE_SIZE {
        Err(String::from_str("preview_file_too_large"))
    } else {
        Ok(())
    }
}

/// The diagnostic for a metadata query that failed with the given OS text.
pub fn metadata_error_message(detail: &str) -> (r: String)
    ensures
        r@ == "read_metadata_failed:"@ + detail@,
{
    let mut m = String::from_str("read_metadata_failed:");
    m.append(detail);
    m
}

/// The diagnostic for a file read that failed with the given OS text.
pub fn read_error_message(detail: &str) -> (r: String)
    ensures
        r@ == "read_file_failed:"@ + detail@,
{
    let mut m = String::from_str("read_file_failed:");
    m.append(detail);
    m
}

/// The standard base64 text (padded, standard alphabet) for `bytes`: a
/// function of the bytes alone.
pub uninterp spec fn base64_of(bytes: Seq<u8>) -> Seq<char>;

/// Relies on base64's `Engine::encode` with the `STANDARD` engine: the
/// output depends on the input bytes alone and holds four characters for
/// every three-byte block, the last block padded. The engine panics when
/// that output length overflows `usize`, so that case is excluded here.
#[verifier::external_body]
fn base64_encode(bytes: &Vec<u8>) -> (r: String)
    requires
        4 * ((bytes@.len() + 2) as int / 3) <= usize::MAX as int,
    ensures
        r@ == base64_of(bytes@),
        r@.len() == 4 * ((bytes@.len() + 2) as int / 3),
{
    base64::engine::general_purpose::STANDARD.encode(bytes.as_slice())
}

/// Builds the preview payload: the classified header, plus the file bytes
/// the host read, encoded as standard base64 text.
pub fn finish_preview(header: PreviewHeader, bytes: &Vec<u8>) -> (r: PreviewPayload)
    requires
        4 * ((bytes@.len() + 2) as int / 3) <= usize::MAX as int,
    ensures
        r@.kind == header@.kind,
        r@.mime == header@.mime,
        r@.file_name == header@.file_name,
        r@.base64_data == base64_of(bytes@),
        r@.base64_data.len() == 4 * ((bytes@.len() + 2) as int / 3),
{
    let base64_data = base64_encode(bytes);
    PreviewPayload { kind: header.kind, mime: header.mime, base64_data, file_name: header.file_name }
}

} // verus!
