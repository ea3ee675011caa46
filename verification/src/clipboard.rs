//! Access the clipboard.
use vstd::prelude::*;

use std::borrow::Cow;
use vstd::utf8::{encode_utf8, valid_utf8};

verus! {

/// The platform family whose format identifiers are used.
///
/// Format strings differ between platforms: Linux (X11 and Wayland) uses
/// MIME types and X11 atom names, macOS uses UTIs and Windows uses registered
/// clipboard format names.
#[derive(Debug, Clone, Copy, PartialEq, Eq, Hash, Structural)]
pub enum Platform {
    /// macOS.
    MacOs,
    /// Windows.
    Windows,
    /// Linux and other Unix systems but macOS.
    Unix,
    /// Any other platform.
    Other,
}

/// Common clipboard format identifiers.
///
/// These provide platform-appropriate format strings for common content types,
/// abstracting away platform differences.
#[derive(Debug, Clone, Copy, PartialEq, Eq, Hash, Structural)]
pub enum Format {
    /// Plain text (UTF-8).
    Text,
    /// Rich Text Format (RTF).
    Rtf,
    /// HTML content.
    Html,
    /// PNG image.
    Png,
    /// JPEG image.
    Jpeg,
    /// Any image format (PNG, JPEG, BMP, GIF, TIFF).
    Image,
    /// File paths/URIs.
    Files,
}

/// The format identifiers of `format` on `platform`, the preferred one first.
pub open spec fn format_ids(format: Format, platform: Platform) -> Seq<&'static str> {
    match platform {
        Platform::MacOs => match format {
            Format::Text => seq!["public.utf8-plain-text", "public.plain-text"],
            Format::Rtf => seq!["public.rtf"],
            Format::Html => seq!["public.html"],
            Format::Png => seq!["public.png"],
            Format::Jpeg => seq!["public.jpeg"],
            Format::Image => seq!["public.png", "public.tiff", "public.jpeg"],
            Format::Files => seq!["public.file-url"],
        },
        Platform::Windows => match format {
            Format::Text => seq!["CF_UNICODETEXT"],
            Format::Rtf => seq!["Rich Text Format"],
            Format::Html => seq!["HTML Format"],
            Format::Png => seq!["PNG"],
            Format::Jpeg => seq!["JFIF"],
            Format::Image => seq!["PNG", "CF_DIBV5"],
            Format::Files => seq!["CF_HDROP"],
        },
        Platform::Unix => match format {
            Format::Text => seq!["text/plain;charset=utf-8", "text/plain", "UTF8_STRING", "STRING"],
            Format::Rtf => seq!["text/rtf", "application/rtf"],
            Format::Html => seq!["text/html"],
            Format::Png => seq!["image/png"],
            Format::Jpeg => seq!["image/jpeg"],
            Format::Image => seq!["image/png", "image/jpeg", "image/bmp", "image/gif"],
            Format::Files => seq!["text/uri-list", "x-special/gnome-copied-files"],
        },
        Platform::Other => match format {
            Format::Text => seq!["text/plain"],
            Format::Rtf => seq!["text/rtf"],
            Format::Html => seq!["text/html"],
            Format::Png => seq!["image/png"],
            Format::Jpeg => seq!["image/jpeg"],
            Format::Image => seq!["image/png", "image/jpeg"],
            Format::Files => seq!["text/uri-list"],
        },
    }
}

impl Format {
    /// Get the format strings for this format on `platform`: the identifiers
    /// that the clipboard backend there understands.
    pub fn formats(self, platform: Platform) -> (r: &'static [&'static str])
        ensures
            r@ == format_ids(self, platform),
    {
        match platform {
            Platform::MacOs => match self {
                Format::Text => &["public.utf8-plain-text", "public.plain-text"],
                Format::Rtf => &["public.rtf"],
                Format::Html => &["public.html"],
                Format::Png => &["public.png"],
                Format::Jpeg => &["public.jpeg"],
                Format::Image => &["public.png", "public.tiff", "public.jpeg"],
                Format::Files => &["public.file-url"],
            },
            Platform::Windows => match self {
                Format::Text => &["CF_UNICODETEXT"],
                Format::Rtf => &["Rich Text Format"],
                Format::Html => &["HTML Format"],
                Format::Png => &["PNG"],
                Format::Jpeg => &["JFIF"],
                Format::Image => &["PNG", "CF_DIBV5"],
                Format::Files => &["CF_HDROP"],
            },
            Platform::Unix => match self {
                Format::Text => &["text/plain;charset=utf-8", "text/plain", "UTF8_STRING", "STRING"],
                Format::Rtf => &["text/rtf", "application/rtf"],
                Format::Html => &["text/html"],
                Format::Png => &["image/png"],
                Format::Jpeg => &["image/jpeg"],
                Format::Image => &["image/png", "image/jpeg", "image/bmp", "image/gif"],
                Format::Files => &["text/uri-list", "x-special/gnome-copied-files"],
            },
            Platform::Other => match self {
                Format::Text => &["text/plain"],
                Format::Rtf => &["text/rtf"],
                Format::Html => &["text/html"],
                Format::Png => &["image/png"],
                Format::Jpeg => &["image/jpeg"],
                Format::Image => &["image/png", "image/jpeg"],
                Format::Files => &["text/uri-list"],
            },
        }
    }

    /// Get the primary format string for this format on `platform` (for
    /// writing): the first of its format strings.
    pub fn primary(self, platform: Platform) -> (r: &'static str)
        ensures
            r == format_ids(self, platform)[0],
    {
        match platform {
            Platform::MacOs => match self {
                Format::Text => "public.utf8-plain-text",
                Format::Rtf => "public.rtf",
                Format::Html => "public.html",
                Format::Png => "public.png",
                Format::Jpeg => "public.jpeg",
                Format::Image => "public.png",
                Format::Files => "public.file-url",
            },
            Platform::Windows => match self {
                Format::Text => "CF_UNICODETEXT",
                Format::Rtf => "Rich Text Format",
                Format::Html => "HTML Format",
                Format::Png => "PNG",
                Format::Jpeg => "JFIF",
                Format::Image => "PNG",
                Format::Files => "CF_HDROP",
            },
            Platform::Unix => match self {
                Format::Text => "text/plain;charset=utf-8",
                Format::Rtf => "text/rtf",
                Format::Html => "text/html",
                Format::Png => "image/png",
                Format::Jpeg => "image/jpeg",
                Format::Image => "image/png",
                Format::Files => "text/uri-list",
            },
            Platform::Other => match self {
                Format::Text => "text/plain",
                Format::Rtf => "text/rtf",
                Format::Html => "text/html",
                Format::Png => "image/png",
                Format::Jpeg => "image/jpeg",
                Format::Image => "image/png",
                Format::Files => "text/uri-list",
            },
        }
    }
}

/// The kind of [`Clipboard`].
#[derive(Debug, Clone, Copy, PartialEq, Eq, Hash, Structural)]
pub enum Kind {
    /// The standard clipboard.
    Standard,
    /// The primary clipboard.
    ///
    /// Normally only present in X11 and Wayland.
    Primary,
}

/// Data retrieved from the clipboard.
#[derive(Debug, PartialEq, Eq)]
pub struct ClipboardData {
    /// The MIME type of the data.
    pub mime_type: String,
    /// The raw bytes.
    pub data: Vec<u8>,
}

/// `std::str::from_utf8`: the bytes as a string slice when they are valid
/// UTF-8, whose UTF-8 encoding is then exactly those bytes.
#[verifier::external_body]
fn str_from_utf8(bytes: &[u8]) -> (r: Option<&str>)
    ensures
        r is Some <==> valid_utf8(bytes@),
        r matches Some(s) ==> encode_utf8(s@) == bytes@,
{
    std::str::from_utf8(bytes).ok()
}

/// `String::from_utf8`: the bytes as a string when they are valid UTF-8,
/// whose UTF-8 encoding is then exactly those bytes.
#[verifier::external_body]
fn string_from_utf8(bytes: Vec<u8>) -> (r: Option<String>)
    ensures
        r is Some <==> valid_utf8(bytes@),
        r matches Some(s) ==> encode_utf8(s@) == bytes@,
{
    String::from_utf8(bytes).ok()
}

impl ClipboardData {
    /// Create new clipboard data.
    pub fn new(mime_type: String, data: Vec<u8>) -> (r: Self)
        ensures
            r.mime_type == mime_type,
            r.data == data,
    {
        ClipboardData { mime_type, data }
    }

    /// Try to interpret the data as UTF-8 text.
    pub fn as_text(&self) -> (r: Option<&str>)
        ensures
            r is Some <==> valid_utf8(self.data@),
            r matches Some(s) ==> encode_utf8(s@) == self.data@,
    {
        str_from_utf8(self.data.as_slice())
    }

    /// Convert the data to a String if it's valid UTF-8.
    pub fn into_text(self) -> (r: Option<String>)
        ensures
            r is Some <==> valid_utf8(self.data@),
            r matches Some(s) ==> encode_utf8(s@) == self.data@,
    {
        string_from_utf8(self.data)
    }
}

/// Whether a MIME type is among the listed ones.
pub fn mime_type_listed(types: &[String], mime_type: &str) -> (r: bool)
    ensures
        r == exists|i: int| 0 <= i < types@.len() && types@[i]@ == mime_type@,
{
    let mut i: usize = 0;
    while i < types.len()
        invariant
            i <= types@.len(),
            forall|j: int| 0 <= j < i ==> types@[j]@ != mime_type@,
        decreases types@.len() - i,
    {
        if crate::text::str_eq(types[i].as_str(), mime_type) {
            return true;
        }
        i = i + 1;
    }
    false
}

/// A buffer for short-term storage and transfer within and between
/// applications.
///
/// What a clipboard holds is outside this library, so the required methods
/// promise nothing of what they read but that data read under a MIME type
/// was asked for under it; the provided ones fix which formats they ask for.
pub trait Clipboard {
    /// Reads the current content of the [`Clipboard`] as text.
    fn read_text(&self, kind: Kind) -> Option<String>;

    /// Writes the given text contents to the [`Clipboard`].
    fn write_text(&mut self, kind: Kind, contents: String);

    /// Reads data with preferred MIME types (first match wins), returning
    /// the data along with the MIME type used, which is one of those asked
    /// for.
    fn read(&self, kind: Kind, mime_types: &[&str]) -> (r: Option<ClipboardData>)
        ensures
            r matches Some(d) ==> exists|i: int|
                0 <= i < mime_types@.len() && (#[trigger] mime_types@[i])@ == d.mime_type@,
    ;

    /// Writes data offered under all the given MIME types.
    fn write(&mut self, kind: Kind, data: Cow<'_, [u8]>, mime_types: &[&str]);

    /// Writes several formats at once (e.g. text + HTML + image), each with
    /// its data and its MIME types.
    fn write_multi(&mut self, kind: Kind, formats: &[(Cow<'_, [u8]>, &[&str])]);

    /// Gets all available MIME types in the clipboard.
    fn available_mime_types(&self, kind: Kind) -> Vec<String>;

    /// Checks whether a specific MIME type is available.
    fn has_mime_type(&self, kind: Kind, mime_type: &str) -> bool {
        let types = self.available_mime_types(kind);
        mime_type_listed(&types, mime_type)
    }

    /// Reads image data (PNG preferred) in the formats of `platform`.
    fn read_image(&self, kind: Kind, platform: Platform) -> (r: Option<ClipboardData>)
        ensures
            r matches Some(d) ==> exists|i: int|
                0 <= i < format_ids(Format::Image, platform).len() && (#[trigger] format_ids(
                    Format::Image,
                    platform,
                )[i])@ == d.mime_type@,
    {
        self.read(kind, Format::Image.formats(platform))
    }

    /// Writes PNG image data under the formats of `platform`.
    fn write_image(&mut self, kind: Kind, png_data: Cow<'_, [u8]>, platform: Platform) {
        self.write(kind, png_data, Format::Png.formats(platform));
    }

    /// Reads HTML from the clipboard in the formats of `platform`.
    fn read_html(&self, kind: Kind, platform: Platform) -> Option<String> {
        match self.read(kind, Format::Html.formats(platform)) {
            Some(d) => d.into_text(),
            None => None,
        }
    }

    /// Writes HTML, with a plain text fallback when one is given, under the
    /// formats of `platform`.
    fn write_html(&mut self, kind: Kind, html: &str, alt_text: Option<&str>, platform: Platform) {
        match alt_text {
            Some(alt) => {
                let entries = [
                    (Cow::Borrowed(html.as_bytes()), Format::Html.formats(platform)),
                    (Cow::Borrowed(alt.as_bytes()), Format::Text.formats(platform)),
                ];
                self.write_multi(kind, &entries);
            },
            None => {
                self.write(kind, Cow::Borrowed(html.as_bytes()), Format::Html.formats(platform));
            },
        }
    }

    /// Reads file URIs from the clipboard, as paths.
    fn read_files(&self, kind: Kind) -> Option<Vec<String>>;

    /// Writes file URIs to the clipboard.
    fn write_files(&mut self, kind: Kind, paths: &[String]);

    /// Clears the clipboard.
    fn clear(&mut self, kind: Kind);
}

/// A null implementation of the [`Clipboard`] trait: it holds nothing and
/// ignores every write.
#[derive(Debug, Clone, Copy)]
pub struct Null;

impl Clipboard for Null {
    fn read_text(&self, _kind: Kind) -> (r: Option<String>)
        ensures
            r is None,
    {
        None
    }

    fn write_text(&mut self, _kind: Kind, _contents: String) {
    }

    fn read(&self, _kind: Kind, _mime_types: &[&str]) -> (r: Option<ClipboardData>)
        ensures
            r is None,
    {
        None
    }

    fn write(&mut self, _kind: Kind, _data: Cow<'_, [u8]>, _mime_types: &[&str]) {
    }

    fn write_multi(&mut self, _kind: Kind, _formats: &[(Cow<'_, [u8]>, &[&str])]) {
    }

    fn available_mime_types(&self, _kind: Kind) -> (r: Vec<String>)
        ensures
            r@.len() == 0,
    {
        Vec::new()
    }

    fn read_files(&self, _kind: Kind) -> (r: Option<Vec<String>>)
        ensures
            r is None,
    {
        None
    }

    fn write_files(&mut self, _kind: Kind, _paths: &[String]) {
    }

    fn clear(&mut self, _kind: Kind) {
    }
}

} // verus!
