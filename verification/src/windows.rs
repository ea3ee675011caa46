//! Windows drag and drop rules: drag operations and effects, how OLE
//! answers are read, which clipboard formats a drop offers, and how a drop
//! is read from its data object.
//!
//! Operations are `DROPEFFECT` bit masks: copy is 1, move is 2 and link is
//! 4. Results are `HRESULT` values.
use vstd::prelude::*;

use vstd::string::StringExecFns;
use vstd::utf8::encode_utf8;
use crate::text::{chars_of, str_eq};
use vstd::utf8::valid_utf8;

verus! {

/// Errors that can occur during drag operations.
#[derive(Debug, PartialEq, Eq)]
pub enum DragError {
    /// Failed to initialize COM.
    ComInitFailed,
    /// The provided window handle is invalid.
    InvalidWindow,
    /// Failed to create data object.
    DataObjectError,
    /// The drag operation is not supported on this platform.
    NotSupported,
    /// Windows API error.
    WindowsError(String),
}

impl DragError {
    /// The error's message.
    pub fn message(&self) -> (r: String)
        ensures
            r@ == (match self {
                DragError::ComInitFailed => "Failed to initialize COM"@,
                DragError::InvalidWindow => "Invalid window handle"@,
                DragError::DataObjectError => "Failed to create data object"@,
                DragError::NotSupported => "Drag operation not supported on this platform"@,
                DragError::WindowsError(m) => "Windows error: "@ + m@,
            }),
    {
        match self {
            DragError::ComInitFailed => String::from_str("Failed to initialize COM"),
            DragError::InvalidWindow => String::from_str("Invalid window handle"),
            DragError::DataObjectError => String::from_str("Failed to create data object"),
            DragError::NotSupported => String::from_str("Drag operation not supported on this platform"),
            DragError::WindowsError(m) => String::from_str("Windows error: ").concat(m.as_str()),
        }
    }
}

/// The copy bit of a drop effect.
pub const EFFECT_COPY: u32 = 1;

/// The move bit of a drop effect.
pub const EFFECT_MOVE: u32 = 2;

/// The link bit of a drop effect.
pub const EFFECT_LINK: u32 = 4;

/// Allowed drag operations.
#[derive(Debug, Clone, Copy, PartialEq, Eq, Hash, Structural)]
pub struct DragOperation {
    bits: u32,
}

impl DragOperation {
    /// The drop effect mask.
    pub closed spec fn mask(self) -> u32 {
        self.bits
    }

    /// No operation allowed.
    #[allow(non_snake_case)]
    pub fn NONE() -> (r: Self)
        ensures
            r.mask() == 0,
    {
        DragOperation { bits: 0 }
    }

    /// Copy the dragged data.
    #[allow(non_snake_case)]
    pub fn COPY() -> (r: Self)
        ensures
            r.mask() == EFFECT_COPY,
    {
        DragOperation { bits: EFFECT_COPY }
    }

    /// Move the dragged data.
    #[allow(non_snake_case)]
    pub fn MOVE() -> (r: Self)
        ensures
            r.mask() == EFFECT_MOVE,
    {
        DragOperation { bits: EFFECT_MOVE }
    }

    /// Link to the dragged data.
    #[allow(non_snake_case)]
    pub fn LINK() -> (r: Self)
        ensures
            r.mask() == EFFECT_LINK,
    {
        DragOperation { bits: EFFECT_LINK }
    }

    /// All operations allowed: copy, move and link.
    #[allow(non_snake_case)]
    pub fn ALL() -> (r: Self)
        ensures
            r.mask() == EFFECT_COPY | EFFECT_MOVE | EFFECT_LINK,
    {
        DragOperation { bits: EFFECT_COPY | EFFECT_MOVE | EFFECT_LINK }
    }

    /// The drop effect mask handed to `DoDragDrop`.
    pub fn to_dropeffect(self) -> (r: u32)
        ensures
            r == self.mask(),
    {
        self.bits
    }
}

impl std::ops::BitOr for DragOperation {
    type Output = Self;

    fn bitor(self, rhs: Self) -> (r: Self) {
        DragOperation { bits: self.bits | rhs.bits }
    }
}

impl vstd::std_specs::ops::BitOrSpecImpl for DragOperation {
    open spec fn obeys_bitor_spec() -> bool {
        true
    }

    open spec fn bitor_req(self, rhs: Self) -> bool {
        true
    }

    closed spec fn bitor_spec(self, rhs: Self) -> Self {
        DragOperation { bits: self.bits | rhs.bits }
    }
}

/// Combining operations takes the union of their masks.
pub proof fn law_combined_effect_mask(a: DragOperation, b: DragOperation)
    ensures
        vstd::std_specs::ops::BitOrSpec::bitor_spec(a, b).mask() == a.mask() | b.mask(),
{
}

/// Result of a completed drag operation.
#[derive(Debug, Clone, Copy, PartialEq, Eq, Hash, Structural)]
pub enum DragResult {
    /// The drag was cancelled.
    Cancelled,
    /// The data was copied.
    Copied,
    /// The data was moved.
    Moved,
    /// The data was linked.
    Linked,
}

/// The result of the effect a drag ended with: a move wins over a copy,
/// which wins over a link; no effect is a cancellation.
pub open spec fn result_of_effect(effect: u32) -> DragResult {
    if effect & EFFECT_MOVE != 0 {
        DragResult::Moved
    } else if effect & EFFECT_COPY != 0 {
        DragResult::Copied
    } else if effect & EFFECT_LINK != 0 {
        DragResult::Linked
    } else {
        DragResult::Cancelled
    }
}

impl DragResult {
    /// Converts the effect a drag ended with to its result.
    pub fn from_effect(effect: u32) -> (r: Self)
        ensures
            r == result_of_effect(effect),
    {
        if effect & EFFECT_MOVE != 0 {
            DragResult::Moved
        } else if effect & EFFECT_COPY != 0 {
            DragResult::Copied
        } else if effect & EFFECT_LINK != 0 {
            DragResult::Linked
        } else {
            DragResult::Cancelled
        }
    }
}

/// The selected drop action.
#[derive(Debug, Clone, Copy, PartialEq, Eq, Hash, Structural)]
pub enum DropAction {
    /// No action.
    NoAction,
    /// Copy.
    Copy,
    /// Move.
    Move,
    /// Link.
    Link,
}

/// The action of a drop effect: move wins over copy, which wins over link.
pub open spec fn action_of_effect(effect: u32) -> DropAction {
    if effect & EFFECT_MOVE != 0 {
        DropAction::Move
    } else if effect & EFFECT_COPY != 0 {
        DropAction::Copy
    } else if effect & EFFECT_LINK != 0 {
        DropAction::Link
    } else {
        DropAction::NoAction
    }
}

impl DropAction {
    /// Converts a drop effect to a high-level action.
    pub fn from_effect(effect: u32) -> (r: Self)
        ensures
            r == action_of_effect(effect),
    {
        if effect & EFFECT_MOVE != 0 {
            DropAction::Move
        } else if effect & EFFECT_COPY != 0 {
            DropAction::Copy
        } else if effect & EFFECT_LINK != 0 {
            DropAction::Link
        } else {
            DropAction::NoAction
        }
    }
}

/// A drag's result and a drop's action read an effect alike: a move, else
/// a copy, else a link, else nothing.
pub proof fn law_result_and_action_agree(effect: u32)
    ensures
        (result_of_effect(effect) == DragResult::Moved) == (action_of_effect(effect)
            == DropAction::Move),
        (result_of_effect(effect) == DragResult::Copied) == (action_of_effect(effect)
            == DropAction::Copy),
        (result_of_effect(effect) == DragResult::Linked) == (action_of_effect(effect)
            == DropAction::Link),
        (result_of_effect(effect) == DragResult::Cancelled) == (action_of_effect(effect)
            == DropAction::NoAction),
{
}

// ============================================================================
// OLE answers
// ============================================================================

/// `DoDragDrop` succeeded with a drop.
pub const DRAGDROP_S_DROP: i32 = 0x00040100;

/// `DoDragDrop` ended with a cancellation.
pub const DRAGDROP_S_CANCEL: i32 = 0x00040101;

/// Use the default cursors.
pub const DRAGDROP_S_USEDEFAULTCURSORS: i32 = 0x00040102;

/// Success.
pub const S_OK: i32 = 0;

/// The left mouse button's bit in a key state.
pub const MK_LBUTTON: u32 = 0x0001;

/// The outcome of a drag from what `DoDragDrop` returned: a drop or another
/// success gives the result of the final effect, a cancellation cancels,
/// and a failure (a negative result) is returned as it is.
pub open spec fn drag_outcome_of(hr: i32, effect: u32) -> Result<DragResult, i32> {
    if hr == DRAGDROP_S_DROP {
        Ok(result_of_effect(effect))
    } else if hr == DRAGDROP_S_CANCEL {
        Ok(DragResult::Cancelled)
    } else if hr >= 0 {
        Ok(result_of_effect(effect))
    } else {
        Err(hr)
    }
}

/// Reads what `DoDragDrop` returned and the effect it ended with.
pub fn drag_outcome(hr: i32, effect: u32) -> (r: Result<DragResult, i32>)
    ensures
        r == drag_outcome_of(hr, effect),
{
    if hr == DRAGDROP_S_DROP {
        Ok(DragResult::from_effect(effect))
    } else if hr == DRAGDROP_S_CANCEL {
        Ok(DragResult::Cancelled)
    } else if hr >= 0 {
        Ok(DragResult::from_effect(effect))
    } else {
        Err(hr)
    }
}

/// Whether a drag goes on: escape cancels it, releasing the left button
/// drops, and otherwise it continues.
pub open spec fn continue_drag_answer(escape_pressed: bool, key_state: u32) -> i32 {
    if escape_pressed {
        DRAGDROP_S_CANCEL
    } else if key_state & MK_LBUTTON == 0 {
        DRAGDROP_S_DROP
    } else {
        S_OK
    }
}

/// Answers OLE's question whether the drag goes on.
pub fn query_continue_drag(escape_pressed: bool, key_state: u32) -> (r: i32)
    ensures
        r == continue_drag_answer(escape_pressed, key_state),
{
    if escape_pressed {
        DRAGDROP_S_CANCEL
    } else if key_state & MK_LBUTTON == 0 {
        DRAGDROP_S_DROP
    } else {
        S_OK
    }
}

/// Answers OLE's request for cursor feedback: the default cursors.
pub fn give_feedback(_effect: u32) -> (r: i32)
    ensures
        r == DRAGDROP_S_USEDEFAULTCURSORS,
{
    DRAGDROP_S_USEDEFAULTCURSORS
}

// ============================================================================
// The data object of a drag
// ============================================================================

/// The `CF_UNICODETEXT` clipboard format.
pub const CF_UNICODETEXT: u16 = 13;

/// The `CF_HDROP` clipboard format.
pub const CF_HDROP: u16 = 15;

/// The `CF_DIB` clipboard format.
pub const CF_DIB: u16 = 8;

/// The `CF_DIBV5` clipboard format.
pub const CF_DIBV5: u16 = 17;

/// The storage medium a data object hands out: global memory.
pub const TYMED_HGLOBAL: u32 = 1;

/// The data object has no data in the requested format.
pub const DV_E_FORMATETC: i32 = -2147221404;

/// The data object has no data in the requested medium.
pub const DV_E_TYMED: i32 = -2147221399;

/// The clipboard format a drag's data is offered in.
#[derive(Debug, PartialEq, Eq)]
pub enum ClipboardFormat {
    /// A standard clipboard format.
    Standard(u16),
    /// A format registered by its name.
    Registered(String),
}

/// The clipboard format of a MIME type: plain text is `CF_UNICODETEXT`, a
/// URI list is registered as `UniformResourceLocatorW`, and any other type
/// is registered under its own name.
pub open spec fn clipboard_format_of(format: Seq<char>) -> (Option<u16>, Seq<char>) {
    if format == "text/plain"@ || format == "text/plain;charset=utf-8"@ {
        (Some(CF_UNICODETEXT), Seq::empty())
    } else if format == "text/uri-list"@ {
        (None, "UniformResourceLocatorW"@)
    } else {
        (None, format)
    }
}

/// The standard format, or the name to register, of a clipboard format.
pub open spec fn clipboard_format_view(format: ClipboardFormat) -> (Option<u16>, Seq<char>) {
    match format {
        ClipboardFormat::Standard(cf) => (Some(cf), Seq::empty()),
        ClipboardFormat::Registered(name) => (None, name@),
    }
}

/// Chooses the clipboard format that a drag's data is offered in.
pub fn clipboard_format_for(format: &str) -> (r: ClipboardFormat)
    ensures
        clipboard_format_view(r) == clipboard_format_of(format@),
{
    if str_eq(format, "text/plain") || str_eq(format, "text/plain;charset=utf-8") {
        ClipboardFormat::Standard(CF_UNICODETEXT)
    } else if str_eq(format, "text/uri-list") {
        ClipboardFormat::Registered(String::from_str("UniformResourceLocatorW"))
    } else {
        ClipboardFormat::Registered(String::from_str(format))
    }
}

/// Whether the data object serves a request: the format must be its own
/// and the medium must allow global memory.
pub open spec fn request_answer(requested: u32, tymed: u32, own: u32) -> Result<(), i32> {
    if requested != own {
        Err(DV_E_FORMATETC)
    } else if tymed & TYMED_HGLOBAL == 0 {
        Err(DV_E_TYMED)
    } else {
        Ok(())
    }
}

/// Checks a request for the data object's data.
pub fn check_request(requested: u32, tymed: u32, own: u32) -> (r: Result<(), i32>)
    ensures
        r == request_answer(requested, tymed, own),
{
    if requested != own {
        Err(DV_E_FORMATETC)
    } else if tymed & TYMED_HGLOBAL == 0 {
        Err(DV_E_TYMED)
    } else {
        Ok(())
    }
}

/// Answers whether the data object has data in a format and medium.
pub fn query_get_data(requested: u32, tymed: u32, own: u32) -> (r: i32)
    ensures
        r == (if requested == own && tymed & TYMED_HGLOBAL != 0 {
            S_OK
        } else {
            DV_E_FORMATETC
        }),
{
    if requested == own && tymed & TYMED_HGLOBAL != 0 {
        S_OK
    } else {
        DV_E_FORMATETC
    }
}

/// The UTF-16 code units of a character.
pub open spec fn utf16_units(c: char) -> Seq<u16> {
    let v = c as u32;
    if v < 0x10000 {
        seq![v as u16]
    } else {
        let u = (v - 0x10000) as u32;
        seq![(0xD800 + (u >> 10u32)) as u16, (0xDC00 + (u & 0x3FF)) as u16]
    }
}

/// The UTF-16 encoding of characters.
pub open spec fn utf16_of(chars: Seq<char>) -> Seq<u16>
    decreases chars.len(),
{
    if chars.len() == 0 {
        Seq::empty()
    } else {
        utf16_of(chars.drop_last()) + utf16_units(chars.last())
    }
}

/// The little-endian bytes of UTF-16 code units.
pub open spec fn le_bytes_of(units: Seq<u16>) -> Seq<u8>
    decreases units.len(),
{
    if units.len() == 0 {
        Seq::empty()
    } else {
        le_bytes_of(units.drop_last()) + seq![
            (units.last() & 0xff) as u8,
            (units.last() >> 8u16) as u8,
        ]
    }
}

/// What `String::from_utf8_lossy` makes of bytes: their characters when they
/// are valid UTF-8, with replacement characters for invalid sequences
/// otherwise.
pub uninterp spec fn lossy_utf8(bytes: Seq<u8>) -> Seq<char>;

/// `String::from_utf8_lossy`: the bytes as text, invalid sequences replaced
/// by U+FFFD; valid UTF-8 decodes to the characters it encodes.
#[verifier::external_body]
pub(crate) fn utf8_lossy(bytes: &[u8]) -> (r: String)
    ensures
        r@ == lossy_utf8(bytes@),
        valid_utf8(bytes@) ==> encode_utf8(r@) == bytes@,
{
    String::from_utf8_lossy(bytes).into_owned()
}

/// Encodes characters in UTF-16.
pub fn encode_utf16(chars: &[char]) -> (r: Vec<u16>)
    ensures
        r@ == utf16_of(chars@),
{
    let mut out: Vec<u16> = Vec::new();
    let mut i: usize = 0;
    while i < chars.len()
        invariant
            i <= chars@.len(),
            out@ == utf16_of(chars@.take(i as int)),
        decreases chars@.len() - i,
    {
        let c = chars[i];
        let v = c as u32;
        proof {
            assert(chars@.take(i + 1).drop_last() =~= chars@.take(i as int));
        }
        if v < 0x10000 {
            out.push(v as u16);
        } else {
            let u = v - 0x10000;
            assert(u < 0x100000) by {
                vstd::utf8::char_is_scalar(c);
            }
            assert((u >> 10u32) < 0x400) by (bit_vector)
                requires
                    u < 0x100000,
            ;
            assert((u & 0x3FF) < 0x400) by (bit_vector);
            out.push((0xD800 + (u >> 10)) as u16);
            out.push((0xDC00 + (u & 0x3FF)) as u16);
        }
        proof {
            assert(chars@.take(i + 1).last() == c);
            assert(out@ =~= utf16_of(chars@.take(i as int)) + utf16_units(c));
        }
        i = i + 1;
    }
    assert(chars@.take(chars@.len() as int) =~= chars@);
    out
}

/// Lays out UTF-16 code units as little-endian bytes.
pub fn to_le_bytes(units: &[u16]) -> (r: Vec<u8>)
    ensures
        r@ == le_bytes_of(units@),
{
    let mut out: Vec<u8> = Vec::new();
    let mut i: usize = 0;
    while i < units.len()
        invariant
            i <= units@.len(),
            out@ == le_bytes_of(units@.take(i as int)),
        decreases units@.len() - i,
    {
        let u = units[i];
        proof {
            assert(units@.take(i + 1).drop_last() =~= units@.take(i as int));
        }
        out.push((u & 0xff) as u8);
        out.push((u >> 8) as u8);
        proof {
            assert(units@.take(i + 1).last() == u);
            assert(out@ =~= le_bytes_of(units@.take(i as int)) + seq![(u & 0xff) as u8, (u >> 8u16) as u8]);
        }
        i = i + 1;
    }
    assert(units@.take(units@.len() as int) =~= units@);
    out
}

/// Whether a format is a plain text one (it starts with `text/plain`).
pub open spec fn is_plain_text(format: Seq<char>) -> bool {
    format.len() >= 10 && format.take(10) == "text/plain"@
}

/// The bytes a data object hands out for its data: for plain text, the
/// text (invalid UTF-8 replaced) in UTF-16 with a terminating NUL, as
/// little-endian bytes; anything else as it is.
pub open spec fn medium_bytes_of(format: Seq<char>, data: Seq<u8>) -> Seq<u8> {
    if is_plain_text(format) {
        le_bytes_of(utf16_of(lossy_utf8(data)).push(0u16))
    } else {
        data
    }
}

/// Lays out a data object's data for its medium.
pub fn medium_bytes(format: &str, data: &[u8]) -> (r: Vec<u8>)
    ensures
        r@ == medium_bytes_of(format@, data@),
{
    let chars = chars_of(format);
    let plain = chars.len() >= 10 && chars[0] == 't' && chars[1] == 'e' && chars[2] == 'x'
        && chars[3] == 't' && chars[4] == '/' && chars[5] == 'p' && chars[6] == 'l' && chars[7]
        == 'a' && chars[8] == 'i' && chars[9] == 'n';
    proof {
        reveal_strlit("text/plain");
        if chars@.len() >= 10 {
            if plain {
                assert(chars@.take(10) =~= "text/plain"@);
            } else if chars@.take(10) == "text/plain"@ {
                assert(chars@.take(10)[0] == 't');
                assert(chars@.take(10)[1] == 'e');
                assert(chars@.take(10)[2] == 'x');
                assert(chars@.take(10)[3] == 't');
                assert(chars@.take(10)[4] == '/');
                assert(chars@.take(10)[5] == 'p');
                assert(chars@.take(10)[6] == 'l');
                assert(chars@.take(10)[7] == 'a');
                assert(chars@.take(10)[8] == 'i');
                assert(chars@.take(10)[9] == 'n');
            }
        }
    }
    if plain {
        let text = utf8_lossy(data);
        let text_chars = chars_of(text.as_str());
        let mut units = encode_utf16(text_chars.as_slice());
        units.push(0u16);
        to_le_bytes(units.as_slice())
    } else {
        vstd::slice::slice_to_vec(data)
    }
}

// ============================================================================
// The drop target
// ============================================================================

/// Events produced by the OLE drop target. Positions are relative to the
/// window.
#[derive(Debug)]
pub enum DropEvent<P> {
    /// A drag entered the window.
    DragEntered {
        /// Cursor position.
        position: P,
        /// Best-effort list of detected content formats.
        formats: Vec<String>,
    },
    /// The cursor moved while a drag is over the window.
    DragMoved {
        /// Cursor position.
        position: P,
    },
    /// The drag left the window without dropping.
    DragLeft,
    /// Data was dropped on the window.
    DragDropped {
        /// Cursor position at drop time.
        position: P,
        /// Dropped payload bytes.
        data: Vec<u8>,
        /// Best-effort format identifier (e.g. `text/plain`, `image/png`).
        format: String,
        /// Selected drop action.
        action: DropAction,
    },
    /// A file is being hovered over the window.
    FileHovered(String),
    /// A file was dropped into the window.
    FileDropped(String),
    /// Hovered files have left the window.
    FilesHoveredLeft,
}

/// Which clipboard formats a dragged data object answers for; HTML and PNG
/// count only when their formats could be registered.
#[derive(Debug, Clone, Copy, PartialEq, Eq, Structural)]
pub struct OfferedFormats {
    /// `CF_HDROP`: files.
    pub files: bool,
    /// `CF_UNICODETEXT`: text.
    pub unicode_text: bool,
    /// The registered `HTML Format`.
    pub html: bool,
    /// The registered `PNG` format.
    pub png: bool,
    /// `CF_DIBV5` or `CF_DIB`: a bitmap.
    pub bitmap: bool,
}

/// The formats a drag offers, in this order: a URI list for files, plain
/// text, HTML, PNG, and BMP for a bitmap.
pub open spec fn offered_formats(offered: OfferedFormats) -> Seq<Seq<char>> {
    (if offered.files { seq!["text/uri-list"@] } else { seq![] }) + (if offered.unicode_text {
        seq!["text/plain"@]
    } else {
        seq![]
    }) + (if offered.html { seq!["text/html"@] } else { seq![] }) + (if offered.png {
        seq!["image/png"@]
    } else {
        seq![]
    }) + (if offered.bitmap { seq!["image/bmp"@] } else { seq![] })
}

/// The characters of each string, in order.
pub open spec fn strings_view(strings: Seq<String>) -> Seq<Seq<char>> {
    strings.map_values(|s: String| s@)
}

fn push_if(formats: &mut Vec<String>, condition: bool, format: &str)
    ensures
        strings_view(final(formats)@) == strings_view(old(formats)@) + (if condition {
            seq![format@]
        } else {
            seq![]
        }),
{
    let ghost before = formats@;
    if condition {
        formats.push(String::from_str(format));
        assert(strings_view(formats@) =~= strings_view(before) + seq![format@]);
    } else {
        assert(strings_view(formats@) =~= strings_view(before) + Seq::<Seq<char>>::empty());
    }
}

/// Lists the formats a drag offers.
pub fn enumerate_formats(offered: OfferedFormats) -> (r: Vec<String>)
    ensures
        strings_view(r@) == offered_formats(offered),
{
    let mut formats: Vec<String> = Vec::new();
    assert(strings_view(formats@) =~= Seq::<Seq<char>>::empty());
    push_if(&mut formats, offered.files, "text/uri-list");
    push_if(&mut formats, offered.unicode_text, "text/plain");
    push_if(&mut formats, offered.html, "text/html");
    push_if(&mut formats, offered.png, "image/png");
    push_if(&mut formats, offered.bitmap, "image/bmp");
    formats
}

/// The payload a drop delivers: the first of text, HTML, PNG, a version 5
/// bitmap and a bitmap that could be read, with its format.
pub open spec fn chosen_payload(
    text: Option<Seq<u8>>,
    html: Option<Seq<u8>>,
    png: Option<Seq<u8>>,
    dibv5: Option<Seq<u8>>,
    dib: Option<Seq<u8>>,
) -> Option<(Seq<u8>, Seq<char>)> {
    if text is Some {
        Some((text->0, "text/plain"@))
    } else if html is Some {
        Some((html->0, "text/html"@))
    } else if png is Some {
        Some((png->0, "image/png"@))
    } else if dibv5 is Some {
        Some((dibv5->0, "image/bmp"@))
    } else if dib is Some {
        Some((dib->0, "image/bmp"@))
    } else {
        None
    }
}

/// Offered text always wins: whenever text is offered, the payload is that
/// text as `text/plain`, whatever else is offered. Without text, HTML wins
/// over images, and PNG over bitmaps. The payload is always one of the
/// offered ones, with its format, and there is none only when nothing is
/// offered.
pub proof fn law_text_payload_wins(
    text: Option<Seq<u8>>,
    html: Option<Seq<u8>>,
    png: Option<Seq<u8>>,
    dibv5: Option<Seq<u8>>,
    dib: Option<Seq<u8>>,
)
    ensures
        text matches Some(t) ==> chosen_payload(text, html, png, dibv5, dib) == Some(
            (t, "text/plain"@),
        ),
        text is None && html is Some ==> chosen_payload(text, html, png, dibv5, dib)
            == Some((html->0, "text/html"@)),
        text is None && html is None && png is Some ==> chosen_payload(
            text,
            html,
            png,
            dibv5,
            dib,
        ) == Some((png->0, "image/png"@)),
        chosen_payload(text, html, png, dibv5, dib) matches Some((bytes, format)) ==> (text
            == Some(bytes) && format == "text/plain"@) || (html == Some(bytes) && format
            == "text/html"@) || (png == Some(bytes) && format == "image/png"@) || ((dibv5 == Some(
            bytes,
        ) || dib == Some(bytes)) && format == "image/bmp"@),
        chosen_payload(text, html, png, dibv5, dib) is None <==> (text is None && html is None
            && png is None && dibv5 is None && dib is None),
{
}

/// The bytes of an optional byte vector.
pub open spec fn optional_bytes_view(bytes: Option<Vec<u8>>) -> Option<Seq<u8>> {
    match bytes {
        Some(b) => Some(b@),
        None => None,
    }
}

/// The bytes and format characters of an optional payload.
pub open spec fn payload_view(payload: Option<(Vec<u8>, String)>) -> Option<(Seq<u8>, Seq<char>)> {
    match payload {
        Some((data, format)) => Some((data@, format@)),
        None => None,
    }
}

/// Chooses the payload of a drop from what could be read in each format
/// (nothing when the format is not offered or reading it failed).
pub fn choose_payload(
    text: Option<Vec<u8>>,
    html: Option<Vec<u8>>,
    png: Option<Vec<u8>>,
    dibv5: Option<Vec<u8>>,
    dib: Option<Vec<u8>>,
) -> (r: Option<(Vec<u8>, String)>)
    ensures
        payload_view(r) == chosen_payload(
            optional_bytes_view(text),
            optional_bytes_view(html),
            optional_bytes_view(png),
            optional_bytes_view(dibv5),
            optional_bytes_view(dib),
        ),
{
    if let Some(bytes) = text {
        return Some((bytes, String::from_str("text/plain")));
    }
    if let Some(bytes) = html {
        return Some((bytes, String::from_str("text/html")));
    }
    if let Some(bytes) = png {
        return Some((bytes, String::from_str("image/png")));
    }
    if let Some(bytes) = dibv5 {
        return Some((bytes, String::from_str("image/bmp")));
    }
    if let Some(bytes) = dib {
        return Some((bytes, String::from_str("image/bmp")));
    }
    None
}

/// What `String::from_utf16_lossy` makes of UTF-16 code units: a high
/// surrogate followed by a low one is the character they encode together,
/// any other surrogate (unpaired) is U+FFFD, and every other unit is the
/// character with its value.
pub open spec fn lossy_utf16(units: Seq<u16>) -> Seq<char>
    decreases units.len(),
{
    if units.len() == 0 {
        Seq::empty()
    } else {
        let u = units[0];
        if 0xD800 <= u <= 0xDBFF && units.len() >= 2 && 0xDC00 <= units[1] <= 0xDFFF {
            seq![((0x10000 + (u - 0xD800) * 0x400 + (units[1] - 0xDC00)) as u32) as char]
                + lossy_utf16(units.subrange(2, units.len() as int))
        } else if 0xD800 <= u <= 0xDFFF {
            seq!['\u{FFFD}'] + lossy_utf16(units.drop_first())
        } else {
            seq![(u as u32) as char] + lossy_utf16(units.drop_first())
        }
    }
}

/// The code units of one character, then more units, decode to the
/// character, then what the more units decode to.
proof fn lemma_utf16_units_decode(c: char, rest: Seq<u16>)
    ensures
        lossy_utf16(utf16_units(c) + rest) == seq![c] + lossy_utf16(rest),
{
    let v = c as u32;
    vstd::utf8::char_is_scalar(c);
    let units = utf16_units(c) + rest;
    if v < 0x10000 {
        let u = v as u16;
        assert(!(0xD800 <= u <= 0xDFFF));
        assert(units.drop_first() =~= rest);
        vstd::utf8::char_u32_cast(c, v);
        assert((u as u32) == v);
    } else {
        let w = (v - 0x10000) as u32;
        let hi = (0xD800 + (w >> 10u32)) as u16;
        let lo = (0xDC00 + (w & 0x3FF)) as u16;
        assert(w >> 10u32 <= 0x3FF && w & 0x3FF <= 0x3FF && (w >> 10u32) * 0x400 + (w & 0x3FF) == w)
            by (bit_vector)
            requires
                w <= 0xFFFFF,
        ;
        assert(units[0] == hi && units[1] == lo);
        assert(units.subrange(2, units.len() as int) =~= rest);
        assert(0x10000 + (hi - 0xD800) * 0x400 + (lo - 0xDC00) == v);
        vstd::utf8::char_u32_cast(c, v);
    }
}

/// The UTF-16 encoding of characters is that of the first, then that of
/// the rest.
proof fn lemma_utf16_of_front(chars: Seq<char>)
    requires
        chars.len() > 0,
    ensures
        utf16_of(chars) == utf16_units(chars[0]) + utf16_of(chars.drop_first()),
    decreases chars.len(),
{
    if chars.len() > 1 {
        let d = chars.drop_last();
        lemma_utf16_of_front(d);
        assert(d.drop_first() =~= chars.drop_first().drop_last());
        assert(chars.drop_first().last() == chars.last());
        assert(utf16_of(chars.drop_first()) == utf16_of(d.drop_first()) + utf16_units(chars.last()));
    } else {
        assert(chars.drop_last() =~= Seq::<char>::empty());
        assert(chars.drop_first() =~= Seq::<char>::empty());
    }
}

/// Decoding the UTF-16 encoding of characters gives the characters back:
/// the lossy decoding loses nothing of valid UTF-16.
pub proof fn law_utf16_round_trip(chars: Seq<char>)
    ensures
        lossy_utf16(utf16_of(chars)) == chars,
    decreases chars.len(),
{
    if chars.len() > 0 {
        lemma_utf16_of_front(chars);
        lemma_utf16_units_decode(chars[0], utf16_of(chars.drop_first()));
        law_utf16_round_trip(chars.drop_first());
        assert(seq![chars[0]] + chars.drop_first() =~= chars);
    }
}

/// `String::from_utf16_lossy`: the code units as text, unpaired surrogates
/// replaced by U+FFFD.
#[verifier::external_body]
fn utf16_lossy(units: &[u16]) -> (r: String)
    ensures
        r@ == lossy_utf16(units@),
{
    String::from_utf16_lossy(units)
}

/// The index of the first NUL at or after `from`, or the length when there
/// is none.
pub open spec fn first_nul(units: Seq<u16>, from: int) -> int
    decreases units.len() - from,
{
    if from < 0 || from >= units.len() {
        units.len() as int
    } else if units[from] == 0 {
        from
    } else {
        first_nul(units, from + 1)
    }
}

/// The UTF-8 bytes of the text in a `CF_UNICODETEXT` buffer: the code units
/// before the first NUL, decoded with replacement characters.
pub fn text_from_wide(units: &[u16]) -> (r: Vec<u8>)
    ensures
        r@ == encode_utf8(lossy_utf16(units@.take(first_nul(units@, 0)))),
{
    let mut end: usize = 0;
    while end < units.len() && units[end] != 0
        invariant
            end <= units@.len(),
            first_nul(units@, end as int) == first_nul(units@, 0),
        decreases units@.len() - end,
    {
        end = end + 1;
    }
    let (head, _) = units.split_at(end);
    proof {
        assert(head@ =~= units@.take(end as int));
    }
    let text = utf16_lossy(head);
    vstd::slice::slice_to_vec(text.as_str().as_bytes())
}

/// The paths of the files of a `CF_HDROP` drop, from the code units copied
/// for each: files for which nothing was copied are skipped, and the rest
/// are decoded with replacement characters.
pub open spec fn decoded_paths(copied: Seq<Vec<u16>>) -> Seq<Seq<char>>
    decreases copied.len(),
{
    if copied.len() == 0 {
        Seq::empty()
    } else if copied.last()@.len() > 0 {
        decoded_paths(copied.drop_last()).push(lossy_utf16(copied.last()@))
    } else {
        decoded_paths(copied.drop_last())
    }
}

/// Reads the paths of a `CF_HDROP` drop from the code units copied for each
/// of its files.
pub fn hdrop_paths(copied: &[Vec<u16>]) -> (r: Vec<String>)
    ensures
        strings_view(r@) == decoded_paths(copied@),
{
    let mut out: Vec<String> = Vec::new();
    let mut i: usize = 0;
    while i < copied.len()
        invariant
            i <= copied@.len(),
            strings_view(out@) == decoded_paths(copied@.take(i as int)),
        decreases copied@.len() - i,
    {
        let ghost before = out@;
        proof {
            assert(copied@.take(i + 1).drop_last() =~= copied@.take(i as int));
            assert(copied@.take(i + 1).last() == copied@[i as int]);
        }
        if copied[i].len() > 0 {
            let path = utf16_lossy(copied[i].as_slice());
            out.push(path);
            proof {
                assert(strings_view(out@) =~= strings_view(before).push(lossy_utf16(copied@[i as int]@)));
            }
        } else {
            assert(strings_view(out@) =~= strings_view(before));
        }
        i = i + 1;
    }
    assert(copied@.take(copied@.len() as int) =~= copied@);
    out
}

/// The events that hover or drop files, in order.
pub open spec fn file_events<P>(events: Seq<DropEvent<P>>, paths: Seq<String>, hovered: bool) -> bool {
    &&& events.len() == paths.len()
    &&& forall|i: int|
        0 <= i < paths.len() ==> #[trigger] events[i] == (if hovered {
            DropEvent::<P>::FileHovered(paths[i])
        } else {
            DropEvent::<P>::FileDropped(paths[i])
        })
}

fn push_file_events<P>(events: &mut Vec<DropEvent<P>>, paths: &[String], hovered: bool)
    ensures
        final(events)@.len() == old(events)@.len() + paths@.len(),
        final(events)@.subrange(0, old(events)@.len() as int) == old(events)@,
        file_events(
            final(events)@.subrange(old(events)@.len() as int, final(events)@.len() as int),
            paths@,
            hovered,
        ),
{
    let ghost start = events@;
    let mut i: usize = 0;
    while i < paths.len()
        invariant
            i <= paths@.len(),
            events@.len() == start.len() + i,
            events@.subrange(0, start.len() as int) == start,
            forall|j: int|
                0 <= j < i ==> #[trigger] events@[start.len() + j] == (if hovered {
                    DropEvent::<P>::FileHovered(paths@[j])
                } else {
                    DropEvent::<P>::FileDropped(paths@[j])
                }),
        decreases paths@.len() - i,
    {
        let ghost before = events@;
        let p = paths[i].clone();
        if hovered {
            events.push(DropEvent::FileHovered(p));
        } else {
            events.push(DropEvent::FileDropped(p));
        }
        assert(events@.subrange(0, start.len() as int) =~= before.subrange(0, start.len() as int));
        i = i + 1;
    }
    let ghost tail = events@.subrange(start.len() as int, events@.len() as int);
    assert forall|j: int| 0 <= j < paths@.len() implies #[trigger] tail[j] == (if hovered {
        DropEvent::<P>::FileHovered(paths@[j])
    } else {
        DropEvent::<P>::FileDropped(paths@[j])
    }) by {
        assert(tail[j] == events@[start.len() + j]);
    }
}

/// Answers a drag entering the window: the drag enters with its formats,
/// then each file it carries is hovered, in order; the target asks for a
/// copy.
pub fn drag_enter<P>(position: P, formats: Vec<String>, paths: &[String]) -> (r: (
    Vec<DropEvent<P>>,
    u32,
))
    ensures
        r.1 == EFFECT_COPY,
        r.0@.len() == paths@.len() + 1,
        r.0@[0] == (DropEvent::DragEntered { position, formats }),
        file_events(r.0@.subrange(1, r.0@.len() as int), paths@, true),
{
    let mut events: Vec<DropEvent<P>> = Vec::new();
    events.push(DropEvent::DragEntered { position, formats });
    let ghost entered = events@;
    push_file_events(&mut events, paths, true);
    assert(events@[0] == events@.subrange(0, 1)[0]);
    (events, EFFECT_COPY)
}

/// Answers a drag moving over the window: it moved; the target keeps
/// asking for a copy.
pub fn drag_over<P>(position: P) -> (r: (DropEvent<P>, u32))
    ensures
        r == (DropEvent::DragMoved { position }, EFFECT_COPY),
{
    (DropEvent::DragMoved { position }, EFFECT_COPY)
}

/// Answers a drag leaving the window: the drag left, and so did any hovered
/// files.
pub fn drag_leave<P>() -> (r: (DropEvent<P>, DropEvent<P>))
    ensures
        r == (DropEvent::<P>::DragLeft, DropEvent::<P>::FilesHoveredLeft),
{
    (DropEvent::DragLeft, DropEvent::FilesHoveredLeft)
}

/// Answers a drop: when it offers files, each readable file is dropped, in
/// order, the hover ends and the effect is a copy; otherwise its payload is
/// dropped as a copy, or, with no readable payload, an empty drop of format
/// `unknown` is reported and the effect is none.
pub fn drop<P>(position: P, files_offered: bool, paths: &[String], payload: Option<(Vec<u8>, String)>) -> (r: (
    Vec<DropEvent<P>>,
    u32,
))
    ensures
        files_offered ==> r.1 == EFFECT_COPY && r.0@.len() == paths@.len() + 1 && file_events(
            r.0@.subrange(0, paths@.len() as int),
            paths@,
            false,
        ) && r.0@[paths@.len() as int] == DropEvent::<P>::FilesHoveredLeft,
        !files_offered ==> match payload {
            Some((data, format)) => r.1 == EFFECT_COPY && r.0@ == seq![
                DropEvent::DragDropped { position, data, format, action: DropAction::Copy },
            ],
            None => r.1 == 0 && r.0@.len() == 1 && (r.0@[0] matches DropEvent::DragDropped {
                position: p,
                data,
                format,
                action,
            } && p == position && data@.len() == 0 && format@ == "unknown"@ && action
                == DropAction::Copy),
        },
{
    let mut events: Vec<DropEvent<P>> = Vec::new();
    if files_offered {
        push_file_events(&mut events, paths, false);
        assert(events@.subrange(0, events@.len() as int) =~= events@);
        let ghost dropped = events@;
        events.push(DropEvent::FilesHoveredLeft);
        assert(events@.subrange(0, dropped.len() as int) =~= dropped);
        return (events, EFFECT_COPY);
    }
    match payload {
        Some((data, format)) => {
            events.push(DropEvent::DragDropped { position, data, format, action: DropAction::Copy });
            (events, EFFECT_COPY)
        },
        None => {
            events.push(
                DropEvent::DragDropped {
                    position,
                    data: Vec::new(),
                    format: String::from_str("unknown"),
                    action: DropAction::Copy,
                },
            );
            (events, 0)
        },
    }
}

} // verus!
