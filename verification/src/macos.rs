//! macOS drag and drop rules: drag operations, how a finished drag or a drop
//! is reported, which pasteboard types map to which formats, and how a drop
//! is read from the pasteboard.
//!
//! Operations are `NSDragOperation` bit masks: copy is 1, link is 2 and move
//! is 16.
use vstd::prelude::*;

use vstd::string::StringExecFns;
use crate::text::{chars_of, push_char, push_chars, str_eq};
#[allow(unused_imports)]
use vstd::string::StringSliceAdditionalSpecFns;
use vstd::utf8::{decode_utf8, encode_scalar, encode_utf8, has_width_1_encoding, valid_utf8};
use crate::windows::{lossy_utf8, utf8_lossy};

verus! {

/// Errors that can occur during drag operations.
#[derive(Debug, Clone, Copy, PartialEq, Eq, Hash, Structural)]
pub enum DragError {
    /// Not running on the main thread (required for AppKit operations).
    NotMainThread,
    /// No current event available (drag must be initiated during mouse event
    /// processing).
    NoCurrentEvent,
    /// The provided view pointer is invalid.
    InvalidView,
    /// Failed to create pasteboard item.
    PasteboardError,
    /// The drag operation is not supported on this platform.
    NotSupported,
}

impl DragError {
    /// The error's message.
    pub fn message(&self) -> (r: &'static str)
        ensures
            r@ == (match *self {
                DragError::NotMainThread => "Not on main thread"@,
                DragError::NoCurrentEvent => "No current event (call during mouse event processing)"@,
                DragError::InvalidView => "Invalid NSView pointer"@,
                DragError::PasteboardError => "Failed to create pasteboard item"@,
                DragError::NotSupported => "Drag operation not supported on this platform"@,
            }),
    {
        match self {
            DragError::NotMainThread => "Not on main thread",
            DragError::NoCurrentEvent => "No current event (call during mouse event processing)",
            DragError::InvalidView => "Invalid NSView pointer",
            DragError::PasteboardError => "Failed to create pasteboard item",
            DragError::NotSupported => "Drag operation not supported on this platform",
        }
    }
}

/// The copy bit of an operation mask.
pub const OPERATION_COPY: usize = 1;

/// The link bit of an operation mask.
pub const OPERATION_LINK: usize = 2;

/// The move bit of an operation mask.
pub const OPERATION_MOVE: usize = 16;

/// Allowed drag operations.
#[derive(Debug, Clone, Copy, PartialEq, Eq, Hash, Structural)]
pub struct DragOperation {
    bits: usize,
}

impl DragOperation {
    /// The operation mask.
    pub closed spec fn mask(self) -> usize {
        self.bits
    }

    /// No operation allowed.
    #[allow(non_snake_case)]
    pub fn NONE() -> (r: Self)
        ensures
            r.mask() == 0,
    {
        DragOperation { bits: 0 }
    }

    /// Copy the dragged data.
    #[allow(non_snake_case)]
    pub fn COPY() -> (r: Self)
        ensures
            r.mask() == OPERATION_COPY,
    {
        DragOperation { bits: OPERATION_COPY }
    }

    /// Link to the dragged data.
    #[allow(non_snake_case)]
    pub fn LINK() -> (r: Self)
        ensures
            r.mask() == OPERATION_LINK,
    {
        DragOperation { bits: OPERATION_LINK }
    }

    /// Move the dragged data.
    #[allow(non_snake_case)]
    pub fn MOVE() -> (r: Self)
        ensures
            r.mask() == OPERATION_MOVE,
    {
        DragOperation { bits: OPERATION_MOVE }
    }

    /// All operations allowed: copy, link and move.
    #[allow(non_snake_case)]
    pub fn ALL() -> (r: Self)
        ensures
            r.mask() == OPERATION_COPY | OPERATION_LINK | OPERATION_MOVE,
    {
        DragOperation { bits: OPERATION_COPY | OPERATION_LINK | OPERATION_MOVE }
    }

    /// The operation mask.
    pub fn bits(self) -> (r: usize)
        ensures
            r == self.mask(),
    {
        self.bits
    }
}

impl std::ops::BitOr for DragOperation {
    type Output = Self;

    fn bitor(self, rhs: Self) -> (r: Self) {
        DragOperation { bits: self.bits | rhs.bits }
    }
}

impl vstd::std_specs::ops::BitOrSpecImpl for DragOperation {
    open spec fn obeys_bitor_spec() -> bool {
        true
    }

    open spec fn bitor_req(self, rhs: Self) -> bool {
        true
    }

    closed spec fn bitor_spec(self, rhs: Self) -> Self {
        DragOperation { bits: self.bits | rhs.bits }
    }
}

/// Combining operations takes the union of their masks.
pub proof fn law_combined_operation_mask(a: DragOperation, b: DragOperation)
    ensures
        vstd::std_specs::ops::BitOrSpec::bitor_spec(a, b).mask() == a.mask() | b.mask(),
{
}

/// Result of a completed drag operation.
#[derive(Debug, Clone, Copy, PartialEq, Eq, Hash, Structural)]
pub enum DragResult {
    /// The drag was cancelled.
    Cancelled,
    /// The data was copied.
    Copied,
    /// The data was linked.
    Linked,
    /// The data was moved.
    Moved,
}

/// The result a drag source reports for the operation the drag ended with:
/// a move wins over a copy, which wins over a link; no operation is a
/// cancellation.
pub open spec fn result_of_operation(operation: usize) -> DragResult {
    if operation & OPERATION_MOVE != 0 {
        DragResult::Moved
    } else if operation & OPERATION_COPY != 0 {
        DragResult::Copied
    } else if operation & OPERATION_LINK != 0 {
        DragResult::Linked
    } else {
        DragResult::Cancelled
    }
}

/// Converts the operation a drag ended with to its result.
pub fn operation_to_result(operation: usize) -> (r: DragResult)
    ensures
        r == result_of_operation(operation),
{
    if operation & OPERATION_MOVE != 0 {
        DragResult::Moved
    } else if operation & OPERATION_COPY != 0 {
        DragResult::Copied
    } else if operation & OPERATION_LINK != 0 {
        DragResult::Linked
    } else {
        DragResult::Cancelled
    }
}

/// The selected drop action.
#[derive(Debug, Clone, Copy, PartialEq, Eq, Hash, Structural)]
pub enum DropAction {
    /// No action.
    NoAction,
    /// Copy.
    Copy,
    /// Move.
    Move,
    /// Link.
    Link,
}

/// The action of a drop for the operations the source allows: move wins
/// over copy, which wins over link.
pub open spec fn action_of_operation(operation: usize) -> DropAction {
    if operation & OPERATION_MOVE != 0 {
        DropAction::Move
    } else if operation & OPERATION_COPY != 0 {
        DropAction::Copy
    } else if operation & OPERATION_LINK != 0 {
        DropAction::Link
    } else {
        DropAction::NoAction
    }
}

impl DropAction {
    /// Converts an operation mask to a high-level action.
    pub fn from_operation(operation: usize) -> (r: Self)
        ensures
            r == action_of_operation(operation),
    {
        if operation & OPERATION_MOVE != 0 {
            DropAction::Move
        } else if operation & OPERATION_COPY != 0 {
            DropAction::Copy
        } else if operation & OPERATION_LINK != 0 {
            DropAction::Link
        } else {
            DropAction::NoAction
        }
    }
}

/// The uniform type identifier for a MIME type; a type with no known
/// identifier is used as it is.
pub open spec fn uti_of(format: Seq<char>) -> Seq<char> {
    if format == "text/plain"@ || format == "text/plain;charset=utf-8"@ {
        "public.utf8-plain-text"@
    } else if format == "text/html"@ {
        "public.html"@
    } else if format == "text/uri-list"@ {
        "public.url"@
    } else if format == "image/png"@ {
        "public.png"@
    } else if format == "image/jpeg"@ {
        "public.jpeg"@
    } else if format == "application/json"@ {
        "public.json"@
    } else {
        format
    }
}

/// Converts a format to a macOS uniform type identifier.
pub fn format_to_uti(format: &str) -> (r: String)
    ensures
        r@ == uti_of(format@),
{
    if str_eq(format, "text/plain") || str_eq(format, "text/plain;charset=utf-8") {
        String::from_str("public.utf8-plain-text")
    } else if str_eq(format, "text/html") {
        String::from_str("public.html")
    } else if str_eq(format, "text/uri-list") {
        String::from_str("public.url")
    } else if str_eq(format, "image/png") {
        String::from_str("public.png")
    } else if str_eq(format, "image/jpeg") {
        String::from_str("public.jpeg")
    } else if str_eq(format, "application/json") {
        String::from_str("public.json")
    } else {
        String::from_str(format)
    }
}

/// The value of a hexadecimal digit (an ASCII byte), in either case.
pub open spec fn hex_digit_value(b: u8) -> Option<u8> {
    if 0x30 <= b && b <= 0x39 {
        Some((b - 0x30) as u8)
    } else if 0x61 <= b && b <= 0x66 {
        Some((b - 0x61 + 10) as u8)
    } else if 0x41 <= b && b <= 0x46 {
        Some((b - 0x41 + 10) as u8)
    } else {
        None
    }
}

/// The byte that one or two hexadecimal digits spell.
pub open spec fn hex_digits_value(digits: Seq<u8>) -> Option<u8> {
    if digits.len() == 1 {
        hex_digit_value(digits[0])
    } else if digits.len() == 2 {
        match (hex_digit_value(digits[0]), hex_digit_value(digits[1])) {
            (Some(hi), Some(lo)) => Some((hi * 16 + lo) as u8),
            _ => None,
        }
    } else {
        None
    }
}

/// The byte that the text after a `%` (at most two bytes) reads as, in base
/// 16, as `u8::from_str_radix` reads it: an optional leading `+`, then one
/// or two hexadecimal digits.
pub open spec fn hex_byte(text: Seq<u8>) -> Option<u8> {
    if text.len() == 0 {
        None
    } else if text[0] == 0x2B {
        if text.len() == 1 {
            None
        } else {
            hex_digits_value(text.drop_first())
        }
    } else {
        hex_digits_value(text)
    }
}

/// The bytes that a percent-encoded byte string stands for: each `%` takes
/// up to the next two bytes; when they read as a byte, that byte stands in
/// their place, and otherwise they stay as they are, after the `%`. Every
/// other byte stays as it is.
pub open spec fn unescaped_bytes(bytes: Seq<u8>) -> Seq<u8>
    decreases bytes.len(),
{
    if bytes.len() == 0 {
        Seq::empty()
    } else if bytes[0] == 0x25 {
        let end = if bytes.len() < 3 {
            bytes.len() as int
        } else {
            3
        };
        let hex = bytes.subrange(1, end);
        let rest = bytes.subrange(end, bytes.len() as int);
        match hex_byte(hex) {
            Some(b) => seq![b] + unescaped_bytes(rest),
            None => seq![0x25u8] + hex + unescaped_bytes(rest),
        }
    } else {
        seq![bytes[0]] + unescaped_bytes(bytes.drop_first())
    }
}

/// The percent-decoding of a file URL's path: the escapes of the path's
/// UTF-8 encoding are replaced by the bytes they stand for, and the bytes
/// are read as UTF-8 text. Where they are not valid UTF-8 the invalid
/// sequences read as replacement characters.
pub open spec fn percent_decoded(input: Seq<char>) -> Seq<char> {
    let bytes = unescaped_bytes(encode_utf8(input));
    if valid_utf8(bytes) {
        decode_utf8(bytes)
    } else {
        lossy_utf8(bytes)
    }
}

fn hex_digit(b: u8) -> (r: Option<u8>)
    ensures
        r == hex_digit_value(b),
{
    if 0x30 <= b && b <= 0x39 {
        Some(b - 0x30)
    } else if 0x61 <= b && b <= 0x66 {
        Some(b - 0x61 + 10)
    } else if 0x41 <= b && b <= 0x46 {
        Some(b - 0x41 + 10)
    } else {
        None
    }
}

fn parse_hex_digits(digits: &[u8]) -> (r: Option<u8>)
    ensures
        r == hex_digits_value(digits@),
{
    if digits.len() == 1 {
        hex_digit(digits[0])
    } else if digits.len() == 2 {
        match (hex_digit(digits[0]), hex_digit(digits[1])) {
            (Some(hi), Some(lo)) => Some(hi * 16 + lo),
            _ => None,
        }
    } else {
        None
    }
}

fn parse_hex_byte(text: &[u8]) -> (r: Option<u8>)
    ensures
        r == hex_byte(text@),
{
    if text.len() == 0 {
        None
    } else if text[0] == 0x2B {
        if text.len() == 1 {
            None
        } else {
            let (_, digits) = text.split_at(1);
            proof {
                assert(digits@ =~= text@.drop_first());
            }
            parse_hex_digits(digits)
        }
    } else {
        parse_hex_digits(text)
    }
}

fn unescape_bytes(bytes: &[u8]) -> (r: Vec<u8>)
    ensures
        r@ == unescaped_bytes(bytes@),
{
    let n = bytes.len();
    let mut result: Vec<u8> = Vec::new();
    let mut i: usize = 0;
    proof {
        assert(bytes@.subrange(0, n as int) =~= bytes@);
        assert(result@ + unescaped_bytes(bytes@) =~= unescaped_bytes(bytes@));
    }
    while i < n
        invariant
            n == bytes@.len(),
            i <= n,
            result@ + unescaped_bytes(bytes@.subrange(i as int, n as int)) == unescaped_bytes(
                bytes@,
            ),
        decreases n - i,
    {
        let ghost tail = bytes@.subrange(i as int, n as int);
        let b = bytes[i];
        if b == 0x25 {
            let end: usize = if n - i < 3 { n } else { i + 3 };
            let mut hex: Vec<u8> = Vec::new();
            let mut k: usize = i + 1;
            while k < end
                invariant
                    i + 1 <= k <= end <= n,
                    n == bytes@.len(),
                    hex@ == bytes@.subrange(i + 1, k as int),
                decreases end - k,
            {
                hex.push(bytes[k]);
                k = k + 1;
            }
            proof {
                assert(tail.subrange(1, end - i) =~= hex@);
                assert(tail.subrange(end - i, tail.len() as int) =~= bytes@.subrange(
                    end as int,
                    n as int,
                ));
            }
            let ghost before = result@;
            match parse_hex_byte(hex.as_slice()) {
                Some(v) => {
                    result.push(v);
                },
                None => {
                    result.push(0x25);
                    let mut j: usize = 0;
                    while j < hex.len()
                        invariant
                            j <= hex@.len(),
                            result@ == before.push(0x25u8) + hex@.take(j as int),
                        decreases hex@.len() - j,
                    {
                        result.push(hex[j]);
                        j = j + 1;
                        proof {
                            assert(result@ =~= before.push(0x25u8) + hex@.take(j as int));
                        }
                    }
                    assert(hex@.take(hex@.len() as int) =~= hex@);
                },
            }
            proof {
                assert(before + unescaped_bytes(tail) =~= result@ + unescaped_bytes(
                    bytes@.subrange(end as int, n as int),
                ));
            }
            i = end;
        } else {
            let ghost before = result@;
            result.push(b);
            proof {
                assert(tail.drop_first() =~= bytes@.subrange(i + 1, n as int));
                assert(before + unescaped_bytes(tail) =~= result@ + unescaped_bytes(
                    bytes@.subrange(i + 1, n as int),
                ));
            }
            i = i + 1;
        }
    }
    proof {
        assert(bytes@.subrange(n as int, n as int) =~= Seq::<u8>::empty());
        assert(result@ + Seq::<u8>::empty() =~= result@);
    }
    result
}

/// No byte of a character's UTF-8 encoding is a `%` byte, unless the
/// character is `%`.
proof fn lemma_scalar_has_no_percent(c: char)
    requires
        c != '%',
    ensures
        !encode_scalar(c as u32).contains(0x25u8),
{
    let v = c as u32;
    vstd::utf8::char_is_scalar(c);
    let e = encode_scalar(v);
    if has_width_1_encoding(v) {
        assert(v != 0x25);
        assert((v & 0x7F) as u8 != 0x25u8) by (bit_vector)
            requires
                v <= 0x7F,
                v != 0x25,
        ;
        assert(e[0] != 0x25u8);
    } else {
        assert forall|k: int| 0 <= k < e.len() implies e[k] != 0x25u8 by {
            let x = e[k];
            assert(x >= 0x80) by {
                assert(forall|y: u8| #![auto] (0xC0u8 | y) >= 0x80u8) by (bit_vector);
                assert(forall|y: u8| #![auto] (0xE0u8 | y) >= 0x80u8) by (bit_vector);
                assert(forall|y: u8| #![auto] (0xF0u8 | y) >= 0x80u8) by (bit_vector);
                assert(forall|y: u8| #![auto] (0x80u8 | y) >= 0x80u8) by (bit_vector);
            }
        }
    }
}

/// No byte of the UTF-8 encoding of text without a `%` is a `%` byte.
proof fn lemma_encoding_has_no_percent(input: Seq<char>)
    requires
        !input.contains('%'),
    ensures
        !encode_utf8(input).contains(0x25u8),
    decreases input.len(),
{
    if input.len() > 0 {
        assert(input[0] != '%') by {
            assert(input.contains(input[0]));
        }
        let rest = input.drop_first();
        assert(!rest.contains('%')) by {
            if rest.contains('%') {
                let j = choose|j: int| 0 <= j < rest.len() && rest[j] == '%';
                assert(input[j + 1] == '%');
            }
        }
        lemma_scalar_has_no_percent(input[0]);
        lemma_encoding_has_no_percent(rest);
        let a = encode_scalar(input[0] as u32);
        let b = encode_utf8(rest);
        assert(encode_utf8(input) == a + b);
        if (a + b).contains(0x25u8) {
            let j = choose|j: int| 0 <= j < (a + b).len() && (a + b)[j] == 0x25u8;
            if j < a.len() {
                assert(a[j] == 0x25u8);
            } else {
                assert(b[j - a.len()] == 0x25u8);
            }
        }
    }
}

/// Bytes without a `%` stand for themselves.
proof fn lemma_plain_bytes_unescaped(bytes: Seq<u8>)
    requires
        !bytes.contains(0x25u8),
    ensures
        unescaped_bytes(bytes) == bytes,
    decreases bytes.len(),
{
    if bytes.len() > 0 {
        assert(bytes[0] != 0x25u8) by {
            assert(bytes.contains(bytes[0]));
        }
        let rest = bytes.drop_first();
        assert(!rest.contains(0x25u8)) by {
            if rest.contains(0x25u8) {
                let j = choose|j: int| 0 <= j < rest.len() && rest[j] == 0x25u8;
                assert(bytes[j + 1] == 0x25u8);
            }
        }
        lemma_plain_bytes_unescaped(rest);
        assert(seq![bytes[0]] + rest =~= bytes);
    }
}

/// Text without a `%` decodes to itself.
pub proof fn law_percent_decode_plain(input: Seq<char>)
    requires
        !input.contains('%'),
    ensures
        percent_decoded(input) == input,
{
    lemma_encoding_has_no_percent(input);
    lemma_plain_bytes_unescaped(encode_utf8(input));
    vstd::utf8::encode_utf8_valid_utf8(input);
    vstd::utf8::encode_utf8_decode_utf8(input);
}

/// A drag source's result and a drop target's action read an operation
/// mask alike: a move, else a copy, else a link, else nothing.
pub proof fn law_result_and_action_agree(operation: usize)
    ensures
        (result_of_operation(operation) == DragResult::Moved) == (action_of_operation(operation)
            == DropAction::Move),
        (result_of_operation(operation) == DragResult::Copied) == (action_of_operation(operation)
            == DropAction::Copy),
        (result_of_operation(operation) == DragResult::Linked) == (action_of_operation(operation)
            == DropAction::Link),
        (result_of_operation(operation) == DragResult::Cancelled) == (action_of_operation(
            operation,
        ) == DropAction::NoAction),
{
}

/// Decodes the percent escapes of a file URL's path, reading the bytes
/// they stand for as UTF-8.
pub fn percent_decode(input: &str) -> (r: String)
    ensures
        r@ == percent_decoded(input@),
{
    let raw = unescape_bytes(input.as_bytes());
    let r = utf8_lossy(raw.as_slice());
    proof {
        if valid_utf8(raw@) {
            vstd::utf8::encode_utf8_decode_utf8(r@);
        }
    }
    r
}

// ============================================================================
// Reading a drop from the pasteboard
// ============================================================================

/// The characters of each string, in order.
pub open spec fn strings_view(strings: Seq<String>) -> Seq<Seq<char>> {
    strings.map_values(|s: String| s@)
}

/// The pasteboard types a drop target registers for.
pub open spec fn accepted_types() -> Seq<&'static str> {
    seq![
        "public.utf8-plain-text",
        "public.url",
        "public.file-url",
        "public.html",
        "public.png",
        "public.jpeg",
        "NSFilenamesPboardType",
    ]
}

/// The pasteboard types a drop target registers for: text, URLs, file URLs,
/// HTML, PNG and JPEG images, and file names.
pub fn accepted_pasteboard_types() -> (r: &'static [&'static str])
    ensures
        r@ == accepted_types(),
{
    &[
        "public.utf8-plain-text",
        "public.url",
        "public.file-url",
        "public.html",
        "public.png",
        "public.jpeg",
        "NSFilenamesPboardType",
    ]
}

/// Whether the pasteboard offers the given type.
fn has_type(types: &[String], uti: &str) -> (r: bool)
    ensures
        r == strings_view(types@).contains(uti@),
{
    let mut i: usize = 0;
    while i < types.len()
        invariant
            i <= types@.len(),
            forall|j: int| 0 <= j < i ==> types@[j]@ != uti@,
        decreases types@.len() - i,
    {
        if str_eq(types[i].as_str(), uti) {
            proof {
                assert(strings_view(types@)[i as int] == uti@);
            }
            return true;
        }
        i = i + 1;
    }
    proof {
        if strings_view(types@).contains(uti@) {
            let j = choose|j: int| 0 <= j < strings_view(types@).len() && strings_view(types@)[j] == uti@;
            assert(types@[j]@ == uti@);
        }
    }
    false
}

/// The formats a drag offers, from the types on its pasteboard, in this
/// order: plain text, a URI list for URLs or file URLs, HTML, PNG, JPEG, and
/// a URI list again for file names.
pub open spec fn pasteboard_formats(types: Seq<Seq<char>>) -> Seq<Seq<char>> {
    (if types.contains("public.utf8-plain-text"@) { seq!["text/plain"@] } else { seq![] })
        + (if types.contains("public.url"@) || types.contains("public.file-url"@) {
        seq!["text/uri-list"@]
    } else {
        seq![]
    }) + (if types.contains("public.html"@) { seq!["text/html"@] } else { seq![] }) + (if types.contains(
        "public.png"@,
    ) {
        seq!["image/png"@]
    } else {
        seq![]
    }) + (if types.contains("public.jpeg"@) { seq!["image/jpeg"@] } else { seq![] }) + (
    if types.contains("NSFilenamesPboardType"@) {
        seq!["text/uri-list"@]
    } else {
        seq![]
    })
}

proof fn lemma_concat_contains<A>(x: Seq<A>, y: Seq<A>, e: A)
    ensures
        (x + y).contains(e) <==> x.contains(e) || y.contains(e),
{
    if x.contains(e) {
        let k = choose|k: int| 0 <= k < x.len() && x[k] == e;
        assert((x + y)[k] == e);
    }
    if y.contains(e) {
        let k = choose|k: int| 0 <= k < y.len() && y[k] == e;
        assert((x + y)[x.len() + k] == e);
    }
    if (x + y).contains(e) {
        let k = choose|k: int| 0 <= k < (x + y).len() && (x + y)[k] == e;
        if k < x.len() {
            assert(x[k] == e);
        } else {
            assert(y[k - x.len()] == e);
        }
    }
}

/// The part of the formats that one type gives.
pub open spec fn format_if(condition: bool, format: Seq<char>) -> Seq<Seq<char>> {
    if condition {
        seq![format]
    } else {
        seq![]
    }
}

proof fn lemma_format_if_contains(condition: bool, format: Seq<char>, f: Seq<char>)
    ensures
        format_if(condition, format).contains(f) <==> condition && f == format,
{
    if condition && f == format {
        assert(format_if(condition, format)[0] == f);
    }
}

/// What the reported formats contain, type by type.
proof fn lemma_formats_contain(types: Seq<Seq<char>>, f: Seq<char>)
    ensures
        pasteboard_formats(types).contains(f) <==> (types.contains("public.utf8-plain-text"@) && f
            == "text/plain"@) || ((types.contains("public.url"@) || types.contains(
            "public.file-url"@,
        )) && f == "text/uri-list"@) || (types.contains("public.html"@) && f == "text/html"@)
            || (types.contains("public.png"@) && f == "image/png"@) || (types.contains(
            "public.jpeg"@,
        ) && f == "image/jpeg"@) || (types.contains("NSFilenamesPboardType"@) && f
            == "text/uri-list"@),
{
    let a = format_if(types.contains("public.utf8-plain-text"@), "text/plain"@);
    let b = format_if(
        types.contains("public.url"@) || types.contains("public.file-url"@),
        "text/uri-list"@,
    );
    let c = format_if(types.contains("public.html"@), "text/html"@);
    let d = format_if(types.contains("public.png"@), "image/png"@);
    let e = format_if(types.contains("public.jpeg"@), "image/jpeg"@);
    let g = format_if(types.contains("NSFilenamesPboardType"@), "text/uri-list"@);
    assert(pasteboard_formats(types) == a + b + c + d + e + g);
    lemma_concat_contains(a + b + c + d + e, g, f);
    lemma_concat_contains(a + b + c + d, e, f);
    lemma_concat_contains(a + b + c, d, f);
    lemma_concat_contains(a + b, c, f);
    lemma_concat_contains(a, b, f);
    lemma_format_if_contains(types.contains("public.utf8-plain-text"@), "text/plain"@, f);
    lemma_format_if_contains(
        types.contains("public.url"@) || types.contains("public.file-url"@),
        "text/uri-list"@,
        f,
    );
    lemma_format_if_contains(types.contains("public.html"@), "text/html"@, f);
    lemma_format_if_contains(types.contains("public.png"@), "image/png"@, f);
    lemma_format_if_contains(types.contains("public.jpeg"@), "image/jpeg"@, f);
    lemma_format_if_contains(types.contains("NSFilenamesPboardType"@), "text/uri-list"@, f);
}

/// Each pasteboard type a drag offers is reported as its MIME format:
/// plain text as `text/plain`; a web URL, a file URL or file names as
/// `text/uri-list`; HTML, PNG and JPEG as `text/html`, `image/png` and
/// `image/jpeg`. No other format is reported, and no format without a type
/// that gives it. Plain text, when offered, is reported first.
pub proof fn law_pasteboard_formats_cover_types(types: Seq<Seq<char>>)
    ensures
        types.contains("public.utf8-plain-text"@) <==> pasteboard_formats(types).contains(
            "text/plain"@,
        ),
        types.contains("public.url"@) || types.contains("public.file-url"@) || types.contains(
            "NSFilenamesPboardType"@,
        ) <==> pasteboard_formats(types).contains("text/uri-list"@),
        types.contains("public.html"@) <==> pasteboard_formats(types).contains("text/html"@),
        types.contains("public.png"@) <==> pasteboard_formats(types).contains("image/png"@),
        types.contains("public.jpeg"@) <==> pasteboard_formats(types).contains("image/jpeg"@),
        forall|f: Seq<char>|
            #[trigger] pasteboard_formats(types).contains(f) ==> f == "text/plain"@ || f
                == "text/uri-list"@ || f == "text/html"@ || f == "image/png"@ || f
                == "image/jpeg"@,
        types.contains("public.utf8-plain-text"@) ==> pasteboard_formats(types)[0]
            == "text/plain"@,
{
    reveal_strlit("text/plain");
    reveal_strlit("text/uri-list");
    reveal_strlit("text/html");
    reveal_strlit("image/png");
    reveal_strlit("image/jpeg");
    let plain = "text/plain"@;
    let uri = "text/uri-list"@;
    let html = "text/html"@;
    let png = "image/png"@;
    let jpeg = "image/jpeg"@;
    assert(plain.len() == 10 && uri.len() == 13 && html.len() == 9 && png.len() == 9
        && jpeg.len() == 10);
    assert(plain[0] != jpeg[0] && html[0] != png[0]);
    assert(plain != uri && plain != html && plain != png && plain != jpeg);
    assert(uri != html && uri != png && uri != jpeg);
    assert(html != png && html != jpeg && png != jpeg);
    lemma_formats_contain(types, "text/plain"@);
    lemma_formats_contain(types, "text/uri-list"@);
    lemma_formats_contain(types, "text/html"@);
    lemma_formats_contain(types, "image/png"@);
    lemma_formats_contain(types, "image/jpeg"@);
    assert forall|f: Seq<char>| #[trigger] pasteboard_formats(types).contains(f) implies f
        == "text/plain"@ || f == "text/uri-list"@ || f == "text/html"@ || f == "image/png"@ || f
        == "image/jpeg"@ by {
        lemma_formats_contain(types, f);
    }
}

fn push_if(formats: &mut Vec<String>, condition: bool, format: &str)
    ensures
        strings_view(final(formats)@) == strings_view(old(formats)@) + (if condition {
            seq![format@]
        } else {
            seq![]
        }),
{
    let ghost before = formats@;
    if condition {
        formats.push(String::from_str(format));
        assert(strings_view(formats@) =~= strings_view(before) + seq![format@]);
    } else {
        assert(strings_view(formats@) =~= strings_view(before) + Seq::<Seq<char>>::empty());
    }
}

/// Detects the formats a drag offers from the types on its pasteboard.
pub fn formats_from_pasteboard(types: &[String]) -> (r: Vec<String>)
    ensures
        strings_view(r@) == pasteboard_formats(strings_view(types@)),
{
    let mut formats: Vec<String> = Vec::new();
    let text = has_type(types, "public.utf8-plain-text");
    let url = has_type(types, "public.url");
    let file_url = has_type(types, "public.file-url");
    let html = has_type(types, "public.html");
    let png = has_type(types, "public.png");
    let jpeg = has_type(types, "public.jpeg");
    let filenames = has_type(types, "NSFilenamesPboardType");
    assert(strings_view(formats@) =~= Seq::<Seq<char>>::empty());
    push_if(&mut formats, text, "text/plain");
    push_if(&mut formats, url || file_url, "text/uri-list");
    push_if(&mut formats, html, "text/html");
    push_if(&mut formats, png, "image/png");
    push_if(&mut formats, jpeg, "image/jpeg");
    push_if(&mut formats, filenames, "text/uri-list");
    formats
}

/// The files a drag carries: the file names on the pasteboard when there
/// are any, else the one file of a `file://` URL, percent-decoded, else
/// none.
pub open spec fn pasteboard_file_paths(filenames: Option<Seq<Seq<char>>>, file_url: Option<Seq<char>>) -> Option<Seq<Seq<char>>> {
    if filenames is Some && filenames->0.len() > 0 {
        filenames
    } else if file_url is Some && file_url->0.len() >= 7 && file_url->0.take(7) == "file://"@ {
        Some(seq![percent_decoded(file_url->0.skip(7))])
    } else {
        None
    }
}

/// The characters of an optional list of strings.
pub open spec fn optional_strings_view(strings: Option<Vec<String>>) -> Option<Seq<Seq<char>>> {
    match strings {
        Some(v) => Some(strings_view(v@)),
        None => None,
    }
}

/// The characters of an optional string.
pub open spec fn optional_string_view(string: Option<String>) -> Option<Seq<char>> {
    match string {
        Some(s) => Some(s@),
        None => None,
    }
}

/// Reads the files a drag carries from what its pasteboard holds under the
/// file-names type (a property list of paths) and the file-URL type.
pub fn file_paths_from_pasteboard(filenames: Option<Vec<String>>, file_url: Option<String>) -> (r:
    Option<Vec<String>>)
    ensures
        optional_strings_view(r) == pasteboard_file_paths(
            optional_strings_view(filenames),
            optional_string_view(file_url),
        ),
{
    if let Some(paths) = filenames {
        if paths.len() > 0 {
            return Some(paths);
        }
    }
    if let Some(url) = file_url {
        let chars = chars_of(url.as_str());
        if chars.len() >= 7 && chars[0] == 'f' && chars[1] == 'i' && chars[2] == 'l' && chars[3]
            == 'e' && chars[4] == ':' && chars[5] == '/' && chars[6] == '/' {
            proof {
                reveal_strlit("file://");
                assert(chars@.take(7) =~= "file://"@);
            }
            let (_, path) = chars.as_slice().split_at(7);
            proof {
                assert(path@ =~= chars@.skip(7));
            }
            let mut path_text = String::new();
            push_chars(&mut path_text, path);
            let decoded = percent_decode(path_text.as_str());
            let mut out: Vec<String> = Vec::new();
            out.push(decoded);
            assert(strings_view(out@) =~= seq![percent_decoded(url@.skip(7))]);
            return Some(out);
        } else {
            proof {
                reveal_strlit("file://");
                if chars@.len() >= 7 && chars@.take(7) == "file://"@ {
                    assert(chars@.take(7)[0] == 'f');
                    assert(chars@.take(7)[1] == 'i');
                    assert(chars@.take(7)[2] == 'l');
                    assert(chars@.take(7)[3] == 'e');
                    assert(chars@.take(7)[4] == ':');
                    assert(chars@.take(7)[5] == '/');
                    assert(chars@.take(7)[6] == '/');
                }
            }
        }
    }
    None
}

/// What a drop delivers when it carries no files: plain text first, then a
/// URL, then HTML, then a PNG image, each with its format; nothing when the
/// pasteboard holds none of them.
pub open spec fn pasteboard_payload(
    text: Option<Seq<char>>,
    url: Option<Seq<char>>,
    html: Option<Seq<u8>>,
    png: Option<Seq<u8>>,
) -> Option<(Seq<u8>, Seq<char>)> {
    if text is Some {
        Some((encode_utf8(text->0), "text/plain"@))
    } else if url is Some {
        Some((encode_utf8(url->0), "text/uri-list"@))
    } else if html is Some {
        Some((html->0, "text/html"@))
    } else if png is Some {
        Some((png->0, "image/png"@))
    } else {
        None
    }
}

/// The bytes of an optional byte vector.
pub open spec fn optional_bytes_view(bytes: Option<Vec<u8>>) -> Option<Seq<u8>> {
    match bytes {
        Some(b) => Some(b@),
        None => None,
    }
}

/// The bytes and format characters of an optional payload.
pub open spec fn payload_view(payload: Option<(Vec<u8>, String)>) -> Option<(Seq<u8>, Seq<char>)> {
    match payload {
        Some((data, format)) => Some((data@, format@)),
        None => None,
    }
}

/// Reads the payload of a drop from what its pasteboard holds as text, as a
/// URL, as HTML and as PNG.
pub fn payload_from_pasteboard(
    text: Option<String>,
    url: Option<String>,
    html: Option<Vec<u8>>,
    png: Option<Vec<u8>>,
) -> (r: Option<(Vec<u8>, String)>)
    ensures
        payload_view(r) == pasteboard_payload(
            optional_string_view(text),
            optional_string_view(url),
            optional_bytes_view(html),
            optional_bytes_view(png),
        ),
{
    if let Some(text) = text {
        return Some((vstd::slice::slice_to_vec(text.as_str().as_bytes()), String::from_str("text/plain")));
    }
    if let Some(url) = url {
        return Some((vstd::slice::slice_to_vec(url.as_str().as_bytes()), String::from_str("text/uri-list")));
    }
    if let Some(html) = html {
        return Some((html, String::from_str("text/html")));
    }
    if let Some(png) = png {
        return Some((png, String::from_str("image/png")));
    }
    None
}

// ============================================================================
// The drop target's answers
// ============================================================================

/// Events produced by the macOS drop target. Positions are relative to the
/// window, with the origin at the top left.
#[derive(Debug)]
pub enum DropEvent<P> {
    /// A drag entered the window.
    DragEntered {
        /// Cursor position.
        position: P,
        /// List of detected content formats.
        formats: Vec<String>,
    },
    /// The cursor moved while a drag is over the window.
    DragMoved {
        /// Cursor position.
        position: P,
    },
    /// The drag left the window without dropping.
    DragLeft,
    /// Data was dropped on the window.
    DragDropped {
        /// Cursor position at drop time.
        position: P,
        /// Dropped payload bytes.
        data: Vec<u8>,
        /// Format identifier (e.g. `text/plain`, `image/png`).
        format: String,
        /// Selected drop action.
        action: DropAction,
    },
    /// A file is being hovered over the window.
    FileHovered(String),
    /// A file was dropped into the window.
    FileDropped(String),
    /// Hovered files have left the window.
    FilesHoveredLeft,
}

/// The paths that the events hover or drop, in order: `hovered` tells which.
pub open spec fn file_events<P>(events: Seq<DropEvent<P>>, paths: Seq<String>, hovered: bool) -> bool {
    &&& events.len() == paths.len()
    &&& forall|i: int|
        0 <= i < paths.len() ==> #[trigger] events[i] == (if hovered {
            DropEvent::<P>::FileHovered(paths[i])
        } else {
            DropEvent::<P>::FileDropped(paths[i])
        })
}

fn push_file_events<P>(events: &mut Vec<DropEvent<P>>, paths: Vec<String>, hovered: bool)
    ensures
        final(events)@.len() == old(events)@.len() + paths@.len(),
        final(events)@.subrange(0, old(events)@.len() as int) == old(events)@,
        file_events(
            final(events)@.subrange(old(events)@.len() as int, final(events)@.len() as int),
            paths@,
            hovered,
        ),
{
    let ghost start = events@;
    let ghost all = paths@;
    let mut rest = paths;
    let mut reversed: Vec<String> = Vec::new();
    while rest.len() > 0
        invariant
            rest@ == all.take(rest@.len() as int),
            all.len() == rest@.len() + reversed@.len(),
            forall|k: int| 0 <= k < reversed@.len() ==> #[trigger] reversed@[k] == all[all.len() - 1 - k],
        decreases rest@.len(),
    {
        let p = rest.pop().unwrap();
        reversed.push(p);
    }
    while reversed.len() > 0
        invariant
            all.len() == events@.len() - start.len() + reversed@.len(),
            events@.len() >= start.len(),
            events@.subrange(0, start.len() as int) == start,
            forall|k: int| 0 <= k < reversed@.len() ==> #[trigger] reversed@[k] == all[all.len() - 1 - k],
            forall|j: int|
                0 <= j < events@.len() - start.len() ==> #[trigger] events@[start.len() + j] == (
                if hovered {
                    DropEvent::<P>::FileHovered(all[j])
                } else {
                    DropEvent::<P>::FileDropped(all[j])
                }),
        decreases reversed@.len(),
    {
        let p = reversed.pop().unwrap();
        let ghost before = events@;
        if hovered {
            events.push(DropEvent::FileHovered(p));
        } else {
            events.push(DropEvent::FileDropped(p));
        }
        assert(events@.subrange(0, start.len() as int) =~= before.subrange(0, start.len() as int));
    }
    let ghost tail = events@.subrange(start.len() as int, events@.len() as int);
    assert forall|i: int| 0 <= i < all.len() implies #[trigger] tail[i] == (if hovered {
        DropEvent::<P>::FileHovered(all[i])
    } else {
        DropEvent::<P>::FileDropped(all[i])
    }) by {
        assert(tail[i] == events@[start.len() + i]);
    }
}

/// The operation the drop target answers while a drag is over it: a copy.
pub open spec fn answered_operation() -> usize {
    OPERATION_COPY
}

/// Answers a drag entering the window: each file it carries is hovered, in
/// order, then the drag enters with its formats; the target accepts a copy.
pub fn dragging_entered<P>(position: P, formats: Vec<String>, paths: Option<Vec<String>>) -> (r: (
    Vec<DropEvent<P>>,
    usize,
))
    ensures
        r.1 == answered_operation(),
        match paths {
            Some(p) => r.0@.len() == p@.len() + 1 && file_events(
                r.0@.subrange(0, p@.len() as int),
                p@,
                true,
            ) && r.0@[p@.len() as int] == (DropEvent::DragEntered { position, formats }),
            None => r.0@ == seq![DropEvent::DragEntered { position, formats }],
        },
{
    let mut events: Vec<DropEvent<P>> = Vec::new();
    let ghost paths_view = paths;
    if let Some(p) = paths {
        push_file_events(&mut events, p, true);
        assert(events@.subrange(0, events@.len() as int) =~= events@);
    }
    let ghost hovered = events@;
    events.push(DropEvent::DragEntered { position, formats });
    proof {
        assert(events@.subrange(0, hovered.len() as int) =~= hovered);
        if paths_view is None {
            assert(events@ =~= seq![DropEvent::DragEntered { position, formats }]);
        }
    }
    (events, OPERATION_COPY)
}

/// Answers a drag moving over the window: it moved; the target keeps
/// accepting a copy.
pub fn dragging_updated<P>(position: P) -> (r: (DropEvent<P>, usize))
    ensures
        r == (DropEvent::DragMoved { position }, answered_operation()),
{
    (DropEvent::DragMoved { position }, OPERATION_COPY)
}

/// Answers a drag leaving the window: the drag left, and so did any hovered
/// files.
pub fn dragging_exited<P>() -> (r: (DropEvent<P>, DropEvent<P>))
    ensures
        r == (DropEvent::<P>::DragLeft, DropEvent::<P>::FilesHoveredLeft),
{
    (DropEvent::DragLeft, DropEvent::FilesHoveredLeft)
}

/// Answers a drop with what its pasteboard held: files are dropped one by
/// one, in order, and the hover ends; otherwise the payload is dropped with
/// the action of the source's operations; otherwise an empty drop of format
/// `unknown` and no action is reported. The drop succeeds unless nothing
/// was found.
pub fn perform_drag_operation<P>(
    position: P,
    operation: usize,
    paths: Option<Vec<String>>,
    payload: Option<(Vec<u8>, String)>,
) -> (r: (Vec<DropEvent<P>>, bool))
    ensures
        match paths {
            Some(p) => r.1 && r.0@.len() == p@.len() + 1 && file_events(
                r.0@.subrange(0, p@.len() as int),
                p@,
                false,
            ) && r.0@[p@.len() as int] == DropEvent::<P>::FilesHoveredLeft,
            None => match payload {
                Some((data, format)) => r.1 && r.0@ == seq![
                    DropEvent::DragDropped {
                        position,
                        data,
                        format,
                        action: action_of_operation(operation),
                    },
                ],
                None => !r.1 && r.0@.len() == 1 && (r.0@[0] matches DropEvent::DragDropped {
                    position: p,
                    data,
                    format,
                    action,
                } && p == position && data@.len() == 0 && format@ == "unknown"@ && action
                    == DropAction::NoAction),
            },
        },
{
    let mut events: Vec<DropEvent<P>> = Vec::new();
    if let Some(p) = paths {
        push_file_events(&mut events, p, false);
        assert(events@.subrange(0, events@.len() as int) =~= events@);
        let ghost dropped = events@;
        events.push(DropEvent::FilesHoveredLeft);
        proof {
            assert(events@.subrange(0, dropped.len() as int) =~= dropped);
        }
        return (events, true);
    }
    if let Some((data, format)) = payload {
        let action = DropAction::from_operation(operation);
        events.push(DropEvent::DragDropped { position, data, format, action });
        return (events, true);
    }
    events.push(
        DropEvent::DragDropped {
            position,
            data: Vec::new(),
            format: String::from_str("unknown"),
            action: DropAction::NoAction,
        },
    );
    (events, false)
}

/// The context of a drag session, as `NSDraggingContext` numbers it.
pub open spec fn within_application() -> isize {
    0
}

/// The operations a drag source offers in a dragging context: the allowed
/// operations within the application (context 0) and outside it (context
/// 1), none in any other context.
pub open spec fn offered_operations(allowed: usize, context: isize) -> usize {
    if context == 0 || context == 1 {
        allowed
    } else {
        0
    }
}

/// Tells the dragging session which operations the source allows in the
/// given context.
pub fn source_operation_mask(allowed: usize, context: isize) -> (r: usize)
    ensures
        r == offered_operations(allowed, context),
{
    if context == 0 || context == 1 {
        allowed
    } else {
        0
    }
}

// ============================================================================
// Platform events, menus and URL handling
// ============================================================================

/// macOS platform-specific events.
#[derive(Debug, PartialEq, Eq)]
pub enum MacOsEvent {
    /// A URL was received via a custom URL scheme handler.
    ReceivedUrl(String),
}

/// Errors that can occur while installing or updating menus.
#[derive(Debug, Clone, Copy, PartialEq, Eq, Hash, Structural)]
pub enum MenuError {
    /// Menu operations are not supported on this platform.
    NotSupported,
}

impl MenuError {
    /// The error's message.
    pub fn message(&self) -> (r: &'static str)
        ensures
            r@ == "Menu operations not supported on this platform"@,
    {
        "Menu operations not supported on this platform"
    }
}

/// The macOS main menu, where the platform has none: every operation is
/// refused.
#[derive(Debug)]
pub struct MacMenu {
    _private: (),
}

impl MacMenu {
    /// Creates the menu; refused.
    pub fn new() -> (r: Result<Self, MenuError>)
        ensures
            r == Err::<Self, MenuError>(MenuError::NotSupported),
    {
        Err(MenuError::NotSupported)
    }

    /// Syncs the menu with the application's menu; refused.
    pub fn sync<Message>(&mut self, _menu: &crate::menu::AppMenu<Message>) -> (r: Result<(), MenuError>)
        ensures
            r == Err::<(), MenuError>(MenuError::NotSupported),
    {
        Err(MenuError::NotSupported)
    }

    /// Tries to receive an activated menu id: there is none.
    pub fn try_recv(&self) -> (r: Option<crate::menu::MenuId>)
        ensures
            r is None,
    {
        None
    }
}

/// The macOS context menu, where the platform has none: every operation is
/// refused.
#[derive(Debug)]
pub struct MacContextMenu {
    _private: (),
}

impl MacContextMenu {
    /// Creates the context menu; refused.
    pub fn new() -> (r: Result<Self, MenuError>)
        ensures
            r == Err::<Self, MenuError>(MenuError::NotSupported),
    {
        Err(MenuError::NotSupported)
    }

    /// Tries to receive an activated menu id: there is none.
    pub fn try_recv(&self) -> (r: Option<crate::menu::MenuId>)
        ensures
            r is None,
    {
        None
    }
}

/// The standard library's channel receiver.
#[verifier::external_type_specification]
#[verifier::external_body]
#[verifier::reject_recursive_types(T)]
pub struct ExReceiver<T>(std::sync::mpsc::Receiver<T>);

/// `std::sync::mpsc::channel`, keeping the receiving end: its sender is
/// dropped at once, so nothing will ever arrive on it.
#[verifier::external_body]
fn closed_url_channel() -> std::sync::mpsc::Receiver<String> {
    let (_sender, receiver) = std::sync::mpsc::channel();
    receiver
}

/// The handler of the application's custom URL schemes, where the platform
/// has none: its receiver never receives a URL.
#[derive(Debug)]
pub struct UrlHandler {
    receiver: std::sync::mpsc::Receiver<String>,
}

impl UrlHandler {
    /// The receiver of the URLs.
    pub closed spec fn url_receiver(&self) -> std::sync::mpsc::Receiver<String> {
        self.receiver
    }

    /// Installs the handler, with a receiver on which nothing arrives.
    pub fn install() -> (r: Self) {
        UrlHandler { receiver: closed_url_channel() }
    }

    /// Tries to receive a URL without blocking: there is none.
    pub fn try_recv(&self) -> (r: Option<String>)
        ensures
            r is None,
    {
        None
    }

    /// The internal receiver, for custom polling.
    pub fn receiver(&self) -> (r: &std::sync::mpsc::Receiver<String>)
        ensures
            *r == self.url_receiver(),
    {
        &self.receiver
    }

    /// Consumes the handler and returns its receiver.
    pub fn into_receiver(self) -> (r: std::sync::mpsc::Receiver<String>)
        ensures
            r == self.url_receiver(),
    {
        self.receiver
    }
}

} // verus!
