//! Drag and drop support.
//!
//! Types for drag and drop operations, both internal (widget to widget) and
//! external (between applications, through the platform's protocol).
use vstd::prelude::*;

use std::borrow::Cow;
use crate::clipboard::{format_ids, Format, Platform};
use vstd::utf8::encode_utf8;

verus! {

/// The action to perform when a drag is dropped.
#[derive(Debug, Clone, Copy, PartialEq, Eq, Hash, Structural)]
pub enum DndAction {
    /// No action.
    NoAction,
    /// Copy the data.
    Copy,
    /// Move the data.
    Move,
    /// Create a link to the data.
    Link,
    /// Ask the user what action to perform.
    Ask,
}

impl Default for DndAction {
    fn default() -> (r: Self)
        ensures
            r == DndAction::NoAction,
    {
        DndAction::NoAction
    }
}

impl DndAction {
    /// Returns `true` if this is [`DndAction::NoAction`].
    pub fn is_none(&self) -> (r: bool)
        ensures
            r == (*self == DndAction::NoAction),
    {
        matches!(self, DndAction::NoAction)
    }
}

/// Data for a drag and drop operation: the serialized payload and the
/// formats it is available in.
#[derive(Debug)]
pub struct DragData {
    /// The serialized data bytes.
    pub data: Vec<u8>,
    /// The formats this data is available in (e.g. `text/plain`,
    /// `text/uri-list`).
    pub formats: Vec<Cow<'static, str>>,
}

/// The characters of each format, in order.
pub open spec fn format_views(formats: Seq<Cow<'static, str>>) -> Seq<Seq<char>> {
    formats.map_values(|f: Cow<'static, str>| f@)
}

/// The characters of each identifier, in order.
pub open spec fn id_views(ids: Seq<&'static str>) -> Seq<Seq<char>> {
    ids.map_values(|s: &'static str| s@)
}

/// The bytes of `file://`.
pub open spec fn file_scheme() -> Seq<u8> {
    seq![0x66u8, 0x69u8, 0x6cu8, 0x65u8, 0x3au8, 0x2fu8, 0x2fu8]
}

/// The bytes of the line break (`\r\n`) between the entries of a URI list.
pub open spec fn uri_list_separator() -> Seq<u8> {
    seq![0x0du8, 0x0au8]
}

/// The URI list of `paths`: `file://` and the path's UTF-8 bytes for each
/// path, the entries separated by `\r\n`.
pub open spec fn uri_list(paths: Seq<Seq<char>>) -> Seq<u8>
    decreases paths.len(),
{
    if paths.len() == 0 {
        Seq::empty()
    } else if paths.len() == 1 {
        file_scheme() + encode_utf8(paths[0])
    } else {
        uri_list(paths.drop_last()) + uri_list_separator() + file_scheme() + encode_utf8(
            paths.last(),
        )
    }
}

/// Borrows each identifier as a format.
fn borrowed_formats(ids: &'static [&'static str]) -> (r: Vec<Cow<'static, str>>)
    ensures
        format_views(r@) == id_views(ids@),
{
    let mut out: Vec<Cow<'static, str>> = Vec::new();
    let mut i: usize = 0;
    while i < ids.len()
        invariant
            i <= ids@.len(),
            out@.len() == i,
            forall|j: int| 0 <= j < i ==> (#[trigger] out@[j])@ == ids@[j]@,
        decreases ids@.len() - i,
    {
        out.push(Cow::Borrowed(ids[i]));
        i = i + 1;
    }
    assert(format_views(out@) =~= id_views(ids@));
    out
}

impl DragData {
    /// Create new drag data with the given bytes and formats.
    pub fn new(data: Vec<u8>, formats: Vec<Cow<'static, str>>) -> (r: Self)
        ensures
            r.data == data,
            r.formats == formats,
    {
        DragData { data, formats }
    }

    /// Create drag data from a text string: its UTF-8 bytes, offered in the
    /// text formats of `platform`.
    pub fn from_text(text: &str, platform: Platform) -> (r: Self)
        ensures
            r.data@ == encode_utf8(text@),
            format_views(r.formats@) == id_views(format_ids(Format::Text, platform)),
    {
        let data = vstd::slice::slice_to_vec(text.as_bytes());
        let formats = borrowed_formats(Format::Text.formats(platform));
        DragData { data, formats }
    }

    /// Create drag data from file paths: a URI list with one `file://` URI
    /// per path, separated by `\r\n`, offered in the file formats of
    /// `platform`.
    pub fn from_paths(paths: &[String], platform: Platform) -> (r: Self)
        ensures
            r.data@ == uri_list(paths@.map_values(|p: String| p@)),
            format_views(r.formats@) == id_views(format_ids(Format::Files, platform)),
    {
        let ghost views = paths@.map_values(|p: String| p@);
        let mut data: Vec<u8> = Vec::new();
        let mut i: usize = 0;
        while i < paths.len()
            invariant
                i <= paths@.len(),
                views == paths@.map_values(|p: String| p@),
                data@ == uri_list(views.take(i as int)),
            decreases paths@.len() - i,
        {
            proof {
                assert(views.take(i + 1).drop_last() =~= views.take(i as int));
            }
            if i > 0 {
                data.push(0x0du8);
                data.push(0x0au8);
            }
            data.push(0x66u8);
            data.push(0x69u8);
            data.push(0x6cu8);
            data.push(0x65u8);
            data.push(0x3au8);
            data.push(0x2fu8);
            data.push(0x2fu8);
            let ghost before = data@;
            data.extend_from_slice(paths[i].as_str().as_bytes());
            proof {
                let sep = if i > 0 { uri_list_separator() } else { Seq::<u8>::empty() };
                assert(data@ =~= uri_list(views.take(i as int)) + sep + file_scheme() + encode_utf8(
                    views[i as int],
                ));
            }
            i = i + 1;
        }
        assert(views.take(paths@.len() as int) =~= views);
        let formats = borrowed_formats(Format::Files.formats(platform));
        DragData { data, formats }
    }
}

/// The result of a completed drag operation.
#[derive(Debug, Clone, Copy, PartialEq, Eq, Structural)]
pub enum DropResult {
    /// The drag was completed with the given action.
    Dropped(DndAction),
    /// The drag was cancelled by the user or system.
    Cancelled,
}

impl DropResult {
    /// Returns `true` if the drag was successfully dropped.
    pub fn is_dropped(&self) -> (r: bool)
        ensures
            r == (*self is Dropped),
    {
        matches!(self, DropResult::Dropped(_))
    }

    /// Returns `true` if the drag was cancelled.
    pub fn is_cancelled(&self) -> (r: bool)
        ensures
            r == (*self is Cancelled),
    {
        matches!(self, DropResult::Cancelled)
    }

    /// Returns the action if the drag was dropped, or `None` if cancelled.
    pub fn action(&self) -> (r: Option<DndAction>)
        ensures
            r == (match *self {
                DropResult::Dropped(a) => Some(a),
                DropResult::Cancelled => None,
            }),
    {
        match self {
            DropResult::Dropped(action) => Some(*action),
            DropResult::Cancelled => None,
        }
    }
}

/// A drop result has an action exactly when it was dropped, and it is
/// cancelled exactly when it was not dropped.
pub proof fn law_drop_result_action(result: DropResult)
    ensures
        (result is Dropped) <==> (match result {
            DropResult::Dropped(a) => Some(a),
            DropResult::Cancelled => None,
        }) is Some,
        (result is Cancelled) <==> !(result is Dropped),
{
}

/// An icon to display during a drag operation.
#[derive(Debug)]
pub enum DragIcon {
    /// Use a widget's rendered content as the icon; the shell renders it.
    Widget,
    /// Use pixel data as the icon, in ARGB8888 format (pre-multiplied alpha).
    Buffer {
        /// Width of the icon in pixels.
        width: u32,
        /// Height of the icon in pixels.
        height: u32,
        /// The pixel data (ARGB8888, pre-multiplied).
        data: Vec<u8>,
        /// The hotspot X offset (where the cursor points within the icon).
        hotspot_x: i32,
        /// The hotspot Y offset (where the cursor points within the icon).
        hotspot_y: i32,
    },
}

/// Events from an active drag source operation.
#[derive(Debug, PartialEq)]
pub enum DragSourceEvent {
    /// The drag operation started.
    Started,
    /// A format was accepted by the drop target.
    FormatAccepted(Option<String>),
    /// The action was updated by the drop target.
    ActionChanged(DndAction),
    /// The drag was dropped on a target.
    Dropped,
    /// The drag operation finished successfully.
    Finished(DndAction),
    /// The drag operation was cancelled.
    Cancelled,
}

} // verus!
