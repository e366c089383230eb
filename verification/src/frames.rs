//! Frame inspection. A data frame is a JSON array that opens with an object
//! naming the symbol; any other JSON is a control frame.

use vstd::prelude::*;
use crate::json::{json_array, json_member, json_text, json_value};
use crate::json::{member, parse_array, parse_value, text_of};
use crate::model::MessageType;

verus! {

/// What a frame turned out to be.
#[derive(Debug)]
pub enum FrameKind {
    /// A data frame, with its message kind and symbol.
    Data { msg_type: MessageType, symbol: String },
    /// A well-formed frame that carries no data: a ping, an acknowledgement,
    /// a heartbeat.
    Control,
    /// A frame that is no JSON, or lacks what classification needs.
    Malformed,
}

/// A frame kind as plain values.
pub enum FrameKindView {
    Data { msg_type: MessageType, symbol: Seq<char> },
    Control,
    Malformed,
}

impl View for FrameKind {
    type V = FrameKindView;

    open spec fn view(&self) -> FrameKindView {
        match self {
            FrameKind::Data { msg_type, symbol } => FrameKindView::Data {
                msg_type: *msg_type,
                symbol: symbol@,
            },
            FrameKind::Control => FrameKindView::Control,
            FrameKind::Malformed => FrameKindView::Malformed,
        }
    }
}

/// The kind of a frame, from what the JSON reader found: `array_symbol` is
/// `Some` where the frame is a JSON array, and holds the symbol that its first
/// item names, if any; `is_json` says whether the frame is JSON at all.
pub open spec fn frame_kind(
    array_symbol: Option<Option<Seq<char>>>,
    is_json: bool,
    msg_type: MessageType,
) -> FrameKindView {
    match array_symbol {
        Some(Some(symbol)) => FrameKindView::Data { msg_type, symbol },
        Some(None) => FrameKindView::Malformed,
        None => if is_json {
            FrameKindView::Control
        } else {
            FrameKindView::Malformed
        },
    }
}

/// The routing data of a frame kind: `Some` for data frames alone.
pub open spec fn routing(kind: FrameKindView) -> Option<(MessageType, Seq<char>)> {
    match kind {
        FrameKindView::Data { msg_type, symbol } => Some((msg_type, symbol)),
        _ => None,
    }
}

/// The symbol that the first item of a parsed array names: the text of its
/// member `symbol`. An empty array names none.
pub open spec fn symbol_in(items: Seq<serde_json::Value>) -> Option<Seq<char>> {
    if items.len() == 0 {
        None
    } else {
        match json_member(items[0], "symbol"@) {
            Some(value) => json_text(value),
            None => None,
        }
    }
}

/// The symbol of a frame: that of its first item where the frame is a JSON
/// array, and none otherwise.
pub open spec fn symbol_of(frame: Seq<char>) -> Option<Seq<char>> {
    match json_array(frame) {
        Some(items) => symbol_in(items),
        None => None,
    }
}

/// The kind of a frame of a crawl for `msg_type`.
pub open spec fn inspected(frame: Seq<char>, msg_type: MessageType) -> FrameKindView {
    frame_kind(
        match json_array(frame) {
            Some(items) => Some(symbol_in(items)),
            None => None,
        },
        json_value(frame) is Some,
        msg_type,
    )
}

/// The view of an optional string.
pub open spec fn text_view(text: Option<String>) -> Option<Seq<char>> {
    match text {
        Some(s) => Some(s@),
        None => None,
    }
}

/// The symbol that the first item of a parsed array names under the key
/// `symbol`. An empty array names none.
pub fn first_symbol(items: &Vec<serde_json::Value>) -> (symbol: Option<String>)
    ensures
        text_view(symbol) == symbol_in(items@),
{
    if items.len() == 0 {
        return None;
    }
    match member(&items[0], "symbol") {
        Some(value) => text_of(value),
        None => None,
    }
}

/// Decides the kind of a frame from what the JSON reader found.
pub fn frame_kind_of(array_symbol: Option<Option<String>>, is_json: bool, msg_type: MessageType) -> (kind:
    FrameKind)
    ensures
        kind@ == frame_kind(
            match array_symbol {
                Some(found) => Some(text_view(found)),
                None => None,
            },
            is_json,
            msg_type,
        ),
{
    match array_symbol {
        Some(Some(symbol)) => FrameKind::Data { msg_type, symbol },
        Some(None) => FrameKind::Malformed,
        None => if is_json {
            FrameKind::Control
        } else {
            FrameKind::Malformed
        },
    }
}

/// Inspects a frame of a crawl for `msg_type`: a JSON array whose first item
/// names a symbol is data, any other JSON array is malformed, any other JSON
/// is a control frame, and what is no JSON is malformed.
pub fn inspect(frame: &str, msg_type: MessageType) -> (kind: FrameKind)
    ensures
        kind@ == inspected(frame@, msg_type),
{
    match parse_array(frame) {
        Ok(items) => frame_kind_of(Some(first_symbol(&items)), true, msg_type),
        Err(_) => {
            let is_json = parse_value(frame).is_ok();
            frame_kind_of(None, is_json, msg_type)
        },
    }
}

/// The routing data of a frame: its message kind and symbol for a data frame,
/// `None` for control frames and malformed ones.
pub fn classify(frame: &str, msg_type: MessageType) -> (found: Option<(MessageType, String)>)
    ensures
        match found {
            Some(pair) => routing(inspected(frame@, msg_type)) == Some((pair.0, pair.1@)),
            None => routing(inspected(frame@, msg_type)) is None,
        },
{
    routing_of(inspect(frame, msg_type))
}

/// The routing data of a frame kind.
pub fn routing_of(kind: FrameKind) -> (found: Option<(MessageType, String)>)
    ensures
        match found {
            Some(pair) => routing(kind@) == Some((pair.0, pair.1@)),
            None => routing(kind@) is None,
        },
{
    match kind {
        FrameKind::Data { msg_type, symbol } => Some((msg_type, symbol)),
        _ => None,
    }
}

} // verus!
