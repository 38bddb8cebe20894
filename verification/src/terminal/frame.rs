//! What a dialogue shows in one frame, as plain values.
//!
//! A frame says what stands where and which part is highlighted. How the
//! cells are coloured is left to whatever draws it.

use vstd::prelude::*;

verus! {

/// The two buttons of a dialogue and which of them is highlighted.
#[derive(Debug, PartialEq, Eq)]
pub struct ButtonRow {
    pub confirm_label: String,
    pub cancel_label: String,
    /// Whether the confirm button is the highlighted one; the other is dimmed.
    pub confirm_selected: bool,
}

/// The mathematical content of a [`ButtonRow`].
pub struct ButtonRowView {
    pub confirm_label: Seq<char>,
    pub cancel_label: Seq<char>,
    pub confirm_selected: bool,
}

impl View for ButtonRow {
    type V = ButtonRowView;

    open spec fn view(&self) -> ButtonRowView {
        ButtonRowView {
            confirm_label: self.confirm_label@,
            cancel_label: self.cancel_label@,
            confirm_selected: self.confirm_selected,
        }
    }
}

/// One frame of a dialogue, from top to bottom: the emphasized header, a
/// blank line, the static body lines, the list with its highlighted row, the
/// buttons, and a hint on the key bindings.
#[derive(Debug, PartialEq, Eq)]
pub struct Frame {
    pub header: String,
    pub body: Vec<String>,
    pub rows: Vec<String>,
    /// The highlighted row of the list.
    pub cursor: Option<usize>,
    pub buttons: Option<ButtonRow>,
    pub hint: String,
}

/// The mathematical content of a [`Frame`].
pub struct FrameView {
    pub header: Seq<char>,
    pub body: Seq<Seq<char>>,
    pub rows: Seq<Seq<char>>,
    pub cursor: Option<usize>,
    pub buttons: Option<ButtonRowView>,
    pub hint: Seq<char>,
}

impl View for Frame {
    type V = FrameView;

    open spec fn view(&self) -> FrameView {
        FrameView {
            header: self.header@,
            body: self.body.deep_view(),
            rows: self.rows.deep_view(),
            cursor: self.cursor,
            buttons: match self.buttons {
                Some(row) => Some(row@),
                None => None,
            },
            hint: self.hint@,
        }
    }
}

} // verus!
