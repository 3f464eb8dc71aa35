//! The text of a post.

use super::types::{PostComponent, PostContext, PostViewData, RecordText};
use crate::ui::components::text::{
    clamp_rows, columns_for_text, filled_text, line_count, rows_from_count, text_columns,
    wrapped_line_count,
};
use crate::ui::layout::Rect;
use vstd::prelude::*;
use vstd::string::StringExecFns;

verus! {

/// The text shown for a post: its own text, or a placeholder that says why
/// there is none.
pub open spec fn shown_text(text: RecordText) -> Seq<char> {
    match text {
        RecordText::Text(own) => own@,
        RecordText::Null => "(Null content)"@,
        RecordText::Unexpected(shown) => "(Unexpected format: "@ + shown@ + ")"@,
        RecordText::Missing => "(No text content)"@,
        RecordText::NullRecord => "(Null content)"@,
        RecordText::Other(shown) => "Other: "@ + shown@,
    }
}

/// The rows that `text` takes in an area `width` columns wide, of which
/// `padding` columns are borders.
pub open spec fn wrapped_rows(text: Seq<char>, width: u16, padding: u16) -> nat {
    line_count(filled_text(text, text_columns(width, padding)))
}

pub struct PostContent {
    pub text: String,
    pub context: PostContext,
}

impl PostContent {
    pub fn new(post: &PostViewData, context: PostContext) -> (content: Self)
        ensures
            content.text@ == shown_text(post.record.text),
            content.context == context,
    {
        let text = Self::extract_text_content(post);
        Self { text, context }
    }

    /// The text of the post, or the placeholder for a record without one.
    pub fn extract_text_content(post: &PostViewData) -> (text: String)
        ensures
            text@ == shown_text(post.record.text),
    {
        match &post.record.text {
            RecordText::Text(own) => own.clone(),
            RecordText::Null => "(Null content)".to_owned(),
            RecordText::Unexpected(shown) => {
                let mut text = "(Unexpected format: ".to_owned();
                text.append(shown.as_str());
                text.append(")");
                text
            },
            RecordText::Missing => "(No text content)".to_owned(),
            RecordText::NullRecord => "(Null content)".to_owned(),
            RecordText::Other(shown) => {
                let mut text = "Other: ".to_owned();
                text.append(shown.as_str());
                text
            },
        }
    }

    /// The rows that the text takes in an area `width` columns wide.
    pub fn calculate_height(&self, width: u16) -> (rows: u16)
        ensures
            rows == clamp_rows(wrapped_rows(self.text@, width, 4) as int),
    {
        let chars_per_line = columns_for_text(width, 4);
        let wrapped_lines = wrapped_line_count(self.text.as_str(), chars_per_line);
        rows_from_count(wrapped_lines)
    }

}

impl PostComponent for PostContent {
    /// The rows that the text takes once it is wrapped inside `area`.
    open spec fn rows(&self, area: Rect) -> u16 {
        clamp_rows(wrapped_rows(self.text@, area.width, 4) as int)
    }

    fn height(&self, area: Rect) -> (rows: u16) {
        self.calculate_height(area.width)
    }
}

} // verus!
