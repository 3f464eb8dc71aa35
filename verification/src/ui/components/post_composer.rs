//! The editor in which a post is written.

use crate::ui::components::text::{with_char_at, without_char_at};
use crate::ui::layout::Color;
use vstd::prelude::*;
use vstd::string::StrSliceExecFns;

verus! {

/// How many characters a post may have.
pub const CHARACTER_LIMIT: usize = 300;

pub struct PostComposer {
    pub content: String,
    /// The place of the cursor, counted in characters from the start.
    pub cursor_position: usize,
    /// The key of the post that is being answered.
    pub reply_to: Option<String>,
}

pub struct PostComposerState {
    pub is_active: bool,
}

impl PostComposer {
    /// The cursor stands inside the text or at its end.
    pub open spec fn wf(&self) -> bool {
        self.cursor_position <= self.content@.len()
    }

    pub fn new(reply_to: Option<String>) -> (composer: Self)
        ensures
            composer.content@.len() == 0,
            composer.cursor_position == 0,
            composer.reply_to == reply_to,
            composer.wf(),
    {
        Self { content: String::new(), cursor_position: 0, reply_to }
    }

    /// `c` was put in at the cursor, and the cursor moved behind it, unless
    /// the text had reached the limit.
    pub open spec fn typed(before: &PostComposer, c: char, after: &PostComposer) -> bool {
        &&& after.reply_to == before.reply_to
        &&& before.content@.len() < CHARACTER_LIMIT ==> after.content@ == before.content@.insert(
            before.cursor_position as int,
            c,
        ) && after.cursor_position == before.cursor_position + 1
        &&& before.content@.len() >= CHARACTER_LIMIT ==> *after == *before
    }

    /// The character before the cursor was taken out, if there was one.
    pub open spec fn erased(before: &PostComposer, after: &PostComposer) -> bool {
        &&& after.reply_to == before.reply_to
        &&& before.cursor_position > 0 ==> after.content@ == before.content@.remove(
            before.cursor_position - 1,
        ) && after.cursor_position == before.cursor_position - 1
        &&& before.cursor_position == 0 ==> *after == *before
    }

    /// The cursor moved one character to the left, if it could.
    pub open spec fn went_left(before: &PostComposer, after: &PostComposer) -> bool {
        &&& after.content == before.content
        &&& after.reply_to == before.reply_to
        &&& after.cursor_position == if before.cursor_position > 0 {
            (before.cursor_position - 1) as usize
        } else {
            0
        }
    }

    /// The cursor moved one character to the right, if it could.
    pub open spec fn went_right(before: &PostComposer, after: &PostComposer) -> bool {
        &&& after.content == before.content
        &&& after.reply_to == before.reply_to
        &&& after.cursor_position == if before.cursor_position < before.content@.len() {
            (before.cursor_position + 1) as usize
        } else {
            before.cursor_position
        }
    }

    /// Puts `c` in at the cursor and moves the cursor behind it, unless the
    /// text has reached the limit.
    pub fn insert_char(&mut self, c: char)
        requires
            old(self).wf(),
        ensures
            final(self).wf(),
            Self::typed(old(self), c, final(self)),
    {
        if self.content.as_str().unicode_len() < CHARACTER_LIMIT {
            self.content = with_char_at(self.content.as_str(), self.cursor_position, c);
            self.cursor_position += 1;
        }
    }

    /// Takes out the character before the cursor and moves the cursor back
    /// by one. Nothing changes at the start of the text.
    pub fn delete_char(&mut self)
        requires
            old(self).wf(),
        ensures
            final(self).wf(),
            Self::erased(old(self), final(self)),
    {
        if self.cursor_position > 0 {
            self.cursor_position -= 1;
            self.content = without_char_at(self.content.as_str(), self.cursor_position);
        }
    }

    pub fn move_cursor_left(&mut self)
        ensures
            old(self).wf() ==> final(self).wf(),
            Self::went_left(old(self), final(self)),
    {
        if self.cursor_position > 0 {
            self.cursor_position -= 1;
        }
    }

    pub fn move_cursor_right(&mut self)
        ensures
            old(self).wf() ==> final(self).wf(),
            Self::went_right(old(self), final(self)),
    {
        if self.cursor_position < self.content.as_str().unicode_len() {
            self.cursor_position += 1;
        }
    }

    pub fn clear(&mut self)
        ensures
            final(self).content@.len() == 0,
            final(self).cursor_position == 0,
            final(self).reply_to == old(self).reply_to,
            final(self).wf(),
    {
        self.content = String::new();
        self.cursor_position = 0;
    }

    pub fn get_content(&self) -> (content: &str)
        ensures
            content@ == self.content@,
    {
        self.content.as_str()
    }

    /// How many characters the text has.
    pub fn get_character_count(&self) -> (count: usize)
        ensures
            count == self.content@.len(),
    {
        self.content.as_str().unicode_len()
    }

    /// The colour that says how near a text of `count` characters is to the
    /// limit.
    pub open spec fn count_color(count: nat) -> Color {
        if count <= 250 {
            Color::Green
        } else if count <= 290 {
            Color::Yellow
        } else {
            Color::Red
        }
    }

    /// How many characters the text has, and the colour that says how near
    /// that is to the limit: green up to 250, yellow up to 290, red above.
    pub fn get_character_count_status(&self) -> (status: (usize, Color))
        ensures
            status.0 == self.content@.len(),
            status.1 == Self::count_color(self.content@.len()),
    {
        let count = self.get_character_count();
        let color = if count <= 250 {
            Color::Green
        } else if count <= 290 {
            Color::Yellow
        } else {
            Color::Red
        };
        (count, color)
    }
}

} // verus!
