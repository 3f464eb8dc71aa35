//! The line in which commands are typed, with its history and its
//! completion of command names.

use crate::ui::components::text::{
    is_prefix, last_word, last_word_before, lemma_text_less_irreflexive, lemma_text_less_total,
    lemma_text_less_transitive, lowercase_of, starts_with, str_eq, str_less, text_less,
    to_lowercase, with_char_at, without_char_at,
};
use vstd::prelude::*;
use vstd::string::{StrSliceExecFns, StringExecFns};

verus! {

/// The words stand in the order of strings, each before all that follow
/// it: no word stands there twice.
pub open spec fn ascending(words: Seq<Seq<char>>) -> bool {
    forall|i: int, j: int| 0 <= i < j < words.len() ==> text_less(words[i], words[j])
}

/// How many words stand at the start of `words` before `word`.
pub open spec fn lower_bound(words: Seq<Seq<char>>, word: Seq<char>) -> int
    decreases words.len(),
{
    if words.len() == 0 || !text_less(words[0], word) {
        0
    } else {
        1 + lower_bound(words.drop_first(), word)
    }
}

/// `words` with `word` put in behind the words that stand before it, unless
/// it stands there already.
pub open spec fn with_word(words: Seq<Seq<char>>, word: Seq<char>) -> Seq<Seq<char>> {
    let at = lower_bound(words, word);
    if at < words.len() && words[at] == word {
        words
    } else {
        words.insert(at, word)
    }
}

/// The names that `commands` holds, whatever their order and however often
/// each stands there.
pub open spec fn names(commands: Seq<&'static str>) -> Set<Seq<char>> {
    Set::new(
        |word: Seq<char>|
            exists|i: int| 0 <= i < commands.len() && (#[trigger] commands[i])@ == word,
    )
}

/// The words of `commands` that start with `input`, each once, in the order
/// of strings.
pub open spec fn matching(commands: Seq<&'static str>, input: Seq<char>) -> Seq<Seq<char>>
    decreases commands.len(),
{
    if commands.len() == 0 {
        Seq::empty()
    } else {
        let before = matching(commands.drop_last(), input);
        if is_prefix(input, commands.last()@) {
            with_word(before, commands.last()@)
        } else {
            before
        }
    }
}

/// What `lower_bound` finds: every word before that place stands before
/// `word`, and the word at that place does not.
pub proof fn lemma_lower_bound(words: Seq<Seq<char>>, word: Seq<char>)
    ensures
        0 <= lower_bound(words, word) <= words.len(),
        forall|i: int| 0 <= i < lower_bound(words, word) ==> text_less(#[trigger] words[i], word),
        lower_bound(words, word) < words.len() ==> !text_less(
            words[lower_bound(words, word)],
            word,
        ),
    decreases words.len(),
{
    if words.len() > 0 && text_less(words[0], word) {
        let rest = words.drop_first();
        lemma_lower_bound(rest, word);
        assert forall|i: int| 0 <= i < lower_bound(words, word) implies text_less(
            #[trigger] words[i],
            word,
        ) by {
            if i > 0 {
                assert(rest[i - 1] == words[i]);
            }
        }
        if lower_bound(words, word) < words.len() {
            assert(rest[lower_bound(rest, word)] == words[lower_bound(words, word)]);
        }
    }
}

/// Putting a word into words in ascending order leaves them in ascending
/// order, and adds that word and no other.
pub proof fn lemma_with_word(words: Seq<Seq<char>>, word: Seq<char>)
    requires
        ascending(words),
    ensures
        ascending(with_word(words, word)),
        forall|other: Seq<char>|
            with_word(words, word).contains(other) <==> words.contains(other) || other == word,
{
    lemma_lower_bound(words, word);
    let at = lower_bound(words, word);
    let after = with_word(words, word);
    if at < words.len() && words[at] == word {
        assert forall|other: Seq<char>| after.contains(other) <==> words.contains(other) || other
            == word by {
            if other == word {
                assert(words[at] == other);
            }
        }
    } else {
        assert(after =~= words.insert(at, word));
        assert forall|i: int, j: int| 0 <= i < j < after.len() implies text_less(
            after[i],
            after[j],
        ) by {
            let from = |k: int|
                if k < at {
                    k
                } else {
                    k - 1
                };
            if j == at {
                assert(after[i] == words[i]);
            } else if i == at {
                assert(after[j] == words[j - 1]);
                lemma_text_less_total(words[at], word);
                if j - 1 > at {
                    lemma_text_less_transitive(word, words[at], words[j - 1]);
                }
            } else {
                assert(after[i] == words[from(i)]);
                assert(after[j] == words[from(j)]);
            }
        }
        assert forall|other: Seq<char>| after.contains(other) <==> words.contains(other) || other
            == word by {
            if after.contains(other) {
                let k = choose|k: int| 0 <= k < after.len() && after[k] == other;
                if k < at {
                    assert(words[k] == other);
                } else if k > at {
                    assert(words[k - 1] == other);
                }
            }
            if words.contains(other) {
                let k = choose|k: int| 0 <= k < words.len() && words[k] == other;
                if k < at {
                    assert(after[k] == other);
                } else {
                    assert(after[k + 1] == other);
                }
            }
            if other == word {
                assert(after[at] == other);
            }
        }
    }
}

/// The suggestions stand in ascending order, and they are the names of
/// `commands` that start with `input`, no more and no fewer.
pub proof fn lemma_matching(commands: Seq<&'static str>, input: Seq<char>)
    ensures
        ascending(matching(commands, input)),
        forall|word: Seq<char>|
            #[trigger] matching(commands, input).contains(word) <==> is_prefix(input, word)
                && names(commands).contains(word),
    decreases commands.len(),
{
    if commands.len() > 0 {
        let rest = commands.drop_last();
        let last = commands.last()@;
        lemma_matching(rest, input);
        let before = matching(rest, input);
        if is_prefix(input, last) {
            lemma_with_word(before, last);
        }
        assert forall|word: Seq<char>|
            #[trigger] matching(commands, input).contains(word) <==> is_prefix(input, word)
                && names(commands).contains(word) by {
            if before.contains(word) {
                assert(matching(rest, input).contains(word));
                let i = choose|i: int| 0 <= i < rest.len() && (#[trigger] rest[i])@ == word;
                assert(commands[i]@ == word);
            }
            if is_prefix(input, word) && names(commands).contains(word) {
                let i = choose|i: int| 0 <= i < commands.len() && (#[trigger] commands[i])@ == word;
                if i < rest.len() {
                    assert(rest[i]@ == word);
                    assert(names(rest).contains(word));
                } else {
                    assert(word == last);
                }
            }
            if word == last && is_prefix(input, last) {
                assert(commands[commands.len() - 1]@ == word);
            }
        }
    } else {
        assert(matching(commands, input) =~= Seq::<Seq<char>>::empty());
    }
}

/// Words in ascending order are told by which words they are: two such
/// sequences that hold the same words are equal.
pub proof fn lemma_ascending_unique(first: Seq<Seq<char>>, second: Seq<Seq<char>>)
    requires
        ascending(first),
        ascending(second),
        forall|word: Seq<char>| first.contains(word) <==> second.contains(word),
    ensures
        first == second,
    decreases first.len(),
{
    if first.len() == 0 {
        if second.len() > 0 {
            assert(second.contains(second[0]));
        }
        assert(first =~= second);
    } else {
        let x = first.last();
        assert(first[first.len() - 1] == x);
        assert(second.contains(x));
        let j = choose|j: int| 0 <= j < second.len() && second[j] == x;
        let y = second.last();
        assert(second[second.len() - 1] == y);
        assert(first.contains(y));
        let i = choose|i: int| 0 <= i < first.len() && first[i] == y;
        lemma_text_less_irreflexive(y);
        if i < first.len() - 1 && j < second.len() - 1 {
            lemma_text_less_transitive(y, x, y);
        }
        assert(x == y);
        let shorter = first.drop_last();
        let other = second.drop_last();
        assert forall|word: Seq<char>| shorter.contains(word) <==> other.contains(word) by {
            lemma_text_less_irreflexive(x);
            if shorter.contains(word) {
                let k = choose|k: int| 0 <= k < shorter.len() && shorter[k] == word;
                assert(first[k] == word);
                assert(text_less(first[k], first[first.len() - 1]));
                assert(second.contains(word));
                let m = choose|m: int| 0 <= m < second.len() && second[m] == word;
                assert(other[m] == word);
            }
            if other.contains(word) {
                let k = choose|k: int| 0 <= k < other.len() && other[k] == word;
                assert(second[k] == word);
                assert(text_less(second[k], second[second.len() - 1]));
                assert(first.contains(word));
                let m = choose|m: int| 0 <= m < first.len() && first[m] == word;
                assert(shorter[m] == word);
            }
        }
        lemma_ascending_unique(shorter, other);
        assert(first =~= shorter.push(x));
        assert(second =~= other.push(y));
    }
}

/// The suggestions depend on which names the list of commands holds, not on
/// the order of the list nor on how often a name stands in it.
pub proof fn lemma_matching_by_names(
    first: Seq<&'static str>,
    second: Seq<&'static str>,
    input: Seq<char>,
)
    requires
        names(first) == names(second),
    ensures
        matching(first, input) == matching(second, input),
{
    lemma_matching(first, input);
    lemma_matching(second, input);
    lemma_ascending_unique(matching(first, input), matching(second, input));
}

/// The texts that `strings` hold, in their order.
pub open spec fn texts(strings: Seq<String>) -> Seq<Seq<char>> {
    Seq::new(strings.len(), |i: int| strings[i]@)
}

/// The names that fit what was typed, and which of them is offered next.
pub struct TabCompletion {
    pub suggestions: Vec<String>,
    pub current_index: Option<usize>,
    pub partial_command: String,
}

impl TabCompletion {
    /// The suggestion that is offered next exists.
    pub open spec fn wf(&self) -> bool {
        self.current_index matches Some(index) ==> index < self.suggestions@.len()
    }

    pub fn new() -> (completion: Self)
        ensures
            completion.suggestions@.len() == 0,
            completion.current_index is None,
            completion.partial_command@.len() == 0,
            completion.wf(),
    {
        Self { suggestions: Vec::new(), current_index: None, partial_command: String::new() }
    }

    /// Puts `word` into `words` behind the words that stand before it in the
    /// order of strings, unless it stands there already.
    fn add_word(words: &mut Vec<String>, word: &str)
        ensures
            texts(final(words)@) == with_word(texts(old(words)@), word@),
    {
        let ghost before = texts(words@);
        let count: usize = words.len();
        let mut at: usize = 0;
        let mut found = false;
        assert(before.skip(0) =~= before);
        while at < count && !found
            invariant
                at <= count,
                count == words@.len(),
                words@ == old(words)@,
                before == texts(words@),
                lower_bound(before, word@) == at + if found {
                    0
                } else {
                    lower_bound(before.skip(at as int), word@)
                },
                found ==> at < count && !text_less(before[at as int], word@),
            decreases count - at + if found { 0int } else { 1int },
        {
            assert(before.skip(at as int).drop_first() =~= before.skip(at + 1));
            assert(before.skip(at as int)[0] == words@[at as int]@);
            if str_less(words[at].as_str(), word) {
                at += 1;
            } else {
                found = true;
            }
        }
        let held = at < count && str_eq(words[at].as_str(), word);
        if !held {
            words.insert(at, word.to_owned());
            assert(texts(words@) =~= before.insert(at as int, word@));
        }
    }

    /// Takes `input` as what was typed: the suggestions are the names of
    /// `commands` that start with it, each once and in the order of strings,
    /// and the first of them is offered next.
    pub fn update_suggestions(&mut self, input: &str, commands: &Vec<&'static str>)
        ensures
            final(self).wf(),
            final(self).partial_command@ == input@,
            texts(final(self).suggestions@) == matching(commands@, input@),
            ascending(texts(final(self).suggestions@)),
            forall|word: Seq<char>|
                #[trigger] texts(final(self).suggestions@).contains(word) <==> is_prefix(
                    input@,
                    word,
                ) && names(commands@).contains(word),
            final(self).current_index == if matching(commands@, input@).len() == 0 {
                None::<usize>
            } else {
                Some(0usize)
            },
    {
        self.partial_command = input.to_owned();
        let mut suggestions: Vec<String> = Vec::new();
        let mut i: usize = 0;
        assert(commands@.take(0) =~= Seq::<&'static str>::empty());
        assert(texts(suggestions@) =~= matching(commands@.take(0), input@));
        while i < commands.len()
            invariant
                i <= commands@.len(),
                texts(suggestions@) == matching(commands@.take(i as int), input@),
            decreases commands@.len() - i,
        {
            assert(commands@.take(i + 1).drop_last() =~= commands@.take(i as int));
            if starts_with(commands[i], input) {
                Self::add_word(&mut suggestions, commands[i]);
            }
            i += 1;
        }
        proof {
            assert(commands@.take(commands@.len() as int) =~= commands@);
            lemma_matching(commands@, input@);
        }
        self.current_index = if suggestions.len() == 0 {
            None
        } else {
            Some(0)
        };
        self.suggestions = suggestions;
    }

    /// The suggestion whose turn it is; the turn passes on to the one after
    /// it, and from the last to the first. None where nothing fits.
    pub fn next_suggestion(&mut self) -> (suggestion: Option<String>)
        requires
            old(self).wf(),
        ensures
            final(self).wf(),
            final(self).suggestions == old(self).suggestions,
            final(self).partial_command == old(self).partial_command,
            match old(self).current_index {
                Some(index) => suggestion == Some(old(self).suggestions@[index as int])
                    && final(self).current_index == Some(
                    ((index + 1) % (old(self).suggestions@.len() as int)) as usize,
                ),
                None => suggestion is None && final(self).current_index is None,
            },
    {
        match self.current_index {
            Some(index) => {
                let count: usize = self.suggestions.len();
                let suggestion = self.suggestions[index].clone();
                let next: usize = if index + 1 < count {
                    index + 1
                } else {
                    0
                };
                assert(next == (index + 1) % (count as int)) by (nonlinear_arith)
                    requires
                        0 <= index < count,
                        next == if index + 1 < count {
                            index + 1
                        } else {
                            0
                        },
                ;
                self.current_index = Some(next);
                Some(suggestion)
            },
            None => None,
        }
    }
}

pub struct CommandInputState {
    pub is_active: bool,
}

pub struct CommandInput {
    pub content: String,
    /// The place of the cursor, counted in characters from the start.
    pub cursor_position: usize,
    pub command_history: Vec<String>,
    pub history_position: Option<usize>,
    /// The names of the commands, in the order of the alphabet.
    pub commands: Vec<&'static str>,
    pub tab_completion: TabCompletion,
}

/// The names of the commands that the client knows, in the order of the
/// alphabet.
pub open spec fn command_names() -> Seq<&'static str> {
    seq!["delete", "notifications", "post", "profile", "refresh", "reply", "timeline"]
}

impl CommandInput {
    /// The cursor stands inside the text or at its end, the place in the
    /// history exists, and so does the suggestion that is offered next.
    pub open spec fn wf(&self) -> bool {
        &&& self.cursor_position <= self.content@.len()
        &&& self.history_position matches Some(position) ==> position
            < self.command_history@.len()
        &&& self.tab_completion.wf()
    }

    pub fn new() -> (input: Self)
        ensures
            input.wf(),
            input.content@.len() == 0,
            input.cursor_position == 0,
            input.command_history@.len() == 0,
            input.history_position is None,
            input.commands@ == command_names(),
            input.tab_completion.suggestions@.len() == 0,
            input.tab_completion.current_index is None,
            input.tab_completion.partial_command@.len() == 0,
    {
        let mut commands: Vec<&'static str> = Vec::new();
        commands.push("delete");
        commands.push("notifications");
        commands.push("post");
        commands.push("profile");
        commands.push("refresh");
        commands.push("reply");
        commands.push("timeline");
        assert(commands@ =~= command_names());
        Self {
            content: String::new(),
            cursor_position: 0,
            command_history: Vec::new(),
            history_position: None,
            commands,
            tab_completion: TabCompletion::new(),
        }
    }

    /// The word that is being typed, in lower case: the last word before the
    /// cursor.
    pub open spec fn typed_word(&self) -> Seq<char> {
        lowercase_of(last_word(self.content@.take(self.cursor_position as int)))
    }

    /// What a tab makes of the line, see `handle_tab`.
    pub open spec fn tab_outcome(before: &CommandInput, after: &CommandInput) -> bool {
        let word = before.typed_word();
        let fresh = before.tab_completion.partial_command@ != word;
        let offered = if fresh {
            matching(before.commands@, word)
        } else {
            texts(before.tab_completion.suggestions@)
        };
        let turn = if fresh {
            if offered.len() == 0 {
                None::<usize>
            } else {
                Some(0usize)
            }
        } else {
            before.tab_completion.current_index
        };
        &&& after.command_history == before.command_history
        &&& after.history_position == before.history_position
        &&& after.commands == before.commands
        &&& after.tab_completion.partial_command@ == word
        &&& texts(after.tab_completion.suggestions@) == offered
        &&& match turn {
            Some(index) => {
                &&& after.content@ == before.content@.take(
                    if before.cursor_position >= word.len() {
                        before.cursor_position - word.len()
                    } else {
                        0
                    },
                ) + offered[index as int]
                &&& after.cursor_position == after.content@.len()
                &&& after.tab_completion.current_index == Some(
                    ((index + 1) % (offered.len() as int)) as usize,
                )
            },
            None => {
                &&& after.content == before.content
                &&& after.cursor_position == before.cursor_position
                &&& after.tab_completion.current_index is None
            },
        }
    }

    /// Everything but the text and the cursor is in `after` as it is in
    /// `before`.
    pub open spec fn same_but_text(before: &CommandInput, after: &CommandInput) -> bool {
        &&& after.command_history == before.command_history
        &&& after.history_position == before.history_position
        &&& after.commands == before.commands
        &&& after.tab_completion == before.tab_completion
    }

    /// `c` was put in at the cursor, and the cursor moved behind it.
    pub open spec fn typed(before: &CommandInput, c: char, after: &CommandInput) -> bool {
        &&& Self::same_but_text(before, after)
        &&& after.content@ == before.content@.insert(before.cursor_position as int, c)
        &&& after.cursor_position == before.cursor_position + 1
    }

    /// The character before the cursor was taken out, if there was one.
    pub open spec fn erased(before: &CommandInput, after: &CommandInput) -> bool {
        &&& Self::same_but_text(before, after)
        &&& before.cursor_position > 0 ==> after.content@ == before.content@.remove(
            before.cursor_position - 1,
        ) && after.cursor_position == before.cursor_position - 1
        &&& before.cursor_position == 0 ==> after.content == before.content
            && after.cursor_position == 0
    }

    /// The cursor moved one character to the left, if it could.
    pub open spec fn went_left(before: &CommandInput, after: &CommandInput) -> bool {
        &&& Self::same_but_text(before, after)
        &&& after.content == before.content
        &&& after.cursor_position == if before.cursor_position > 0 {
            (before.cursor_position - 1) as usize
        } else {
            0
        }
    }

    /// The cursor moved one character to the right, if it could.
    pub open spec fn went_right(before: &CommandInput, after: &CommandInput) -> bool {
        &&& Self::same_but_text(before, after)
        &&& after.content == before.content
        &&& after.cursor_position == if before.cursor_position < before.content@.len() {
            (before.cursor_position + 1) as usize
        } else {
            before.cursor_position
        }
    }

    /// The line was emptied; the history stayed.
    pub open spec fn cleared(before: &CommandInput, after: &CommandInput) -> bool {
        &&& after.content@.len() == 0
        &&& after.cursor_position == 0
        &&& after.history_position is None
        &&& after.command_history == before.command_history
        &&& after.commands == before.commands
        &&& after.tab_completion == before.tab_completion
    }

    /// The command before the one that was shown came back, see `history_up`.
    pub open spec fn went_up(before: &CommandInput, after: &CommandInput) -> bool {
        &&& after.command_history == before.command_history
        &&& after.commands == before.commands
        &&& after.tab_completion == before.tab_completion
        &&& before.command_history@.len() == 0 ==> *after == *before
        &&& before.command_history@.len() > 0 ==> {
            let position = match before.history_position {
                None => before.command_history@.len() - 1,
                Some(shown) => if shown == 0 {
                    0
                } else {
                    shown - 1
                },
            };
            &&& after.history_position == Some(position as usize)
            &&& after.content == before.command_history@[position]
            &&& after.cursor_position == after.content@.len()
        }
    }

    /// The command after the one that was shown came back, see
    /// `history_down`.
    pub open spec fn went_down(before: &CommandInput, after: &CommandInput) -> bool {
        &&& after.command_history == before.command_history
        &&& after.commands == before.commands
        &&& after.tab_completion == before.tab_completion
        &&& match before.history_position {
            Some(shown) => if shown + 1 < before.command_history@.len() {
                &&& after.history_position == Some((shown + 1) as usize)
                &&& after.content == before.command_history@[shown + 1]
                &&& after.cursor_position == after.content@.len()
            } else {
                &&& after.history_position is None
                &&& after.content@.len() == 0
                &&& after.cursor_position == 0
            },
            None => *after == *before,
        }
    }

    /// The command that was typed was handed out, see `submit_command`.
    pub open spec fn submitted(
        before: &CommandInput,
        after: &CommandInput,
        command: Option<String>,
    ) -> bool {
        &&& after.commands == before.commands
        &&& after.tab_completion == before.tab_completion
        &&& before.content@.len() == 0 ==> command is None && *after == *before
        &&& before.content@.len() > 0 ==> {
            &&& command == Some(before.content)
            &&& after.command_history@ == before.command_history@.push(before.content)
            &&& after.content@.len() == 0
            &&& after.cursor_position == 0
            &&& after.history_position is None
        }
    }

    /// Completes the word that is being typed to the name of a command.
    ///
    /// Where the word differs from the one that the suggestions were made
    /// for, the suggestions are made anew. The suggestion whose turn it is
    /// then takes the place of as many characters before the cursor as the
    /// word has, what follows the cursor is dropped, and the cursor moves to
    /// the end. Where no name fits, the text stays as it is.
    pub fn handle_tab(&mut self)
        requires
            old(self).wf(),
        ensures
            final(self).wf(),
            Self::tab_outcome(old(self), final(self)),
    {
        let input = to_lowercase(self.get_current_word().as_str());
        if !str_eq(self.tab_completion.partial_command.as_str(), input.as_str()) {
            self.tab_completion.update_suggestions(input.as_str(), &self.commands);
        }
        match self.tab_completion.next_suggestion() {
            Some(suggestion) => {
                let word_length = input.as_str().unicode_len();
                let keep: usize = if self.cursor_position >= word_length {
                    self.cursor_position - word_length
                } else {
                    0
                };
                let mut content = self.content.as_str().substring_char(0, keep).to_owned();
                content.append(suggestion.as_str());
                self.content = content;
                self.cursor_position = self.content.as_str().unicode_len();
            },
            None => {},
        }
    }

    /// The last word before the cursor, see `last_word`.
    pub fn get_current_word(&self) -> (word: String)
        requires
            self.wf(),
        ensures
            word@ == last_word(self.content@.take(self.cursor_position as int)),
    {
        last_word_before(self.content.as_str(), self.cursor_position)
    }

    /// Puts `c` in at the cursor and moves the cursor behind it.
    pub fn insert_char(&mut self, c: char)
        requires
            old(self).wf(),
        ensures
            final(self).wf(),
            Self::typed(old(self), c, final(self)),
    {
        self.content = with_char_at(self.content.as_str(), self.cursor_position, c);
        let count = self.content.as_str().unicode_len();
        if self.cursor_position < count {
            self.cursor_position += 1;
        }
    }

    /// Takes out the character before the cursor and moves the cursor back
    /// by one. Nothing changes at the start of the text.
    pub fn delete_char(&mut self)
        requires
            old(self).wf(),
        ensures
            final(self).wf(),
            Self::erased(old(self), final(self)),
    {
        if self.cursor_position > 0 {
            self.cursor_position -= 1;
            self.content = without_char_at(self.content.as_str(), self.cursor_position);
        }
    }

    pub fn move_cursor_left(&mut self)
        ensures
            old(self).wf() ==> final(self).wf(),
            Self::went_left(old(self), final(self)),
    {
        if self.cursor_position > 0 {
            self.cursor_position -= 1;
        }
    }

    pub fn move_cursor_right(&mut self)
        ensures
            old(self).wf() ==> final(self).wf(),
            Self::went_right(old(self), final(self)),
    {
        if self.cursor_position < self.content.as_str().unicode_len() {
            self.cursor_position += 1;
        }
    }

    /// Empties the line and leaves the history.
    pub fn clear(&mut self)
        ensures
            old(self).tab_completion.wf() ==> final(self).wf(),
            Self::cleared(old(self), final(self)),
    {
        self.content = String::new();
        self.cursor_position = 0;
        self.history_position = None;
    }

    /// Brings back the command before the one that is shown: the last one
    /// where none is shown, and the first one again at the first. The cursor
    /// moves to the end. Nothing changes while there is no history.
    pub fn history_up(&mut self)
        requires
            old(self).wf(),
        ensures
            final(self).wf(),
            Self::went_up(old(self), final(self)),
    {
        if self.command_history.len() == 0 {
            return ;
        }
        let new_pos: usize = match self.history_position {
            None => self.command_history.len() - 1,
            Some(pos) => if pos == 0 {
                0
            } else {
                pos - 1
            },
        };
        self.content = self.command_history[new_pos].clone();
        self.cursor_position = self.content.as_str().unicode_len();
        self.history_position = Some(new_pos);
    }

    /// Brings back the command after the one that is shown, and empties the
    /// line after the last one. Nothing changes where none is shown.
    pub fn history_down(&mut self)
        requires
            old(self).wf(),
        ensures
            final(self).wf(),
            Self::went_down(old(self), final(self)),
    {
        match self.history_position {
            Some(current_pos) => {
                if current_pos < self.command_history.len() - 1 {
                    let new_pos: usize = current_pos + 1;
                    self.content = self.command_history[new_pos].clone();
                    self.cursor_position = self.content.as_str().unicode_len();
                    self.history_position = Some(new_pos);
                } else {
                    self.clear();
                }
            },
            None => {},
        }
    }

    /// Hands out the command that was typed, puts it at the end of the
    /// history and empties the line. Nothing happens on an empty line.
    pub fn submit_command(&mut self) -> (command: Option<String>)
        ensures
            old(self).wf() ==> final(self).wf(),
            Self::submitted(old(self), final(self), command),
    {
        if !self.content.as_str().is_empty() {
            let command = self.content.clone();
            self.command_history.push(command.clone());
            self.clear();
            Some(command)
        } else {
            None
        }
    }
}

} // verus!
