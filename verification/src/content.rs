//! What the screen shows: a caption, the names of the commands and the lines
//! of output.

use vstd::prelude::*;
use vstd::string::StrSliceExecFns;

verus! {

/// Text that is drawn one character to a cell, whatever draws it: every
/// character is a printable ASCII character, from the space to the tilde.
/// Each such character is a symbol of its own and takes one column, which
/// can be told without the width tables of Unicode.
pub open spec fn is_plain(text: Seq<char>) -> bool {
    forall|i: int| 0 <= i < text.len() ==> ' ' <= #[trigger] text[i] <= '~'
}

/// Every line is plain text.
pub open spec fn all_plain(lines: Seq<Seq<char>>) -> bool {
    forall|i: int| 0 <= i < lines.len() ==> is_plain(#[trigger] lines[i])
}

/// The text of each string of a list.
pub open spec fn texts(lines: Seq<String>) -> Seq<Seq<char>> {
    Seq::new(lines.len(), |i: int| lines[i]@)
}

/// The text of one screen.
///
/// All of it is plain text. The widgets place a text symbol by symbol, a
/// symbol being one or more characters that take no, one or two columns
/// together, and count the columns in sixteen bits; on a symbol without
/// width the list widget can step past the right edge of the grid. So the
/// texts of a screen are held to characters that are one symbol and one
/// column each.
pub struct Content {
    caption: String,
    commands: Vec<String>,
    output: Vec<String>,
}

impl Content {
    /// The status caption of the top strip.
    pub closed spec fn caption(&self) -> Seq<char> {
        self.caption@
    }

    /// The rows of the command list, from the top.
    pub closed spec fn commands(&self) -> Seq<Seq<char>> {
        texts(self.commands@)
    }

    /// The rows of the output list, from the top.
    pub closed spec fn output(&self) -> Seq<Seq<char>> {
        texts(self.output@)
    }

    #[verifier::type_invariant]
    spec fn plain(&self) -> bool {
        &&& is_plain(self.caption@)
        &&& all_plain(texts(self.commands@))
        &&& all_plain(texts(self.output@))
    }

    /// Makes a screen of a caption, the rows of the command list and the rows
    /// of the output list, where all of them are plain text; otherwise there
    /// is no screen.
    pub fn new(caption: String, commands: Vec<String>, output: Vec<String>) -> (content: Option<
        Content,
    >)
        ensures
            content.is_some() <==> is_plain(caption@) && all_plain(texts(commands@)) && all_plain(
                texts(output@),
            ),
            content matches Some(c) ==> c.caption() == caption@ && c.commands() == texts(commands@)
                && c.output() == texts(output@),
    {
        if plain_text(caption.as_str()) && plain_lines(&commands) && plain_lines(&output) {
            Some(Content { caption, commands, output })
        } else {
            None
        }
    }

    /// The status caption.
    pub fn caption_text(&self) -> (text: &str)
        ensures
            text@ == self.caption(),
            is_plain(text@),
    {
        proof {
            use_type_invariant(self);
        }
        self.caption.as_str()
    }

    /// The rows of the command list.
    pub fn command_rows(&self) -> (rows: &Vec<String>)
        ensures
            texts(rows@) == self.commands(),
            all_plain(texts(rows@)),
    {
        proof {
            use_type_invariant(self);
        }
        &self.commands
    }

    /// The rows of the output list.
    pub fn output_rows(&self) -> (rows: &Vec<String>)
        ensures
            texts(rows@) == self.output(),
            all_plain(texts(rows@)),
    {
        proof {
            use_type_invariant(self);
        }
        &self.output
    }
}

/// Tells whether a text is plain: made of printable ASCII characters alone.
pub fn plain_text(text: &str) -> (plain: bool)
    ensures
        plain == is_plain(text@),
{
    if !text.is_ascii() {
        return false;
    }
    let len = text.unicode_len();
    let mut i: usize = 0;
    while i < len
        invariant
            len == text@.len(),
            i <= len,
            text.is_ascii(),
            forall|j: int| 0 <= j < i ==> ' ' <= #[trigger] text@[j] <= '~',
        decreases len - i,
    {
        let byte = text.get_ascii(i);
        if byte < 0x20 || byte > 0x7e {
            assert(!(' ' <= text@[i as int] <= '~'));
            return false;
        }
        i += 1;
    }
    true
}

/// Tells whether every line of a list is plain text.
pub fn plain_lines(lines: &Vec<String>) -> (plain: bool)
    ensures
        plain == all_plain(texts(lines@)),
{
    let mut i: usize = 0;
    while i < lines.len()
        invariant
            i <= lines.len(),
            forall|j: int| 0 <= j < i ==> is_plain(#[trigger] texts(lines@)[j]),
        decreases lines.len() - i,
    {
        if !plain_text(lines[i].as_str()) {
            assert(!is_plain(texts(lines@)[i as int]));
            return false;
        }
        i += 1;
    }
    true
}

} // verus!
