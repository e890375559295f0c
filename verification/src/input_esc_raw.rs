//! A one-line text editor driven key by key, where Escape cancels: Enter
//! submits the line (or the default, for an empty line), Backspace deletes
//! a character, Ctrl+U clears the line and Ctrl+W deletes the last word.
#![verifier::loop_isolation(false)]

use vstd::prelude::*;
use crate::text::{concat3, is_white_space, owned, string_from_chars};

verus! {

/// The control character Ctrl+U.
pub const CTRL_U: char = '\u{15}';

/// The control character Ctrl+W.
pub const CTRL_W: char = '\u{17}';

/// The question mark before a prompt.
pub const ICON_QUESTION: &'static str = "?";

/// Clears the terminal line.
pub const ANSI_CLEAR_LINE: &'static str = "\r\x1b[K";

/// The space character.
pub const CHAR_SPACE: char = ' ';

/// A key the user pressed, or a failure to read one.
#[derive(Debug, Clone, Copy, PartialEq, Eq, Structural)]
pub enum KeyInput {
    Escape,
    Enter,
    Backspace,
    Char(char),
    Other,
    ReadError,
}

/// What the editor does after a key.
#[derive(Debug, Clone, PartialEq)]
pub enum EditOutcome {
    /// Input was cancelled (Escape, or the key could not be read).
    Cancelled,
    /// Input is finished with this text.
    Submitted(String),
    /// The line changed; the prompt and the buffer are drawn again.
    Redraw,
    /// The character was added at the end and is echoed.
    Echo(char),
    /// Nothing changed.
    Unchanged,
}

/// `b` without trailing white space.
pub open spec fn trim_end_ws(b: Seq<char>) -> Seq<char>
    decreases b.len(),
{
    if b.len() > 0 && is_white_space(b.last()) {
        trim_end_ws(b.drop_last())
    } else {
        b
    }
}

/// The position after the last space in `t`, or 0.
pub open spec fn after_last_space(t: Seq<char>) -> int
    decreases t.len(),
{
    if t.len() == 0 {
        0
    } else if t.last() == ' ' {
        t.len() as int
    } else {
        after_last_space(t.drop_last())
    }
}

proof fn lemma_after_last_space_bound(t: Seq<char>)
    ensures
        0 <= after_last_space(t) <= t.len(),
    decreases t.len(),
{
    if t.len() > 0 && t.last() != ' ' {
        lemma_after_last_space_bound(t.drop_last());
    }
}

proof fn lemma_trim_end_ws_prefix(b: Seq<char>)
    ensures
        trim_end_ws(b).len() <= b.len(),
        trim_end_ws(b) == b.subrange(0, trim_end_ws(b).len() as int),
    decreases b.len(),
{
    if b.len() > 0 && is_white_space(b.last()) {
        lemma_trim_end_ws_prefix(b.drop_last());
        assert(b.drop_last().subrange(0, trim_end_ws(b).len() as int) =~= b.subrange(0, trim_end_ws(b).len() as int));
    } else {
        assert(b.subrange(0, b.len() as int) =~= b);
    }
}

/// The buffer after Ctrl+W: cut after the last space before the trailing
/// white space, or emptied when there is none.
pub open spec fn delete_last_word(b: Seq<char>) -> Seq<char> {
    b.take(after_last_space(trim_end_ws(b)))
}

/// The line after `key` is pressed on the line `t`.
pub open spec fn key_effect(t: Seq<char>, key: KeyInput) -> Seq<char> {
    match key {
        KeyInput::Backspace => if t.len() > 0 {
            t.drop_last()
        } else {
            t
        },
        KeyInput::Char(c) => if c == CTRL_U {
            Seq::empty()
        } else if c == CTRL_W {
            delete_last_word(t)
        } else {
            t.push(c)
        },
        _ => t,
    }
}

/// What Enter submits for the line `t`: the default for an empty line
/// when there is one, else the line.
pub open spec fn submitted_text(t: Seq<char>, default: Option<Seq<char>>) -> Seq<char> {
    if t.len() == 0 && default is Some {
        default->0
    } else {
        t
    }
}

/// The state of the line editor: the text typed so far and the default.
pub struct LineEditor {
    buffer: Vec<char>,
    default: Option<String>,
}

impl LineEditor {
    /// The text typed so far.
    pub closed spec fn text(&self) -> Seq<char> {
        self.buffer@
    }

    /// The default offered.
    pub closed spec fn default_text(&self) -> Option<Seq<char>> {
        crate::pathname::opt_view(self.default)
    }

    /// An empty line with the given default.
    pub fn new(default: Option<&str>) -> (r: Self)
        ensures
            r.text().len() == 0,
            r.default_text() == crate::text::opt_str_view(default),
    {
        let d = match default {
            Some(x) => Some(owned(x)),
            None => None,
        };
        LineEditor { buffer: Vec::new(), default: d }
    }

    /// The text typed so far.
    pub fn buffer(&self) -> (r: String)
        ensures
            r@ == self.text(),
    {
        string_from_chars(self.buffer.as_slice())
    }

    /// Handles one key.
    pub fn handle_key(&mut self, key: KeyInput) -> (r: EditOutcome)
        ensures
            final(self).default_text() == old(self).default_text(),
            final(self).text() == key_effect(old(self).text(), key),
            (key == KeyInput::Escape || key == KeyInput::ReadError) ==> r == EditOutcome::Cancelled
                && final(self).text() == old(self).text(),
            key == KeyInput::Enter ==> final(self).text() == old(self).text() && (r matches EditOutcome::Submitted(s)
                && s@ == submitted_text(old(self).text(), old(self).default_text())),
            key == KeyInput::Backspace ==> if old(self).text().len() > 0 {
                r == EditOutcome::Redraw && final(self).text() == old(self).text().drop_last()
            } else {
                r == EditOutcome::Unchanged && final(self).text() == old(self).text()
            },
            key == KeyInput::Char(CTRL_U) ==> r == EditOutcome::Redraw && final(self).text().len() == 0,
            key == KeyInput::Char(CTRL_W) ==> r == EditOutcome::Redraw && final(self).text() == delete_last_word(old(self).text()),
            key is Char && key->0 != CTRL_U && key->0 != CTRL_W ==> r == EditOutcome::Echo(key->0)
                && final(self).text() == old(self).text().push(key->0),
            key == KeyInput::Other ==> r == EditOutcome::Unchanged && final(self).text() == old(self).text(),
    {
        match key {
            KeyInput::Escape => EditOutcome::Cancelled,
            KeyInput::ReadError => EditOutcome::Cancelled,
            KeyInput::Other => EditOutcome::Unchanged,
            KeyInput::Enter => {
                if self.buffer.len() == 0 {
                    match &self.default {
                        Some(d) => {
                            return EditOutcome::Submitted(d.clone());
                        },
                        None => {},
                    }
                }
                EditOutcome::Submitted(string_from_chars(self.buffer.as_slice()))
            },
            KeyInput::Backspace => {
                if self.buffer.len() > 0 {
                    self.buffer.pop();
                    EditOutcome::Redraw
                } else {
                    EditOutcome::Unchanged
                }
            },
            KeyInput::Char(c) => {
                if c == CTRL_U {
                    self.buffer.clear();
                    EditOutcome::Redraw
                } else if c == CTRL_W {
                    let ghost b = self.buffer@;
                    let mut t = self.buffer.len();
                    assert(b.take(t as int) =~= b);
                    while t > 0 && crate::text::is_whitespace_char(self.buffer[t - 1])
                        invariant
                            t <= self.buffer.len(),
                            self.buffer@ == b,
                            trim_end_ws(b) == trim_end_ws(b.take(t as int)),
                        decreases t,
                    {
                        assert(b.take(t as int).drop_last() =~= b.take(t - 1));
                        t = t - 1;
                    }
                    proof {
                        assert(!(b.take(t as int).len() > 0 && is_white_space(b.take(t as int).last())));
                        assert(trim_end_ws(b) == b.take(t as int));
                    }
                    let mut k = t;
                    while k > 0 && self.buffer[k - 1] != ' '
                        invariant
                            k <= t,
                            t <= self.buffer.len(),
                            self.buffer@ == b,
                            after_last_space(b.take(t as int)) == after_last_space(b.take(k as int)),
                        decreases k,
                    {
                        assert(b.take(k as int).drop_last() =~= b.take(k - 1));
                        k = k - 1;
                    }
                    proof {
                        if k > 0 {
                            assert(b.take(k as int).last() == ' ');
                        }
                    }
                    self.buffer.truncate(k);
                    assert(self.buffer@ =~= b.take(k as int));
                    EditOutcome::Redraw
                } else {
                    self.buffer.push(c);
                    EditOutcome::Echo(c)
                }
            },
        }
    }
}

/// The text before the cursor: `? <prompt> `, then `[<default>] ` when a
/// default is offered.
pub fn prompt_prefix(prompt: &str, default: Option<&str>) -> (r: String)
    ensures
        r@ == "? "@ + prompt@ + " "@ + match default {
            Some(d) => "["@ + d@ + "] "@,
            None => Seq::empty(),
        },
{
    let mut s = concat3("? ", prompt, " ");
    match default {
        Some(d) => {
            s.append("[");
            s.append(d);
            s.append("] ");
        },
        None => {},
    }
    s
}

/// Typing a character and then Backspace leaves the line as it was.
pub proof fn law_backspace_undoes_typing(t: Seq<char>, c: char)
    requires
        c != CTRL_U,
        c != CTRL_W,
    ensures
        key_effect(key_effect(t, KeyInput::Char(c)), KeyInput::Backspace) == t,
{
    assert(t.push(c).drop_last() =~= t);
}

/// Ctrl+U empties the line, and Ctrl+W leaves a beginning of it.
pub proof fn law_line_edits_shorten(t: Seq<char>)
    ensures
        key_effect(t, KeyInput::Char(CTRL_U)).len() == 0,
        key_effect(t, KeyInput::Char(CTRL_W)).len() <= t.len(),
        key_effect(t, KeyInput::Char(CTRL_W)) == t.take(key_effect(t, KeyInput::Char(CTRL_W)).len() as int),
{
    lemma_trim_end_ws_prefix(t);
    lemma_after_last_space_bound(trim_end_ws(t));
    let k = after_last_space(trim_end_ws(t));
    assert(trim_end_ws(t).take(k) =~= t.take(k));
}

/// Enter submits the typed text; the default counts only for an empty
/// line.
pub proof fn law_enter_submits_typed_text(t: Seq<char>, default: Option<Seq<char>>)
    ensures
        t.len() > 0 ==> submitted_text(t, default) == t,
        t.len() == 0 && default is None ==> submitted_text(t, default) == t,
{
}

} // verus!
