//! A minimal text builder for round-trip printing: token writing,
//! whitespace, and indentation, over a growable character buffer.

use vstd::prelude::*;
use vstd::string::StringExecFns;
use crate::text::push_char;
use crate::token::{push_token_text, spec_token_text, Token};

verus! {

/// A text builder with an indentation level; tokens render to their exact
/// source text, so printing the tokens of a lexed input reproduces it.
pub struct Printer {
    buf: String,
    indent_level: usize,
    indent_width: usize,
    use_tabs: bool,
}

impl Printer {
    /// The characters written so far.
    pub closed spec fn spec_buf(&self) -> Seq<char> {
        self.buf@
    }

    /// The current indentation level.
    pub closed spec fn spec_indent_level(&self) -> int {
        self.indent_level as int
    }

    /// A fresh printer: empty buffer, no indentation, four spaces per
    /// level.
    pub fn new() -> (r: Printer)
        ensures
            r.spec_buf() == Seq::<char>::empty(),
            r.spec_indent_level() == 0,
    {
        Printer { buf: String::new(), indent_level: 0, indent_width: 4, use_tabs: false }
    }

    /// A fresh printer whose indentation uses tabs instead of spaces.
    pub fn with_tabs(self) -> (r: Printer)
        ensures
            r.spec_buf() == self.spec_buf(),
            r.spec_indent_level() == self.spec_indent_level(),
    {
        Printer { use_tabs: true, ..self }
    }

    /// A fresh printer with the given number of spaces per indent level.
    pub fn with_indent_width(self, width: usize) -> (r: Printer)
        ensures
            r.spec_buf() == self.spec_buf(),
            r.spec_indent_level() == self.spec_indent_level(),
    {
        Printer { indent_width: width, ..self }
    }

    /// The buffer contents so far.
    pub fn buf(&self) -> (r: &str)
        ensures
            r@ == self.spec_buf(),
    {
        self.buf.as_str()
    }

    /// The current indentation level.
    pub fn indent_level(&self) -> (n: usize)
        ensures
            n == self.spec_indent_level(),
    {
        self.indent_level
    }

    /// Sets the indentation level.
    pub fn set_indent(&mut self, level: usize)
        ensures
            final(self).spec_buf() == old(self).spec_buf(),
            final(self).spec_indent_level() == level,
            final(self).spec_indent_width() == old(self).spec_indent_width(),
            final(self).spec_use_tabs() == old(self).spec_use_tabs(),
    {
        self.indent_level = level;
    }

    /// Consumes the printer and returns the built text.
    pub fn into_string(self) -> (r: String)
        ensures
            r@ == self.spec_buf(),
    {
        self.buf
    }

    /// Writes the exact source text of a token.
    pub fn token(&mut self, t: &Token)
        ensures
            final(self).spec_buf() == old(self).spec_buf() + spec_token_text(t@),
            final(self).spec_indent_level() == old(self).spec_indent_level(),
            final(self).spec_indent_width() == old(self).spec_indent_width(),
            final(self).spec_use_tabs() == old(self).spec_use_tabs(),
    {
        push_token_text(&mut self.buf, t);
    }

    /// Appends a string.
    pub fn word(&mut self, s: &str)
        ensures
            final(self).spec_buf() == old(self).spec_buf() + s@,
            final(self).spec_indent_level() == old(self).spec_indent_level(),
            final(self).spec_indent_width() == old(self).spec_indent_width(),
            final(self).spec_use_tabs() == old(self).spec_use_tabs(),
    {
        self.buf.append(s);
    }

    /// Appends one character.
    pub fn put_char(&mut self, c: char)
        ensures
            final(self).spec_buf() == old(self).spec_buf() + seq![c],
            final(self).spec_indent_level() == old(self).spec_indent_level(),
            final(self).spec_indent_width() == old(self).spec_indent_width(),
            final(self).spec_use_tabs() == old(self).spec_use_tabs(),
    {
        push_char(&mut self.buf, c);
    }

    /// Appends a single space.
    pub fn space(&mut self)
        ensures
            final(self).spec_buf() == old(self).spec_buf() + seq![' '],
            final(self).spec_indent_level() == old(self).spec_indent_level(),
            final(self).spec_indent_width() == old(self).spec_indent_width(),
            final(self).spec_use_tabs() == old(self).spec_use_tabs(),
    {
        self.put_char(' ');
    }

    /// Appends `n` spaces.
    pub fn spaces(&mut self, n: usize)
        ensures
            final(self).spec_buf() == old(self).spec_buf() + Seq::new(n as nat, |i: int| ' '),
            final(self).spec_indent_level() == old(self).spec_indent_level(),
            final(self).spec_indent_width() == old(self).spec_indent_width(),
            final(self).spec_use_tabs() == old(self).spec_use_tabs(),
    {
        let mut i: usize = 0;
        while i < n
            invariant
                i <= n,
                self.spec_buf() =~= old(self).spec_buf() + Seq::new(i as nat, |k: int| ' '),
                self.spec_indent_level() == old(self).spec_indent_level(),
                self.spec_indent_width() == old(self).spec_indent_width(),
                self.spec_use_tabs() == old(self).spec_use_tabs(),
            decreases n - i,
        {
            self.put_char(' ');
            proof {
                assert(self.spec_buf() =~= old(self).spec_buf() + Seq::new(
                    (i + 1) as nat,
                    |k: int| ' ',
                ));
            }
            i = i + 1;
        }
    }

    /// Appends a single tab.
    pub fn tab(&mut self)
        ensures
            final(self).spec_buf() == old(self).spec_buf() + seq!['\t'],
            final(self).spec_indent_level() == old(self).spec_indent_level(),
            final(self).spec_indent_width() == old(self).spec_indent_width(),
            final(self).spec_use_tabs() == old(self).spec_use_tabs(),
    {
        self.put_char('\t');
    }

    /// Appends `n` tabs.
    pub fn tabs(&mut self, n: usize)
        ensures
            final(self).spec_buf() == old(self).spec_buf() + Seq::new(n as nat, |i: int| '\t'),
            final(self).spec_indent_level() == old(self).spec_indent_level(),
            final(self).spec_indent_width() == old(self).spec_indent_width(),
            final(self).spec_use_tabs() == old(self).spec_use_tabs(),
    {
        let mut i: usize = 0;
        while i < n
            invariant
                i <= n,
                self.spec_buf() =~= old(self).spec_buf() + Seq::new(i as nat, |k: int| '\t'),
                self.spec_indent_level() == old(self).spec_indent_level(),
                self.spec_indent_width() == old(self).spec_indent_width(),
                self.spec_use_tabs() == old(self).spec_use_tabs(),
            decreases n - i,
        {
            self.put_char('\t');
            proof {
                assert(self.spec_buf() =~= old(self).spec_buf() + Seq::new(
                    (i + 1) as nat,
                    |k: int| '\t',
                ));
            }
            i = i + 1;
        }
    }

    /// The configured number of spaces per indent level.
    pub closed spec fn spec_indent_width(&self) -> int {
        self.indent_width as int
    }

    /// Whether indentation uses tabs.
    pub closed spec fn spec_use_tabs(&self) -> bool {
        self.use_tabs
    }

    /// The number of spaces the current level amounts to, saturating.
    pub open spec fn spec_spaces_width(&self) -> int {
        if self.spec_indent_level() * self.spec_indent_width() <= usize::MAX {
            self.spec_indent_level() * self.spec_indent_width()
        } else {
            usize::MAX as int
        }
    }

    /// The text one call of `add_indent` writes at the current level.
    pub open spec fn spec_indent_text(&self) -> Seq<char> {
        if self.spec_use_tabs() {
            Seq::new(self.spec_indent_level() as nat, |i: int| '\t')
        } else {
            Seq::new(self.spec_spaces_width() as nat, |i: int| ' ')
        }
    }

    /// The number of spaces per indent level.
    pub fn indent_width(&self) -> (n: usize)
        ensures
            n == self.spec_indent_width(),
    {
        self.indent_width
    }

    /// Whether indentation uses tabs.
    pub fn use_tabs(&self) -> (b: bool)
        ensures
            b == self.spec_use_tabs(),
    {
        self.use_tabs
    }

    /// The total spaces for the current indent level, saturating rather
    /// than overflowing.
    pub fn spaces_width(&self) -> (n: usize)
        ensures
            n == self.spec_spaces_width(),
    {
        match self.indent_level.checked_mul(self.indent_width) {
            Some(v) => v,
            None => usize::MAX,
        }
    }

    /// Writes indentation at the current level.
    pub fn add_indent(&mut self)
        ensures
            final(self).spec_buf() == old(self).spec_buf() + old(self).spec_indent_text(),
            final(self).spec_indent_level() == old(self).spec_indent_level(),
            final(self).spec_indent_width() == old(self).spec_indent_width(),
            final(self).spec_use_tabs() == old(self).spec_use_tabs(),
    {
        if self.use_tabs {
            let n = self.indent_level;
            self.tabs(n);
        } else {
            let n = self.spaces_width();
            self.spaces(n);
        }
    }

    /// Appends a line break followed by indentation at the current level.
    pub fn newline(&mut self)
        ensures
            final(self).spec_buf() == old(self).spec_buf() + seq!['\n'] + old(self).spec_indent_text(),
            final(self).spec_indent_level() == old(self).spec_indent_level(),
            final(self).spec_indent_width() == old(self).spec_indent_width(),
            final(self).spec_use_tabs() == old(self).spec_use_tabs(),
    {
        self.put_char('\n');
        self.add_indent();
    }

    /// Increases the indentation level by one, saturating.
    pub fn indent(&mut self)
        ensures
            final(self).spec_buf() == old(self).spec_buf(),
            final(self).spec_indent_level() == if old(self).spec_indent_level() + 1
                <= usize::MAX {
                old(self).spec_indent_level() + 1
            } else {
                usize::MAX as int
            },
            final(self).spec_indent_width() == old(self).spec_indent_width(),
            final(self).spec_use_tabs() == old(self).spec_use_tabs(),
    {
        self.indent_level = self.indent_level.saturating_add(1);
    }

    /// Decreases the indentation level by one, saturating at zero.
    pub fn dedent(&mut self)
        ensures
            final(self).spec_buf() == old(self).spec_buf(),
            final(self).spec_indent_level() == if old(self).spec_indent_level() >= 1 {
                old(self).spec_indent_level() - 1
            } else {
                0
            },
            final(self).spec_indent_width() == old(self).spec_indent_width(),
            final(self).spec_use_tabs() == old(self).spec_use_tabs(),
    {
        self.indent_level = self.indent_level.saturating_sub(1);
    }

    /// Opens a block: the opening token, one more indent level, a fresh
    /// line.
    pub fn open_block(&mut self, open: &Token) {
        self.token(open);
        self.indent();
        self.newline();
    }

    /// Closes a block: one less indent level, a fresh line, the closing
    /// token.
    pub fn close_block(&mut self, close: &Token) {
        self.dedent();
        self.newline();
        self.token(close);
    }

    /// Writes a value through its [`ToTokens`] implementation.
    pub fn write<T: ToTokens>(&mut self, value: &T) {
        value.write(self);
    }

    /// Writes the items separated by `sep`: a separator after every item
    /// but the last, a trailing one only when `trailing` is set, and a line
    /// break with indentation after each non-final separator when
    /// `newline_after_sep` is set. The buffer is extended by exactly that
    /// text and nothing else.
    pub fn write_separated<T: ToTokens>(
        &mut self,
        items: &Vec<T>,
        sep: &Token,
        trailing: bool,
        newline_after_sep: bool,
    )
        ensures
            final(self).spec_indent_level() == old(self).spec_indent_level(),
            final(self).spec_indent_width() == old(self).spec_indent_width(),
            final(self).spec_use_tabs() == old(self).spec_use_tabs(),
            final(self).spec_buf() == old(self).spec_buf() + spec_separated_text(
                items@,
                0,
                spec_token_text(sep@),
                trailing,
                if newline_after_sep {
                    Some(seq!['\n'] + old(self).spec_indent_text())
                } else {
                    None
                },
            ),
    {
        let ghost buf0 = self.spec_buf();
        let ghost sep_text = spec_token_text(sep@);
        let ghost nl = if newline_after_sep {
            Some(seq!['\n'] + self.spec_indent_text())
        } else {
            None::<Seq<char>>
        };
        let len = items.len();
        let mut idx: usize = 0;
        while idx < len
            invariant
                idx <= len,
                len == items@.len(),
                self.spec_indent_level() == old(self).spec_indent_level(),
                self.spec_indent_width() == old(self).spec_indent_width(),
                self.spec_use_tabs() == old(self).spec_use_tabs(),
                buf0 == old(self).spec_buf(),
                sep_text == spec_token_text(sep@),
                nl == if newline_after_sep {
                    Some(seq!['\n'] + old(self).spec_indent_text())
                } else {
                    None::<Seq<char>>
                },
                self.spec_buf() + spec_separated_text(items@, idx as int, sep_text, trailing, nl)
                    == buf0 + spec_separated_text(items@, 0, sep_text, trailing, nl),
            decreases len - idx,
        {
            items[idx].write(self);
            let is_last = idx == len - 1;
            if !is_last || trailing {
                self.token(sep);
                if newline_after_sep && !is_last {
                    self.newline();
                }
            }
            proof {
                assert(self.spec_buf() + spec_separated_text(
                    items@,
                    idx + 1,
                    sep_text,
                    trailing,
                    nl,
                ) =~= buf0 + spec_separated_text(items@, 0, sep_text, trailing, nl));
            }
            idx = idx + 1;
        }
    }

    /// Writes the items inline: a separator and one space between
    /// neighbours, nothing after the last; the buffer is extended by
    /// exactly that text.
    pub fn write_separated_inline<T: ToTokens>(&mut self, items: &Vec<T>, sep: &Token)
        ensures
            final(self).spec_indent_level() == old(self).spec_indent_level(),
            final(self).spec_indent_width() == old(self).spec_indent_width(),
            final(self).spec_use_tabs() == old(self).spec_use_tabs(),
            final(self).spec_buf() == old(self).spec_buf() + spec_inline_text(
                items@,
                0,
                spec_token_text(sep@),
            ),
    {
        let ghost buf0 = self.spec_buf();
        let ghost sep_text = spec_token_text(sep@);
        let len = items.len();
        let mut idx: usize = 0;
        while idx < len
            invariant
                idx <= len,
                len == items@.len(),
                self.spec_indent_level() == old(self).spec_indent_level(),
                self.spec_indent_width() == old(self).spec_indent_width(),
                self.spec_use_tabs() == old(self).spec_use_tabs(),
                buf0 == old(self).spec_buf(),
                sep_text == spec_token_text(sep@),
                self.spec_buf() + spec_inline_text(items@, idx as int, sep_text) == buf0
                    + spec_inline_text(items@, 0, sep_text),
            decreases len - idx,
        {
            items[idx].write(self);
            if idx < len - 1 {
                self.token(sep);
                self.space();
            }
            proof {
                assert(self.spec_buf() + spec_inline_text(items@, idx + 1, sep_text) =~= buf0
                    + spec_inline_text(items@, 0, sep_text));
            }
            idx = idx + 1;
        }
    }
}

impl Default for Printer {
    /// A fresh printer.
    fn default() -> (r: Printer)
        ensures
            r.spec_buf() == Seq::<char>::empty(),
            r.spec_indent_level() == 0,
    {
        Printer::new()
    }
}

/// Converting a construct back to text: the inverse of parsing, written
/// through a [`Printer`]. Each implementation fixes its exact text, and
/// `write` appends exactly that text, leaving the indentation configuration
/// as it found it.
pub trait ToTokens {
    /// The exact text this value renders to.
    spec fn spec_text(&self) -> Seq<char>;

    /// Appends this value's text to the printer.
    fn write(&self, printer: &mut Printer)
        ensures
            final(printer).spec_buf() == old(printer).spec_buf() + self.spec_text(),
            final(printer).spec_indent_level() == old(printer).spec_indent_level(),
            final(printer).spec_indent_width() == old(printer).spec_indent_width(),
            final(printer).spec_use_tabs() == old(printer).spec_use_tabs(),
    ;

    /// Renders this value to a fresh string: exactly its text.
    fn to_string_formatted(&self) -> (r: String)
        ensures
            r@ == self.spec_text(),
    {
        let mut printer = Printer::new();
        self.write(&mut printer);
        let out = printer.into_string();
        proof {
            assert(out@ =~= self.spec_text());
        }
        out
    }
}

/// The text `write_separated` produces for the suffix `items[i..]`: each
/// item's text, a separator after every non-final item (followed by the
/// line-break text when given), and a trailing separator when requested.
pub open spec fn spec_separated_text<T: ToTokens>(
    items: Seq<T>,
    i: int,
    sep: Seq<char>,
    trailing: bool,
    nl: Option<Seq<char>>,
) -> Seq<char>
    decreases items.len() - i,
{
    if i < 0 || i >= items.len() {
        Seq::empty()
    } else {
        let tail = spec_separated_text(items, i + 1, sep, trailing, nl);
        if i < items.len() - 1 {
            items[i].spec_text() + sep + (match nl {
                Some(n) => n,
                None => Seq::empty(),
            }) + tail
        } else {
            items[i].spec_text() + (if trailing {
                sep
            } else {
                Seq::empty()
            }) + tail
        }
    }
}

/// The text `write_separated_inline` produces for the suffix `items[i..]`:
/// each item's text with a separator and one space between neighbours.
pub open spec fn spec_inline_text<T: ToTokens>(items: Seq<T>, i: int, sep: Seq<char>) -> Seq<char>
    decreases items.len() - i,
{
    if i < 0 || i >= items.len() {
        Seq::empty()
    } else {
        items[i].spec_text() + (if i < items.len() - 1 {
            sep + seq![' ']
        } else {
            Seq::empty()
        }) + spec_inline_text(items, i + 1, sep)
    }
}

/// The concatenated texts of the first `n` elements.
pub open spec fn spec_texts_of<T: ToTokens>(items: Seq<T>, n: int) -> Seq<char>
    decreases n,
{
    if n <= 0 {
        Seq::empty()
    } else {
        spec_texts_of(items, n - 1) + items[n - 1].spec_text()
    }
}

impl<T: ToTokens> ToTokens for Option<T> {
    /// The contained value's text; nothing for `None`.
    open spec fn spec_text(&self) -> Seq<char> {
        match self {
            Some(v) => v.spec_text(),
            None => Seq::empty(),
        }
    }

    /// Writes the value when present, nothing otherwise.
    fn write(&self, printer: &mut Printer) {
        match self {
            Some(v) => v.write(printer),
            None => {
                proof {
                    assert(printer.spec_buf() =~= printer.spec_buf() + self.spec_text());
                }
            },
        }
    }
}

impl<T: ToTokens> ToTokens for Box<T> {
    /// The boxed value's text.
    open spec fn spec_text(&self) -> Seq<char> {
        (**self).spec_text()
    }

    /// Delegates to the boxed value.
    fn write(&self, printer: &mut Printer) {
        (&**self).write(printer);
    }
}

impl<T: ToTokens> ToTokens for Vec<T> {
    /// The concatenation of the elements' texts, in order.
    open spec fn spec_text(&self) -> Seq<char> {
        spec_texts_of(self@, self@.len() as int)
    }

    /// Writes every element in order.
    fn write(&self, printer: &mut Printer) {
        let ghost buf0 = printer.spec_buf();
        let len = self.len();
        let mut idx: usize = 0;
        proof {
            assert(buf0 =~= buf0 + spec_texts_of(self@, 0));
        }
        while idx < len
            invariant
                idx <= len,
                len == self@.len(),
                printer.spec_buf() == buf0 + spec_texts_of(self@, idx as int),
                printer.spec_indent_level() == old(printer).spec_indent_level(),
                printer.spec_indent_width() == old(printer).spec_indent_width(),
                printer.spec_use_tabs() == old(printer).spec_use_tabs(),
                buf0 == old(printer).spec_buf(),
            decreases len - idx,
        {
            self[idx].write(printer);
            proof {
                assert(printer.spec_buf() =~= buf0 + spec_texts_of(self@, idx + 1));
            }
            idx = idx + 1;
        }
    }
}

impl ToTokens for Token {
    /// The token's exact source text.
    open spec fn spec_text(&self) -> Seq<char> {
        spec_token_text(self@)
    }

    /// Writes the token's exact source text.
    fn write(&self, printer: &mut Printer) {
        printer.token(self);
    }
}

} // verus!
