//! The command tokenizer: splits a command line into its name and
//! arguments, with double quotes and backslash escapes.

use crate::text::views;
use vstd::prelude::*;

verus! {

/// Whether `c` separates arguments: a character with the Unicode property
/// `White_Space`.
pub open spec fn is_whitespace(c: char) -> bool {
    let code = c as u32;
    ||| 0x09 <= code <= 0x0D
    ||| code == 0x20
    ||| code == 0x85
    ||| code == 0xA0
    ||| code == 0x1680
    ||| 0x2000 <= code <= 0x200A
    ||| code == 0x2028
    ||| code == 0x2029
    ||| code == 0x202F
    ||| code == 0x205F
    ||| code == 0x3000
}

/// The tokenizer's state between two characters.
pub struct Scan {
    /// The arguments that are complete, in order.
    pub tokens: Seq<Seq<char>>,
    /// The characters of the argument that is being read.
    pub pending: Seq<char>,
    /// Whether the scan stands inside a quoted span.
    pub quoted: bool,
    /// Whether the character before was a backslash that began an escape.
    pub escaped: bool,
}

impl Scan {
    /// The state before the first character.
    pub open spec fn start() -> Scan {
        Scan { tokens: Seq::empty(), pending: Seq::empty(), quoted: false, escaped: false }
    }

    /// Ends the pending argument: it joins the arguments unless it is empty.
    pub open spec fn flush(self) -> Scan {
        if self.pending.len() > 0 {
            Scan { tokens: self.tokens.push(self.pending), pending: Seq::empty(), ..self }
        } else {
            self
        }
    }

    /// The state after the character `c`.
    ///
    /// After a backslash the character is taken as it is. Otherwise a
    /// backslash begins an escape, a double quote ends the pending argument
    /// and enters or leaves a quoted span, whitespace outside a quoted span
    /// ends the pending argument, and any other character joins it.
    pub open spec fn feed(self, c: char) -> Scan {
        if self.escaped {
            Scan { pending: self.pending.push(c), escaped: false, ..self }
        } else if c == '\\' {
            Scan { escaped: true, ..self }
        } else if c == '"' {
            Scan { quoted: !self.quoted, ..self.flush() }
        } else if is_whitespace(c) && !self.quoted {
            self.flush()
        } else {
            Scan { pending: self.pending.push(c), ..self }
        }
    }

    /// Whether no complete argument is empty.
    pub open spec fn tokens_filled(self) -> bool {
        forall|i: int| 0 <= i < self.tokens.len() ==> (#[trigger] self.tokens[i]).len() > 0
    }
}

/// The state after all of `text`.
pub open spec fn scan(text: Seq<char>) -> Scan
    decreases text.len(),
{
    if text.len() == 0 {
        Scan::start()
    } else {
        scan(text.drop_last()).feed(text.last())
    }
}

/// The tokens of `text`: the arguments that are complete at its end, and
/// the pending one. A quoted span that is still open and an escape that
/// nothing follows end with the text.
pub open spec fn tokens_of(text: Seq<char>) -> Seq<Seq<char>> {
    scan(text).flush().tokens
}

/// No token of a text is empty.
pub proof fn lemma_tokens_filled(text: Seq<char>)
    ensures
        scan(text).tokens_filled(),
        scan(text).flush().tokens_filled(),
        forall|i: int| 0 <= i < tokens_of(text).len() ==> (#[trigger] tokens_of(text)[i]).len() > 0,
    decreases text.len(),
{
    if text.len() > 0 {
        lemma_tokens_filled(text.drop_last());
    }
}

/// Whether no character of `text` is `c`.
pub open spec fn lacks(text: Seq<char>, c: char) -> bool {
    forall|i: int| 0 <= i < text.len() ==> text[i] != c
}

/// Whether no character of `text` separates arguments.
pub open spec fn lacks_whitespace(text: Seq<char>) -> bool {
    forall|i: int| 0 <= i < text.len() ==> !is_whitespace(#[trigger] text[i])
}

/// Without escapes, quotes and whitespace stay out of the tokens: where a
/// text holds no backslash, no token holds a double quote, and where it
/// holds no double quote either, no token holds whitespace.
pub proof fn lemma_plain_tokens(text: Seq<char>)
    requires
        lacks(text, '\\'),
    ensures
        forall|i: int| 0 <= i < tokens_of(text).len() ==> lacks(#[trigger] tokens_of(text)[i], '"'),
        lacks(text, '"') ==> forall|i: int|
            0 <= i < tokens_of(text).len() ==> lacks_whitespace(#[trigger] tokens_of(text)[i]),
{
    lemma_plain_scan(text);
}

proof fn lemma_plain_scan(text: Seq<char>)
    requires
        lacks(text, '\\'),
    ensures
        !scan(text).escaped,
        lacks(scan(text).pending, '"'),
        forall|i: int| 0 <= i < scan(text).tokens.len() ==> lacks(#[trigger] scan(text).tokens[i], '"'),
        lacks(text, '"') ==> {
            &&& !scan(text).quoted
            &&& lacks_whitespace(scan(text).pending)
            &&& forall|i: int|
                0 <= i < scan(text).tokens.len() ==> lacks_whitespace(
                    #[trigger] scan(text).tokens[i],
                )
        },
    decreases text.len(),
{
    if text.len() > 0 {
        let front = text.drop_last();
        assert(lacks(front, '\\')) by {
            assert forall|i: int| 0 <= i < front.len() implies front[i] != '\\' by {
                assert(front[i] == text[i]);
            }
        }
        if lacks(text, '"') {
            assert(lacks(front, '"')) by {
                assert forall|i: int| 0 <= i < front.len() implies front[i] != '"' by {
                    assert(front[i] == text[i]);
                }
            }
        }
        lemma_plain_scan(front);
        assert(text.last() == text[text.len() - 1]);
    }
}

/// A command line: the name of the command and its arguments.
#[derive(Clone, Debug, PartialEq, Eq)]
pub struct CommandLine {
    pub name: String,
    pub arguments: Vec<String>,
}

/// Whether `c` separates arguments.
pub fn separates(c: char) -> (yes: bool)
    ensures
        yes == is_whitespace(c),
{
    let code = c as u32;
    (0x09 <= code && code <= 0x0D) || code == 0x20 || code == 0x85 || code == 0xA0 || code
        == 0x1680 || (0x2000 <= code && code <= 0x200A) || code == 0x2028 || code == 0x2029
        || code == 0x202F || code == 0x205F || code == 0x3000
}

/// Splits `text` into tokens. Every input is accepted, and no token is
/// empty.
pub fn tokenize(text: &str) -> (tokens: Vec<String>)
    ensures
        views(tokens@) == tokens_of(text@),
        forall|i: int| 0 <= i < tokens.len() ==> (#[trigger] tokens[i])@.len() > 0,
{
    let mut tokens: Vec<String> = Vec::new();
    let mut pending = String::new();
    let mut quoted = false;
    let mut escaped = false;
    let ghost mut seen: Seq<char> = Seq::empty();
    assert(views(tokens@) =~= Scan::start().tokens);
    for c in it: text.chars()
        invariant
            seen == it.history(),
            views(tokens@) == scan(seen).tokens,
            pending@ == scan(seen).pending,
            quoted == scan(seen).quoted,
            escaped == scan(seen).escaped,
    {
        let ghost before = scan(seen);
        proof {
            assert(seen.push(c).drop_last() =~= seen);
            seen = seen.push(c);
            assert(scan(seen) == before.feed(c));
        }
        if escaped {
            pending.push(c);
            escaped = false;
        } else if c == '\\' {
            escaped = true;
        } else if c == '"' || (separates(c) && !quoted) {
            if !pending.as_str().is_empty() {
                let ghost old_tokens = tokens@;
                tokens.push(pending);
                pending = String::new();
                assert(views(tokens@) =~= views(old_tokens).push(before.pending));
            }
            if c == '"' {
                quoted = !quoted;
            }
        } else {
            pending.push(c);
        }
    }
    if !pending.as_str().is_empty() {
        let ghost old_tokens = tokens@;
        let ghost last = pending@;
        tokens.push(pending);
        assert(views(tokens@) =~= views(old_tokens).push(last));
    }
    proof {
        assert(seen =~= text@);
        lemma_tokens_filled(text@);
        assert forall|i: int| 0 <= i < tokens.len() implies (#[trigger] tokens[i])@.len() > 0 by {
            assert(views(tokens@)[i] == tokens[i]@);
            assert(tokens_of(text@)[i].len() > 0);
        }
    }
    tokens
}

/// Reads a command line: the first token of `text` is the command's name,
/// the others are its arguments. `None` where `text` holds no token.
pub fn parse_command(text: &str) -> (line: Option<CommandLine>)
    ensures
        line is None <==> tokens_of(text@).len() == 0,
        line matches Some(l) ==> {
            &&& l.name@ == tokens_of(text@)[0]
            &&& views(l.arguments@) == tokens_of(text@).skip(1)
        },
{
    let mut tokens = tokenize(text);
    if tokens.len() == 0 {
        return None;
    }
    let ghost all = tokens@;
    let name = tokens.remove(0);
    assert(views(tokens@) =~= views(all).skip(1));
    Some(CommandLine { name, arguments: tokens })
}

} // verus!
