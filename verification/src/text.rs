//! Source ranges and the handful of string operations the syntax layer relies on.
//!
//! Strings are modelled by their view, a `Seq<char>`. White space is what
//! Unicode gives the property `White_Space`; [`is_white_space`] lists those
//! characters, and `char::is_whitespace` is assumed to answer by that list.
use vstd::prelude::*;

verus! {

/// The characters with the Unicode property `White_Space`: the controls from
/// tab to carriage return, the space, next line, the no-break space, the
/// ogham space mark, the spaces of fixed width, the line and the paragraph
/// separator, the narrow no-break space, the medium mathematical space and
/// the ideographic space.
pub open spec fn is_white_space(c: char) -> bool {
    let code = c as u32;
    ||| 0x0009 <= code <= 0x000D
    ||| code == 0x0020
    ||| code == 0x0085
    ||| code == 0x00A0
    ||| code == 0x1680
    ||| 0x2000 <= code <= 0x200A
    ||| code == 0x2028
    ||| code == 0x2029
    ||| code == 0x202F
    ||| code == 0x205F
    ||| code == 0x3000
}

/// `char::is_whitespace`: the result says whether the character has the
/// property `White_Space`, which [`is_white_space`] spells out.
pub assume_specification[ char::is_whitespace ](c: char) -> (r: bool)
    ensures
        r == is_white_space(c),
;

/// `str` equality (`<str as PartialEq>::eq`): two string slices are equal exactly
/// when they hold the same sequence of characters.
pub assume_specification[ <str as PartialEq>::eq ](a: &str, b: &str) -> (r: bool)
    ensures
        r == (a@ == b@),
;

/// A text is blank when every character of it is white space, that is, when
/// trimming white space off both ends leaves nothing.
pub open spec fn is_blank(text: Seq<char>) -> bool {
    forall|i: int| 0 <= i < text.len() ==> is_white_space(#[trigger] text[i])
}

/// The two characters that can delimit a string literal.
pub open spec fn is_quote(c: char) -> bool {
    c == '"' || c == '\''
}

/// A string literal as the lexer produces it: at least two characters, the
/// first a quote and the last the same quote.
pub open spec fn is_quoted(text: Seq<char>) -> bool {
    &&& text.len() >= 2
    &&& is_quote(text[0])
    &&& text[text.len() - 1] == text[0]
}

/// The text between the delimiters of a quoted string literal.
pub open spec fn unquoted(text: Seq<char>) -> Seq<char>
    recommends
        is_quoted(text),
{
    text.subrange(1, text.len() - 1)
}

/// Whether `text` consists of white space only.
pub fn blank(text: &str) -> (r: bool)
    ensures
        r == is_blank(text@),
{
    for c in it: text.chars()
        invariant
            it.seq() == text@,
            forall|j: int| 0 <= j < it.index() ==> is_white_space(#[trigger] text@[j]),
    {
        if !c.is_whitespace() {
            return false;
        }
    }
    true
}

/// Whether `text` is a string literal with its delimiters.
pub fn quoted(text: &str) -> (r: bool)
    ensures
        r == is_quoted(text@),
{
    let n: usize = text.unicode_len();
    if n < 2 {
        return false;
    }
    let first: char = text.get_char(0);
    let last: char = text.get_char(n - 1);
    (first == '"' || first == '\'') && last == first
}

/// Strips the delimiters off a quoted string literal.
pub fn strip_quotes<'a>(text: &'a str) -> (r: &'a str)
    requires
        is_quoted(text@),
    ensures
        r@ == unquoted(text@),
{
    let n: usize = text.unicode_len();
    text.substring_char(1, n - 1)
}

/// A half-open range `start..end` of offsets into the source text.
#[derive(Clone, Copy, Debug)]
pub struct TextRange {
    pub(crate) start: u32,
    pub(crate) end: u32,
}

impl TextRange {
    /// A range never ends before it starts.
    #[verifier::type_invariant]
    pub open(crate) spec fn wf(self) -> bool {
        self.start <= self.end
    }

    pub open(crate) spec fn spec_start(self) -> u32 {
        self.start
    }

    pub open(crate) spec fn spec_end(self) -> u32 {
        self.end
    }

    /// The range `start..end`.
    pub fn new(start: u32, end: u32) -> (r: TextRange)
        requires
            start <= end,
        ensures
            r.spec_start() == start,
            r.spec_end() == end,
    {
        TextRange { start, end }
    }

    /// The range `start..end`, or nothing where `end` lies before `start`.
    pub fn checked_new(start: u32, end: u32) -> (r: Option<TextRange>)
        ensures
            r is Some <==> start <= end,
            r matches Some(range) ==> range.spec_start() == start && range.spec_end() == end,
    {
        if start <= end {
            Some(TextRange { start, end })
        } else {
            None
        }
    }

    #[verifier::when_used_as_spec(spec_start)]
    pub fn start(self) -> (r: u32)
        ensures
            r == self.spec_start(),
    {
        self.start
    }

    #[verifier::when_used_as_spec(spec_end)]
    pub fn end(self) -> (r: u32)
        ensures
            r == self.spec_end(),
    {
        self.end
    }

    /// The number of offsets the range covers.
    pub fn len(self) -> (r: u32)
        ensures
            r == self.spec_end() - self.spec_start(),
    {
        proof {
            use_type_invariant(self);
        }
        self.end - self.start
    }
}

} // verus!
