use vstd::prelude::*;

verus! {

/// The character seen at index `i` of `code`: `'\0'` outside the text.
pub open spec fn char_or_nul(code: Seq<char>, i: int) -> char {
    if 0 <= i < code.len() {
        code[i]
    } else {
        '\0'
    }
}

/// A read position inside a slice of characters.
pub struct Cursor<'cursor> {
    pub code: &'cursor [char],
    pub current: usize,
}

impl<'cursor> Cursor<'cursor> {
    /// The characters the cursor walks over.
    pub open spec fn text(&self) -> Seq<char> {
        self.code@
    }

    /// A cursor at the start of `code`.
    pub fn new(code: &'cursor [char]) -> (r: Self)
        ensures
            r.text() == code@,
            r.current == 0,
    {
        Cursor { code, current: 0 }
    }

    /// The current character, or `'\0'` at the end.
    pub fn peek(&self) -> (r: char)
        ensures
            r == char_or_nul(self.text(), self.current as int),
    {
        if self.is_at_end() {
            '\0'
        } else {
            self.char_at(0)
        }
    }

    /// The character after the current one, or `'\0'` past the end.
    pub fn next(&self) -> (r: char)
        requires
            self.current < usize::MAX,
        ensures
            r == char_or_nul(self.text(), self.current + 1),
    {
        if self.current + 1 >= self.code.len() {
            '\0'
        } else {
            self.char_at(1)
        }
    }

    /// Whether the whole text has been read.
    pub fn is_at_end(&self) -> (r: bool)
        ensures
            r == (self.current >= self.text().len()),
    {
        self.current >= self.code.len()
    }

    /// The character at `current + offset`, or `'\0'` past the end.
    pub fn char_at(&self, offset: usize) -> (r: char)
        requires
            self.current + offset <= usize::MAX,
        ensures
            r == char_or_nul(self.text(), self.current + offset),
    {
        let index = self.current + offset;
        if self.code.len() > index {
            self.code[index]
        } else {
            '\0'
        }
    }
}

} // verus!
