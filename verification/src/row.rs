use vstd::prelude::*;

verus! {

/// What a sub-range request against a row yields: the characters from
/// `start` to `end`, clipped to the row's actual bounds. An
/// out-of-range request yields the empty sequence rather than failing.
pub open spec fn render_spec(row: Seq<char>, start: int, end: int) -> Seq<char> {
    let e = if end < row.len() {
        end
    } else {
        row.len() as int
    };
    let s = if start < e {
        start
    } else {
        e
    };
    row.subrange(s, e)
}

/// One line of document text, addressable only through its length and
/// clipped sub-range rendering.
pub struct Row {
    chars: Vec<char>,
}

impl View for Row {
    type V = Seq<char>;

    closed spec fn view(&self) -> Seq<char> {
        self.chars@
    }
}

impl Row {
    /// A row holding exactly the given characters.
    pub fn new(chars: Vec<char>) -> (row: Row)
        ensures
            row@ == chars@,
    {
        Row { chars }
    }

    /// The number of characters in the row.
    pub fn len(&self) -> (n: usize)
        ensures
            n == self@.len(),
    {
        self.chars.len()
    }

    /// The characters of the sub-range `[start, end)`, clipped to the
    /// row's bounds; empty when the range lies past the end.
    pub fn render(&self, start: usize, end: usize) -> (out: Vec<char>)
        ensures
            out@ == render_spec(self@, start as int, end as int),
    {
        let e = if end < self.chars.len() {
            end
        } else {
            self.chars.len()
        };
        let s = if start < e {
            start
        } else {
            e
        };
        let mut out: Vec<char> = Vec::new();
        let mut i: usize = s;
        while i < e
            invariant
                s <= i <= e <= self.chars@.len(),
                out@ == self.chars@.subrange(s as int, i as int),
            decreases e - i,
        {
            out.push(self.chars[i]);
            proof {
                assert(out@ =~= self.chars@.subrange(s as int, i + 1));
            }
            i = i + 1;
        }
        proof {
            assert(out@ =~= render_spec(self@, start as int, end as int));
        }
        out
    }
}

} // verus!
