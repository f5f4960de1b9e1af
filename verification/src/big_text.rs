use vstd::prelude::*;
use vstd::string::{StrSliceExecFns, StringExecFns};

verus! {

/// Renders short text as five rows of block glyphs, for the streak number
/// and headline banners. Every glyph is three cells wide on a 3 x 5 grid;
/// unknown characters render as a full block.
pub struct BigText {
    pub text: String,
}

/// The five rows of one character's glyph, top to bottom.
fn glyph(c: char) -> (&'static str, &'static str, &'static str, &'static str, &'static str) {
    match c {
        'A' | 'a' => ("###", "# #", "###", "# #", "# #"),
        'B' | 'b' => ("## ", "# #", "## ", "# #", "## "),
        'C' | 'c' => ("###", "#  ", "#  ", "#  ", "###"),
        'D' | 'd' => ("## ", "# #", "# #", "# #", "## "),
        'E' | 'e' => ("###", "#  ", "###", "#  ", "###"),
        'F' | 'f' => ("###", "#  ", "###", "#  ", "#  "),
        'G' | 'g' => ("###", "#  ", "# #", "# #", "###"),
        'H' | 'h' => ("# #", "# #", "###", "# #", "# #"),
        'I' | 'i' => ("###", " # ", " # ", " # ", "###"),
        'J' | 'j' => ("###", "  #", "  #", "# #", "###"),
        'K' | 'k' => ("# #", "# #", "## ", "# #", "# #"),
        'L' | 'l' => ("#  ", "#  ", "#  ", "#  ", "###"),
        'M' | 'm' => ("# #", "###", "###", "# #", "# #"),
        'N' | 'n' => ("# #", "###", "###", "###", "# #"),
        'O' | 'o' => ("###", "# #", "# #", "# #", "###"),
        'P' | 'p' => ("###", "# #", "###", "#  ", "#  "),
        'Q' | 'q' => ("###", "# #", "# #", "###", "  #"),
        'R' | 'r' => ("###", "# #", "## ", "# #", "# #"),
        'S' | 's' => ("###", "#  ", "###", "  #", "###"),
        'T' | 't' => ("###", " # ", " # ", " # ", " # "),
        'U' | 'u' => ("# #", "# #", "# #", "# #", "###"),
        'V' | 'v' => ("# #", "# #", "# #", "# #", " # "),
        'W' | 'w' => ("# #", "# #", "###", "###", "# #"),
        'X' | 'x' => ("# #", "# #", " # ", "# #", "# #"),
        'Y' | 'y' => ("# #", "# #", " # ", " # ", " # "),
        'Z' | 'z' => ("###", "  #", " # ", "#  ", "###"),
        '0' => ("###", "# #", "# #", "# #", "###"),
        '1' => (" # ", "## ", " # ", " # ", "###"),
        '2' => ("###", "  #", "###", "#  ", "###"),
        '3' => ("###", "  #", "###", "  #", "###"),
        '4' => ("# #", "# #", "###", "  #", "  #"),
        '5' => ("###", "#  ", "###", "  #", "###"),
        '6' => ("###", "#  ", "###", "# #", "###"),
        '7' => ("###", "  #", "  #", "  #", "  #"),
        '8' => ("###", "# #", "###", "# #", "###"),
        '9' => ("###", "# #", "###", "  #", "###"),
        ' ' => ("   ", "   ", "   ", "   ", "   "),
        _ => ("###", "###", "###", "###", "###"),
    }
}

impl BigText {
    pub fn new(text: &str) -> (r: Self)
        ensures
            r.text@ == text@,
    {
        BigText { text: text.to_owned() }
    }

    /// The rendered block text: always exactly five rows.
    pub fn lines(&self) -> (r: Vec<String>)
        ensures
            r@.len() == 5,
    {
        let mut row0 = String::new();
        let mut row1 = String::new();
        let mut row2 = String::new();
        let mut row3 = String::new();
        let mut row4 = String::new();
        let n = self.text.as_str().unicode_len();
        let mut i: usize = 0;
        while i < n
            invariant
                i <= n,
                n == self.text@.len(),
            decreases n - i,
        {
            let c = self.text.as_str().get_char(i);
            let g = glyph(c);
            row0.append(g.0);
            row0.append(" ");
            row1.append(g.1);
            row1.append(" ");
            row2.append(g.2);
            row2.append(" ");
            row3.append(g.3);
            row3.append(" ");
            row4.append(g.4);
            row4.append(" ");
            i = i + 1;
        }
        let mut out: Vec<String> = Vec::new();
        out.push(row0);
        out.push(row1);
        out.push(row2);
        out.push(row3);
        out.push(row4);
        out
    }
}

} // verus!
