use vstd::prelude::*;
use vstd::string::StrSliceExecFns;
use vstd::string::StringExecFns;

verus! {

/// The key to a lookup in an emoji store: the codepoints that make up the
/// emoji, and the platform whose glyph set to draw from.
pub struct EmojiSpec {
    pub code: String,
    pub platform: String,
}

/// A filesystem emoji store: glyphs live under a root directory, in one
/// directory per platform, as PNG files named after their codepoints, e.g.
/// `U+3145 U+E400.png`.
pub struct EmojiFS {
    pub root: String,
}

/// The uppercase hexadecimal digit for one value below sixteen.
pub open spec fn hex_digit(d: nat) -> char {
    if d == 0 {
        '0'
    } else if d == 1 {
        '1'
    } else if d == 2 {
        '2'
    } else if d == 3 {
        '3'
    } else if d == 4 {
        '4'
    } else if d == 5 {
        '5'
    } else if d == 6 {
        '6'
    } else if d == 7 {
        '7'
    } else if d == 8 {
        '8'
    } else if d == 9 {
        '9'
    } else if d == 10 {
        'A'
    } else if d == 11 {
        'B'
    } else if d == 12 {
        'C'
    } else if d == 13 {
        'D'
    } else if d == 14 {
        'E'
    } else {
        'F'
    }
}

/// The uppercase hexadecimal form of a number, most significant digit first,
/// without leading zeroes; zero itself is the single digit `0`.
pub open spec fn hex_of(n: nat) -> Seq<char>
    decreases n,
{
    if n < 16 {
        seq![hex_digit(n)]
    } else {
        hex_of(n / 16) + seq![hex_digit(n % 16)]
    }
}

/// One codepoint written as a filename unit: `U+` followed by its
/// hexadecimal value.
pub open spec fn code_unit(c: char) -> Seq<char> {
    "U+"@ + hex_of(c as nat)
}

/// The filename stem for a codepoint sequence: the units of its codepoints,
/// in order, joined by single spaces.
pub open spec fn code_name(code: Seq<char>) -> Seq<char>
    decreases code.len(),
{
    if code.len() == 0 {
        Seq::empty()
    } else if code.len() == 1 {
        code_unit(code[0])
    } else {
        code_name(code.drop_last()) + " "@ + code_unit(code.last())
    }
}

/// Where the glyph for a spec lives under a root directory:
/// `<root>/<platform>/<stem>.png`.
pub open spec fn filepath_of(root: Seq<char>, platform: Seq<char>, code: Seq<char>) -> Seq<char> {
    root + "/"@ + platform + "/"@ + code_name(code) + ".png"@
}

/// The one-character string holding the uppercase hexadecimal digit of a
/// value below sixteen.
fn hex_digit_str(d: u32) -> (r: &'static str)
    requires
        d < 16,
    ensures
        r@ == seq![hex_digit(d as nat)],
{
    proof {
        reveal_strlit("0");
        reveal_strlit("1");
        reveal_strlit("2");
        reveal_strlit("3");
        reveal_strlit("4");
        reveal_strlit("5");
        reveal_strlit("6");
        reveal_strlit("7");
        reveal_strlit("8");
        reveal_strlit("9");
        reveal_strlit("A");
        reveal_strlit("B");
        reveal_strlit("C");
        reveal_strlit("D");
        reveal_strlit("E");
        reveal_strlit("F");
    }
    if d == 0 {
        "0"
    } else if d == 1 {
        "1"
    } else if d == 2 {
        "2"
    } else if d == 3 {
        "3"
    } else if d == 4 {
        "4"
    } else if d == 5 {
        "5"
    } else if d == 6 {
        "6"
    } else if d == 7 {
        "7"
    } else if d == 8 {
        "8"
    } else if d == 9 {
        "9"
    } else if d == 10 {
        "A"
    } else if d == 11 {
        "B"
    } else if d == 12 {
        "C"
    } else if d == 13 {
        "D"
    } else if d == 14 {
        "E"
    } else {
        "F"
    }
}

/// Appends the uppercase hexadecimal form of a number to a string.
fn push_hex(s: &mut String, n: u32)
    ensures
        final(s)@ == old(s)@ + hex_of(n as nat),
    decreases n,
{
    if n >= 16 {
        push_hex(s, n / 16);
    }
    s.append(hex_digit_str(n % 16));
    proof {
        if n < 16 {
            assert(n % 16 == n as nat);
        }
    }
}

impl EmojiFS {
    /// Builds the path of the glyph file for a spec: the platform directory
    /// under the root, then the codepoints as space-separated `U+` units with
    /// a `.png` extension.
    pub fn as_filepath(&self, e: &EmojiSpec) -> (r: String)
        ensures
            r@ == filepath_of(self.root@, e.platform@, e.code@),
    {
        let mut path = String::new();
        path.append(self.root.as_str());
        path.append("/");
        path.append(e.platform.as_str());
        path.append("/");
        let ghost prefix = path@;

        let code = e.code.as_str();
        let total = code.unicode_len();
        let mut i: usize = 0;
        while i < total
            invariant
                total == e.code@.len(),
                code@ == e.code@,
                i <= total,
                path@ == prefix + code_name(e.code@.take(i as int)),
            decreases total - i,
        {
            if i > 0 {
                path.append(" ");
            }
            path.append("U+");
            let c = code.get_char(i);
            push_hex(&mut path, c as u32);
            proof {
                lemma_code_name_step(e.code@, i as int);
                assert(code_unit(e.code@[i as int]) == "U+"@ + hex_of(c as nat));
            }
            i = i + 1;
        }
        proof {
            assert(e.code@.take(total as int) =~= e.code@);
        }
        path.append(".png");
        proof {
            assert(path@ =~= filepath_of(self.root@, e.platform@, e.code@));
        }
        path
    }
}

/// Extending a codepoint prefix by one codepoint extends its filename stem by
/// a separating space (absent on the first unit) and that codepoint's unit.
proof fn lemma_code_name_step(code: Seq<char>, i: int)
    requires
        0 <= i < code.len(),
    ensures
        i == 0 ==> code_name(code.take(i + 1)) == code_unit(code[0]),
        i > 0 ==> code_name(code.take(i + 1)) == code_name(code.take(i)) + " "@ + code_unit(
            code[i],
        ),
{
    let next = code.take(i + 1);
    assert(next.drop_last() =~= code.take(i));
    assert(next.last() == code[i]);
}

} // verus!
