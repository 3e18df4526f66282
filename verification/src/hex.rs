//! A hexadecimal dump of an image's regions, one labelled line per region,
//! each byte rendered as lowercase hex digits followed by a space.

use vstd::prelude::*;
use vstd::string::StringExecFns;

use crate::image::JPG;

verus! {

/// The lowercase hexadecimal digit for a value below sixteen.
pub open spec fn hex_digit_char(n: u8) -> char {
    if n == 0 {
        '0'
    } else if n == 1 {
        '1'
    } else if n == 2 {
        '2'
    } else if n == 3 {
        '3'
    } else if n == 4 {
        '4'
    } else if n == 5 {
        '5'
    } else if n == 6 {
        '6'
    } else if n == 7 {
        '7'
    } else if n == 8 {
        '8'
    } else if n == 9 {
        '9'
    } else if n == 10 {
        'a'
    } else if n == 11 {
        'b'
    } else if n == 12 {
        'c'
    } else if n == 13 {
        'd'
    } else if n == 14 {
        'e'
    } else {
        'f'
    }
}

/// One byte rendered as lowercase hex: a single digit for values below
/// sixteen, two digits otherwise, followed by one space.
pub open spec fn hex_of_byte(b: u8) -> Seq<char> {
    if b < 16 {
        seq![hex_digit_char(b), ' ']
    } else {
        seq![hex_digit_char(b / 16), hex_digit_char(b % 16), ' ']
    }
}

/// A byte run rendered as lowercase hex, each byte followed by one space.
pub open spec fn hex_of_bytes(s: Seq<u8>) -> Seq<char>
    decreases s.len(),
{
    if s.len() == 0 {
        Seq::empty()
    } else {
        hex_of_byte(s[0]) + hex_of_bytes(s.skip(1))
    }
}

/// Appending a byte at the end of a run extends its rendering at the end.
pub proof fn lemma_hex_of_bytes_push(s: Seq<u8>, b: u8)
    ensures
        hex_of_bytes(s.push(b)) == hex_of_bytes(s) + hex_of_byte(b),
    decreases s.len(),
{
    if s.len() == 0 {
        assert(s.push(b)[0] == b);
        assert(s.push(b).skip(1) =~= Seq::<u8>::empty());
        assert(hex_of_bytes(Seq::<u8>::empty()) == Seq::<char>::empty());
        assert(hex_of_bytes(s) == Seq::<char>::empty());
        assert(hex_of_bytes(s.push(b)) =~= hex_of_bytes(s) + hex_of_byte(b));
    } else {
        lemma_hex_of_bytes_push(s.skip(1), b);
        assert(s.push(b)[0] == s[0]);
        assert(s.push(b).skip(1) =~= s.skip(1).push(b));
        assert((hex_of_byte(s[0]) + hex_of_bytes(s.skip(1))) + hex_of_byte(b) =~= hex_of_byte(
            s[0],
        ) + (hex_of_bytes(s.skip(1)) + hex_of_byte(b)));
    }
}

/// The lowercase hex digit of a value below sixteen.
fn hex_digit(n: u8) -> (r: &'static str)
    requires
        n < 16,
    ensures
        r@ == seq![hex_digit_char(n)],
{
    if n == 0 {
        proof {
            reveal_strlit("0");
            assert("0"@ =~= seq!['0']);
        }
        "0"
    } else if n == 1 {
        proof {
            reveal_strlit("1");
            assert("1"@ =~= seq!['1']);
        }
        "1"
    } else if n == 2 {
        proof {
            reveal_strlit("2");
            assert("2"@ =~= seq!['2']);
        }
        "2"
    } else if n == 3 {
        proof {
            reveal_strlit("3");
            assert("3"@ =~= seq!['3']);
        }
        "3"
    } else if n == 4 {
        proof {
            reveal_strlit("4");
            assert("4"@ =~= seq!['4']);
        }
        "4"
    } else if n == 5 {
        proof {
            reveal_strlit("5");
            assert("5"@ =~= seq!['5']);
        }
        "5"
    } else if n == 6 {
        proof {
            reveal_strlit("6");
            assert("6"@ =~= seq!['6']);
        }
        "6"
    } else if n == 7 {
        proof {
            reveal_strlit("7");
            assert("7"@ =~= seq!['7']);
        }
        "7"
    } else if n == 8 {
        proof {
            reveal_strlit("8");
            assert("8"@ =~= seq!['8']);
        }
        "8"
    } else if n == 9 {
        proof {
            reveal_strlit("9");
            assert("9"@ =~= seq!['9']);
        }
        "9"
    } else if n == 10 {
        proof {
            reveal_strlit("a");
            assert("a"@ =~= seq!['a']);
        }
        "a"
    } else if n == 11 {
        proof {
            reveal_strlit("b");
            assert("b"@ =~= seq!['b']);
        }
        "b"
    } else if n == 12 {
        proof {
            reveal_strlit("c");
            assert("c"@ =~= seq!['c']);
        }
        "c"
    } else if n == 13 {
        proof {
            reveal_strlit("d");
            assert("d"@ =~= seq!['d']);
        }
        "d"
    } else if n == 14 {
        proof {
            reveal_strlit("e");
            assert("e"@ =~= seq!['e']);
        }
        "e"
    } else {
        proof {
            reveal_strlit("f");
            assert("f"@ =~= seq!['f']);
        }
        "f"
    }
}

/// Appends the hex rendering of one byte to `out`.
fn append_hex_byte(out: String, b: u8) -> (r: String)
    ensures
        r@ == out@ + hex_of_byte(b),
{
    let mut r = out;
    if b < 16 {
        r.append(hex_digit(b));
    } else {
        r.append(hex_digit(b / 16));
        r.append(hex_digit(b % 16));
    }
    r.append(" ");
    proof {
        reveal_strlit(" ");
        assert(" "@ =~= seq![' ']);
        assert(r@ =~= out@ + hex_of_byte(b));
    }
    r
}

/// Appends the hex rendering of a whole byte run to `out`.
fn append_hex_bytes(out: String, bytes: &Vec<u8>) -> (r: String)
    ensures
        r@ == out@ + hex_of_bytes(bytes@),
{
    let mut r = out;
    let mut k: usize = 0;
    while k < bytes.len()
        invariant
            k <= bytes@.len(),
            r@ == out@ + hex_of_bytes(bytes@.subrange(0, k as int)),
        decreases bytes@.len() - k,
    {
        let b = bytes[k];
        r = append_hex_byte(r, b);
        proof {
            assert(bytes@.subrange(0, k as int + 1) =~= bytes@.subrange(0, k as int).push(b));
            lemma_hex_of_bytes_push(bytes@.subrange(0, k as int), b);
            assert((out@ + hex_of_bytes(bytes@.subrange(0, k as int))) + hex_of_byte(b) =~= out@ + (
            hex_of_bytes(bytes@.subrange(0, k as int)) + hex_of_byte(b)));
        }
        k = k + 1;
    }
    proof {
        assert(bytes@.subrange(0, bytes@.len() as int) =~= bytes@);
    }
    r
}

impl JPG {
    /// The text of the hex dump: one labelled line per region, trailing
    /// padding included.
    pub open spec fn hex_dump_spec(self) -> Seq<char> {
        "\nsoi: "@ + hex_of_bytes(self.soi@) + "\napp0: "@ + hex_of_bytes(self.app0@) + "\ndqt: "@
            + hex_of_bytes(self.dqt@) + "\nsof0: "@ + hex_of_bytes(self.sof0@) + "\ndht: "@
            + hex_of_bytes(self.dht@) + "\nsos: "@ + hex_of_bytes(self.sos@) + "\nimage: "@
            + hex_of_bytes(self.image@) + "\n            "@
    }

    /// Renders every region of the image as labelled lowercase hex lines.
    pub fn hex_dump(&self) -> (s: String)
        ensures
            s@ == self.hex_dump_spec(),
    {
        let mut s = String::new();
        s.append("\nsoi: ");
        s = append_hex_bytes(s, &self.soi);
        s.append("\napp0: ");
        s = append_hex_bytes(s, &self.app0);
        s.append("\ndqt: ");
        s = append_hex_bytes(s, &self.dqt);
        s.append("\nsof0: ");
        s = append_hex_bytes(s, &self.sof0);
        s.append("\ndht: ");
        s = append_hex_bytes(s, &self.dht);
        s.append("\nsos: ");
        s = append_hex_bytes(s, &self.sos);
        s.append("\nimage: ");
        s = append_hex_bytes(s, &self.image);
        s.append("\n            ");
        proof {
            assert(s@ =~= self.hex_dump_spec());
        }
        s
    }
}

} // verus!
