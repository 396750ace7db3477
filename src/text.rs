use vstd::prelude::*;

verus! {

/// What `String::from_utf8_lossy` makes of a byte sequence.
pub uninterp spec fn lossy_of(b: Seq<u8>) -> Seq<char>;

/// Every byte is below 0x80.
pub open spec fn is_ascii_bytes(b: Seq<u8>) -> bool {
    forall|i: int| 0 <= i < b.len() ==> #[trigger] b[i] < 0x80
}

/// The characters whose code points are the given bytes.
pub open spec fn ascii_chars(b: Seq<u8>) -> Seq<char> {
    b.map_values(|x: u8| x as char)
}

/// Relies on `String::from_utf8_lossy`: the text depends on the bytes alone,
/// and valid UTF-8 (ASCII in particular) is taken over character for character.
#[verifier::external_body]
pub(crate) fn utf8_lossy(b: &Vec<u8>) -> (r: String)
    ensures
        r@ == lossy_of(b@),
        is_ascii_bytes(b@) ==> r@ == ascii_chars(b@),
{
    String::from_utf8_lossy(b.as_slice()).into_owned()
}

/// The upper-case hexadecimal digit for `d` (taken modulo 16).
pub open spec fn hex_digit(d: nat) -> char {
    let d = d % 16;
    if d == 0 {
        '0'
    } else if d == 1 {
        '1'
    } else if d == 2 {
        '2'
    } else if d == 3 {
        '3'
    } else if d == 4 {
        '4'
    } else if d == 5 {
        '5'
    } else if d == 6 {
        '6'
    } else if d == 7 {
        '7'
    } else if d == 8 {
        '8'
    } else if d == 9 {
        '9'
    } else if d == 10 {
        'A'
    } else if d == 11 {
        'B'
    } else if d == 12 {
        'C'
    } else if d == 13 {
        'D'
    } else if d == 14 {
        'E'
    } else {
        'F'
    }
}

/// `n` in upper-case hexadecimal, without leading zeros ("0" for zero).
pub open spec fn hex_text(n: nat) -> Seq<char>
    decreases n,
{
    if n < 16 {
        seq![hex_digit(n)]
    } else {
        hex_text(n / 16).push(hex_digit(n % 16))
    }
}

/// A word read as a two's-complement signed value.
pub open spec fn signed16(w: u16) -> int {
    if w < 0x8000 {
        w as int
    } else {
        w as int - 0x10000
    }
}

/// `d` written with its sign and a `0x` prefix: `+0x5`, `-0x2`.
pub open spec fn signed_hex_text(d: int) -> Seq<char> {
    if d >= 0 {
        "+0x"@ + hex_text(d as nat)
    } else {
        "-0x"@ + hex_text((-d) as nat)
    }
}

/// The bytes with each line feed written as `\n` and each carriage return as `\r`.
pub open spec fn escape_bytes(b: Seq<u8>) -> Seq<u8>
    decreases b.len(),
{
    if b.len() == 0 {
        Seq::empty()
    } else {
        let last = b.last();
        escape_bytes(b.drop_last()) + if last == 10 {
            seq![92u8, 110u8]
        } else if last == 13 {
            seq![92u8, 114u8]
        } else {
            seq![last]
        }
    }
}

fn hex_digit_str(d: u32) -> (s: &'static str)
    ensures
        s@ == seq![hex_digit(d as nat)],
{
    proof {
        reveal_strlit("0");
        reveal_strlit("1");
        reveal_strlit("2");
        reveal_strlit("3");
        reveal_strlit("4");
        reveal_strlit("5");
        reveal_strlit("6");
        reveal_strlit("7");
        reveal_strlit("8");
        reveal_strlit("9");
        reveal_strlit("A");
        reveal_strlit("B");
        reveal_strlit("C");
        reveal_strlit("D");
        reveal_strlit("E");
        reveal_strlit("F");
    }
    let d = d % 16;
    let s = if d == 0 {
        "0"
    } else if d == 1 {
        "1"
    } else if d == 2 {
        "2"
    } else if d == 3 {
        "3"
    } else if d == 4 {
        "4"
    } else if d == 5 {
        "5"
    } else if d == 6 {
        "6"
    } else if d == 7 {
        "7"
    } else if d == 8 {
        "8"
    } else if d == 9 {
        "9"
    } else if d == 10 {
        "A"
    } else if d == 11 {
        "B"
    } else if d == 12 {
        "C"
    } else if d == 13 {
        "D"
    } else if d == 14 {
        "E"
    } else {
        "F"
    };
    assert(s@ =~= seq![hex_digit(d as nat)]);
    s
}

/// Appends `n` in upper-case hexadecimal to `s`.
pub fn push_hex(s: &mut String, n: u32)
    ensures
        final(s)@ == old(s)@ + hex_text(n as nat),
    decreases n,
{
    if n >= 16 {
        push_hex(s, n / 16);
    }
    s.append(hex_digit_str(n % 16));
    proof {
        if n >= 16 {
            assert(final(s)@ =~= old(s)@ + hex_text(n as nat));
        } else {
            assert(final(s)@ =~= old(s)@ + hex_text(n as nat));
        }
    }
}

/// Appends the two's-complement value of `w` with its sign and a `0x` prefix to `s`.
pub fn push_signed_hex(s: &mut String, w: u16)
    ensures
        final(s)@ == old(s)@ + signed_hex_text(signed16(w)),
{
    if w < 0x8000 {
        s.append("+0x");
        push_hex(s, w as u32);
    } else {
        s.append("-0x");
        push_hex(s, 0x10000 - w as u32);
    }
    assert(final(s)@ =~= old(s)@ + signed_hex_text(signed16(w)));
}

/// A copy of `b` with line feeds and carriage returns written as escapes.
pub fn escape_line_breaks(b: &Vec<u8>) -> (r: Vec<u8>)
    ensures
        r@ == escape_bytes(b@),
{
    let mut out: Vec<u8> = Vec::new();
    let mut i: usize = 0;
    while i < b.len()
        invariant
            i <= b.len(),
            out@ == escape_bytes(b@.subrange(0, i as int)),
        decreases b.len() - i,
    {
        let c = b[i];
        if c == 10 {
            out.push(92);
            out.push(110);
        } else if c == 13 {
            out.push(92);
            out.push(114);
        } else {
            out.push(c);
        }
        proof {
            let t = b@.subrange(0, i + 1);
            assert(t.drop_last() =~= b@.subrange(0, i as int));
            assert(t.last() == c);
        }
        i = i + 1;
        assert(out@ =~= escape_bytes(b@.subrange(0, i as int)));
    }
    assert(b@.subrange(0, b.len() as int) =~= b@);
    out
}

} // verus!
