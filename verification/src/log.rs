//! Diagnostic log lines: a hexadecimal rendering of byte identifiers and
//! the greeting line the shipped handler emits. Log lines are observational
//! only; they are never part of the success/failure contract.

use vstd::prelude::*;

verus! {

/// The lower-case hexadecimal digit for a value below sixteen.
pub open spec fn hex_digit_char(n: int) -> char {
    if n == 0 {
        '0'
    } else if n == 1 {
        '1'
    } else if n == 2 {
        '2'
    } else if n == 3 {
        '3'
    } else if n == 4 {
        '4'
    } else if n == 5 {
        '5'
    } else if n == 6 {
        '6'
    } else if n == 7 {
        '7'
    } else if n == 8 {
        '8'
    } else if n == 9 {
        '9'
    } else if n == 10 {
        'a'
    } else if n == 11 {
        'b'
    } else if n == 12 {
        'c'
    } else if n == 13 {
        'd'
    } else if n == 14 {
        'e'
    } else {
        'f'
    }
}

/// One byte rendered as two hexadecimal digits, high nibble first.
pub open spec fn hex_of_byte(b: u8) -> Seq<char> {
    seq![hex_digit_char(b as int / 16), hex_digit_char(b as int % 16)]
}

/// A byte sequence rendered as hexadecimal digits, in order.
pub open spec fn hex_model(bytes: Seq<u8>) -> Seq<char>
    decreases bytes.len(),
{
    if bytes.len() == 0 {
        Seq::empty()
    } else {
        hex_of_byte(bytes[0]) + hex_model(bytes.drop_first())
    }
}

/// The diagnostic line the shipped handler emits: a fixed greeting followed
/// by the program identifier in hexadecimal.
pub open spec fn greeting_model(pid: Seq<u8>) -> Seq<char> {
    "Greetings from: "@ + hex_model(pid)
}

/// Appends the hexadecimal digit for `n` to `s`.
fn push_hex_digit(s: &mut String, n: u8)
    requires
        n < 16,
    ensures
        final(s)@ == old(s)@ + seq![hex_digit_char(n as int)],
{
    if n == 0 {
        proof {
            reveal_strlit("0");
        }
        s.append("0");
    } else if n == 1 {
        proof {
            reveal_strlit("1");
        }
        s.append("1");
    } else if n == 2 {
        proof {
            reveal_strlit("2");
        }
        s.append("2");
    } else if n == 3 {
        proof {
            reveal_strlit("3");
        }
        s.append("3");
    } else if n == 4 {
        proof {
            reveal_strlit("4");
        }
        s.append("4");
    } else if n == 5 {
        proof {
            reveal_strlit("5");
        }
        s.append("5");
    } else if n == 6 {
        proof {
            reveal_strlit("6");
        }
        s.append("6");
    } else if n == 7 {
        proof {
            reveal_strlit("7");
        }
        s.append("7");
    } else if n == 8 {
        proof {
            reveal_strlit("8");
        }
        s.append("8");
    } else if n == 9 {
        proof {
            reveal_strlit("9");
        }
        s.append("9");
    } else if n == 10 {
        proof {
            reveal_strlit("a");
        }
        s.append("a");
    } else if n == 11 {
        proof {
            reveal_strlit("b");
        }
        s.append("b");
    } else if n == 12 {
        proof {
            reveal_strlit("c");
        }
        s.append("c");
    } else if n == 13 {
        proof {
            reveal_strlit("d");
        }
        s.append("d");
    } else if n == 14 {
        proof {
            reveal_strlit("e");
        }
        s.append("e");
    } else {
        proof {
            reveal_strlit("f");
        }
        s.append("f");
    }
    proof {
        assert(final(s)@ =~= old(s)@ + seq![hex_digit_char(n as int)]);
    }
}

/// Rendering a longer prefix extends the rendering of the shorter prefix.
proof fn lemma_hex_model_snoc(bytes: Seq<u8>, i: int)
    requires
        0 <= i < bytes.len(),
    ensures
        hex_model(bytes.subrange(0, i + 1)) == hex_model(bytes.subrange(0, i)) + hex_of_byte(
            bytes[i],
        ),
    decreases i,
{
    let longer = bytes.subrange(0, i + 1);
    let shorter = bytes.subrange(0, i);
    if i == 0 {
        assert(longer.drop_first() =~= Seq::<u8>::empty());
        assert(hex_model(shorter) =~= Seq::<char>::empty());
        assert(hex_model(longer) =~= hex_of_byte(bytes[0]) + hex_model(longer.drop_first()));
        assert(hex_model(longer) =~= hex_model(shorter) + hex_of_byte(bytes[i]));
    } else {
        let tail = bytes.subrange(1, bytes.len() as int);
        lemma_hex_model_snoc(tail, i - 1);
        assert(longer.drop_first() =~= tail.subrange(0, i));
        assert(shorter.drop_first() =~= tail.subrange(0, i - 1));
        assert(tail[i - 1] == bytes[i]);
        assert(hex_model(longer) == hex_of_byte(bytes[0]) + hex_model(tail.subrange(0, i)));
        assert(hex_model(shorter) == hex_of_byte(bytes[0]) + hex_model(tail.subrange(0, i - 1)));
        assert(hex_model(longer) =~= hex_model(shorter) + hex_of_byte(bytes[i]));
    }
}

/// Appends the hexadecimal rendering of `bytes` to `s`.
fn append_hex(s: &mut String, bytes: &Vec<u8>)
    ensures
        final(s)@ == old(s)@ + hex_model(bytes@),
{
    let n: usize = bytes.len();
    let mut i: usize = 0;
    proof {
        assert(bytes@.subrange(0, 0) =~= Seq::<u8>::empty());
        assert(old(s)@ + hex_model(bytes@.subrange(0, 0)) =~= old(s)@);
    }
    while i < n
        invariant
            i <= n,
            n == bytes@.len(),
            s@ == old(s)@ + hex_model(bytes@.subrange(0, i as int)),
        decreases n - i,
    {
        let b = bytes[i];
        let hi: u8 = b / 16;
        let lo: u8 = b % 16;
        push_hex_digit(s, hi);
        push_hex_digit(s, lo);
        proof {
            lemma_hex_model_snoc(bytes@, i as int);
            assert(seq![hex_digit_char(hi as int)] + seq![hex_digit_char(lo as int)] =~= hex_of_byte(
                b,
            ));
            assert(s@ =~= old(s)@ + hex_model(bytes@.subrange(0, i as int + 1)));
        }
        i = i + 1;
    }
    proof {
        assert(bytes@.subrange(0, n as int) =~= bytes@);
    }
}

/// Builds the hexadecimal rendering of `bytes`.
pub fn hex_string(bytes: &Vec<u8>) -> (r: String)
    ensures
        r@ == hex_model(bytes@),
{
    let mut s = String::new();
    append_hex(&mut s, bytes);
    proof {
        assert(Seq::<char>::empty() + hex_model(bytes@) =~= hex_model(bytes@));
    }
    s
}

/// Builds the greeting line for a program identifier.
pub fn greeting(program_id: &Vec<u8>) -> (r: String)
    ensures
        r@ == greeting_model(program_id@),
{
    let mut s = String::from_str("Greetings from: ");
    append_hex(&mut s, program_id);
    s
}

/// The greeting contains the program identifier: the tail of the line,
/// after the fixed greeting text, is exactly the identifier's hexadecimal
/// rendering.
pub proof fn lemma_greeting_contains_id(pid: Seq<u8>)
    ensures
        greeting_model(pid).len() >= hex_model(pid).len(),
        greeting_model(pid).subrange(
            greeting_model(pid).len() - hex_model(pid).len(),
            greeting_model(pid).len() as int,
        ) == hex_model(pid),
{
    assert(greeting_model(pid).subrange(
        greeting_model(pid).len() - hex_model(pid).len(),
        greeting_model(pid).len() as int,
    ) =~= hex_model(pid));
}

} // verus!
