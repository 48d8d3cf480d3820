use vstd::prelude::*;
use vstd::string::StringExecFns;

verus! {

/// The lowercase hexadecimal digit for a value below sixteen.
pub open spec fn hex_digit(n: int) -> char {
    if n == 0 {
        '0'
    } else if n == 1 {
        '1'
    } else if n == 2 {
        '2'
    } else if n == 3 {
        '3'
    } else if n == 4 {
        '4'
    } else if n == 5 {
        '5'
    } else if n == 6 {
        '6'
    } else if n == 7 {
        '7'
    } else if n == 8 {
        '8'
    } else if n == 9 {
        '9'
    } else if n == 10 {
        'a'
    } else if n == 11 {
        'b'
    } else if n == 12 {
        'c'
    } else if n == 13 {
        'd'
    } else if n == 14 {
        'e'
    } else {
        'f'
    }
}

/// Lowercase hexadecimal rendering of a byte sequence: two digits per byte,
/// high digit first.
pub open spec fn hex_of(bytes: Seq<u8>) -> Seq<char>
    decreases bytes.len(),
{
    if bytes.len() == 0 {
        Seq::empty()
    } else {
        seq![hex_digit(bytes[0] as int / 16), hex_digit(bytes[0] as int % 16)] + hex_of(
            bytes.drop_first(),
        )
    }
}

/// A digest rendered for output: its hex text followed by one line break.
pub open spec fn hex_line(bytes: Seq<u8>) -> Seq<char> {
    hex_of(bytes) + seq!['\n']
}

/// The hex rendering is two digits per byte.
pub proof fn lemma_hex_of_len(bytes: Seq<u8>)
    ensures
        hex_of(bytes).len() == 2 * bytes.len(),
    decreases bytes.len(),
{
    if bytes.len() > 0 {
        lemma_hex_of_len(bytes.drop_first());
    }
}

/// Every character of the hex rendering is a lowercase hexadecimal digit,
/// so the rendering itself holds no line break: the digest output is a
/// single line.
pub proof fn lemma_hex_of_digits(bytes: Seq<u8>)
    ensures
        forall|i: int|
            0 <= i < hex_of(bytes).len() ==> exists|n: int|
                0 <= n < 16 && #[trigger] hex_of(bytes)[i] == hex_digit(n),
    decreases bytes.len(),
{
    if bytes.len() > 0 {
        lemma_hex_of_digits(bytes.drop_first());
        let s = hex_of(bytes);
        let rest = hex_of(bytes.drop_first());
        assert forall|i: int| 0 <= i < s.len() implies exists|n: int|
            0 <= n < 16 && #[trigger] s[i] == hex_digit(n) by {
            if i == 0 {
                let n0 = bytes[0] as int / 16;
                assert(0 <= n0 < 16 && s[i] == hex_digit(n0));
            } else if i == 1 {
                let n1 = bytes[0] as int % 16;
                assert(0 <= n1 < 16 && s[i] == hex_digit(n1));
            } else {
                assert(s[i] == rest[i - 2]);
                let n = choose|n: int| 0 <= n < 16 && rest[i - 2] == hex_digit(n);
                assert(0 <= n < 16 && s[i] == hex_digit(n));
            }
        }
    }
}

proof fn lemma_hex_of_push(bytes: Seq<u8>, b: u8)
    ensures
        hex_of(bytes.push(b)) == hex_of(bytes) + seq![
            hex_digit(b as int / 16),
            hex_digit(b as int % 16),
        ],
    decreases bytes.len(),
{
    let digits = seq![hex_digit(b as int / 16), hex_digit(b as int % 16)];
    if bytes.len() == 0 {
        assert(bytes.push(b)[0] == b);
        assert(bytes.push(b).drop_first() =~= Seq::<u8>::empty());
        assert(hex_of(Seq::<u8>::empty()) == Seq::<char>::empty());
        assert(hex_of(bytes) == Seq::<char>::empty());
        assert(hex_of(bytes.push(b)) =~= hex_of(bytes) + digits);
    } else {
        assert(bytes.push(b)[0] == bytes[0]);
        assert(bytes.push(b).drop_first() =~= bytes.drop_first().push(b));
        lemma_hex_of_push(bytes.drop_first(), b);
        assert(hex_of(bytes.push(b)) =~= hex_of(bytes) + digits);
    }
}

fn push_hex_digit(s: &mut String, n: u8)
    requires
        n < 16,
    ensures
        final(s)@ == old(s)@ + seq![hex_digit(n as int)],
{
    let d: &str = if n == 0 {
        "0"
    } else if n == 1 {
        "1"
    } else if n == 2 {
        "2"
    } else if n == 3 {
        "3"
    } else if n == 4 {
        "4"
    } else if n == 5 {
        "5"
    } else if n == 6 {
        "6"
    } else if n == 7 {
        "7"
    } else if n == 8 {
        "8"
    } else if n == 9 {
        "9"
    } else if n == 10 {
        "a"
    } else if n == 11 {
        "b"
    } else if n == 12 {
        "c"
    } else if n == 13 {
        "d"
    } else if n == 14 {
        "e"
    } else {
        "f"
    };
    proof {
        reveal_strlit("0");
        reveal_strlit("1");
        reveal_strlit("2");
        reveal_strlit("3");
        reveal_strlit("4");
        reveal_strlit("5");
        reveal_strlit("6");
        reveal_strlit("7");
        reveal_strlit("8");
        reveal_strlit("9");
        reveal_strlit("a");
        reveal_strlit("b");
        reveal_strlit("c");
        reveal_strlit("d");
        reveal_strlit("e");
        reveal_strlit("f");
        assert(d@ =~= seq![hex_digit(n as int)]);
    }
    s.append(d);
}

/// Render a digest as one line of lowercase hexadecimal text: two digits per
/// byte, high digit first, closed by a line break.
pub fn checksum_line(digest: &Vec<u8>) -> (r: String)
    ensures
        r@ == hex_line(digest@),
        r@.len() == 2 * digest@.len() + 1,
{
    let mut s = String::new();
    proof {
        assert(digest@.take(0) =~= Seq::<u8>::empty());
    }
    let mut i: usize = 0;
    while i < digest.len()
        invariant
            i <= digest.len(),
            s@ == hex_of(digest@.take(i as int)),
        decreases digest.len() - i,
    {
        let b = digest[i];
        proof {
            lemma_hex_of_push(digest@.take(i as int), b);
            assert(digest@.take(i as int + 1) =~= digest@.take(i as int).push(b));
        }
        push_hex_digit(&mut s, b / 16);
        push_hex_digit(&mut s, b % 16);
        proof {
            assert(s@ =~= hex_of(digest@.take(i as int + 1)));
        }
        i = i + 1;
    }
    proof {
        assert(digest@.take(digest.len() as int) =~= digest@);
        reveal_strlit("\n");
    }
    s.append("\n");
    proof {
        assert(s@ =~= hex_line(digest@));
        lemma_hex_of_len(digest@);
    }
    s
}

} // verus!
