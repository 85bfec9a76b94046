//! Small verified text-building blocks: decimal rendering, repeated
//! characters, and whitespace stripping, each proved against a direct
//! mathematical description of the produced character sequence.

use vstd::prelude::*;

verus! {

broadcast use vstd::string::group_string_axioms;

/// The decimal digit character for a value below ten.
pub open spec fn spec_digit(d: nat) -> char {
    if d == 0 {
        '0'
    } else if d == 1 {
        '1'
    } else if d == 2 {
        '2'
    } else if d == 3 {
        '3'
    } else if d == 4 {
        '4'
    } else if d == 5 {
        '5'
    } else if d == 6 {
        '6'
    } else if d == 7 {
        '7'
    } else if d == 8 {
        '8'
    } else {
        '9'
    }
}

/// The usual decimal rendering of `n`, most significant digit first, with no
/// leading zeros (a single `0` for zero).
pub open spec fn spec_decimal(n: nat) -> Seq<char>
    decreases n,
{
    if n < 10 {
        seq![spec_digit(n)]
    } else {
        spec_decimal(n / 10) + seq![spec_digit(n % 10)]
    }
}

/// A run of `n` copies of `c`.
pub open spec fn spec_repeat(c: char, n: nat) -> Seq<char> {
    Seq::new(n, |i: int| c)
}

fn append_digit(s: &mut String, d: u64)
    requires
        d < 10,
    ensures
        final(s)@ == old(s)@ + seq![spec_digit(d as nat)],
{
    proof {
        reveal_strlit("0");
        reveal_strlit("1");
        reveal_strlit("2");
        reveal_strlit("3");
        reveal_strlit("4");
        reveal_strlit("5");
        reveal_strlit("6");
        reveal_strlit("7");
        reveal_strlit("8");
        reveal_strlit("9");
    }
    if d == 0 {
        s.append("0");
    } else if d == 1 {
        s.append("1");
    } else if d == 2 {
        s.append("2");
    } else if d == 3 {
        s.append("3");
    } else if d == 4 {
        s.append("4");
    } else if d == 5 {
        s.append("5");
    } else if d == 6 {
        s.append("6");
    } else if d == 7 {
        s.append("7");
    } else if d == 8 {
        s.append("8");
    } else {
        s.append("9");
    }
    proof {
        assert(s@ =~= old(s)@ + seq![spec_digit(d as nat)]);
    }
}

/// Appends the decimal rendering of `n` to `s`.
pub fn append_decimal(s: &mut String, n: u64)
    ensures
        final(s)@ == old(s)@ + spec_decimal(n as nat),
    decreases n,
{
    if n >= 10 {
        append_decimal(s, n / 10);
    }
    append_digit(s, n % 10);
    proof {
        assert(s@ =~= old(s)@ + spec_decimal(n as nat));
    }
}

/// Appends `n` spaces to `s`.
pub fn append_spaces(s: &mut String, n: usize)
    ensures
        final(s)@ == old(s)@ + spec_repeat(' ', n as nat),
{
    let mut i: usize = 0;
    while i < n
        invariant
            i <= n,
            s@ == old(s)@ + spec_repeat(' ', i as nat),
        decreases n - i,
    {
        s.append(" ");
        i = i + 1;
        proof {
            reveal_strlit(" ");
            assert(" "@ =~= seq![' ']);
            assert(s@ =~= old(s)@ + spec_repeat(' ', i as nat));
        }
    }
}

/// Appends `n` dashes to `s`.
pub fn append_dashes(s: &mut String, n: usize)
    ensures
        final(s)@ == old(s)@ + spec_repeat('-', n as nat),
{
    let mut i: usize = 0;
    while i < n
        invariant
            i <= n,
            s@ == old(s)@ + spec_repeat('-', i as nat),
        decreases n - i,
    {
        s.append("-");
        i = i + 1;
        proof {
            reveal_strlit("-");
            assert("-"@ =~= seq!['-']);
            assert(s@ =~= old(s)@ + spec_repeat('-', i as nat));
        }
    }
}

/// Is `c` one of the characters the identity line drops?
pub open spec fn is_stripped_char(c: char) -> bool {
    c == ' ' || c == '\n'
}

/// `s` with every space and newline removed.
pub open spec fn spec_strip(s: Seq<char>) -> Seq<char>
    decreases s.len(),
{
    if s.len() == 0 {
        s
    } else if is_stripped_char(s[0]) {
        spec_strip(s.drop_first())
    } else {
        seq![s[0]] + spec_strip(s.drop_first())
    }
}

proof fn lemma_strip_push(s: Seq<char>, c: char)
    ensures
        spec_strip(s.push(c)) == spec_strip(s) + (if is_stripped_char(c) {
            Seq::<char>::empty()
        } else {
            seq![c]
        }),
    decreases s.len(),
{
    if s.len() == 0 {
        assert(s.push(c)[0] == c);
        assert(s.push(c).drop_first() =~= Seq::<char>::empty());
        assert(s =~= Seq::<char>::empty());
        assert(spec_strip(Seq::<char>::empty()) =~= Seq::<char>::empty());
        assert(spec_strip(s.push(c)) =~= spec_strip(s) + (if is_stripped_char(c) {
            Seq::<char>::empty()
        } else {
            seq![c]
        }));
    } else {
        assert(s.push(c).drop_first() =~= s.drop_first().push(c));
        lemma_strip_push(s.drop_first(), c);
        assert(s.push(c)[0] == s[0]);
        assert(spec_strip(s.push(c)) =~= spec_strip(s) + (if is_stripped_char(c) {
            Seq::<char>::empty()
        } else {
            seq![c]
        }));
    }
}

/// Returns `s` with every space and newline removed.
pub fn strip_whitespace(s: &str) -> (r: String)
    ensures
        r@ == spec_strip(s@),
{
    let len = s.unicode_len();
    let mut r = String::new();
    let mut i: usize = 0;
    while i < len
        invariant
            i <= len,
            len == s@.len(),
            r@ == spec_strip(s@.subrange(0, i as int)),
        decreases len - i,
    {
        let c = s.get_char(i);
        if !(c == ' ' || c == '\n') {
            let piece = s.substring_char(i, i + 1);
            r.append(piece);
        }
        proof {
            lemma_strip_push(s@.subrange(0, i as int), s@[i as int]);
            assert(s@.subrange(0, i + 1).drop_last() =~= s@.subrange(0, i as int));
            assert(s@.subrange(0, i + 1) =~= s@.subrange(0, i as int).push(s@[i as int]));
            if !is_stripped_char(s@[i as int]) {
                assert(s@.subrange(i as int, i + 1) =~= seq![s@[i as int]]);
            }
            assert(r@ =~= spec_strip(s@.subrange(0, i + 1)));
        }
        i = i + 1;
    }
    proof {
        assert(s@.subrange(0, len as int) =~= s@);
    }
    r
}

} // verus!
