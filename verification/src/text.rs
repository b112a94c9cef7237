//! Verified text utilities: decimal and hexadecimal rendering and path
//! joining, used to assemble command lines and artifact paths.

use vstd::prelude::*;

verus! {

/// The decimal digit character for a value below ten.
pub open spec fn dec_digit(d: nat) -> char
    recommends
        d < 10,
{
    if d == 0 {
        '0'
    } else if d == 1 {
        '1'
    } else if d == 2 {
        '2'
    } else if d == 3 {
        '3'
    } else if d == 4 {
        '4'
    } else if d == 5 {
        '5'
    } else if d == 6 {
        '6'
    } else if d == 7 {
        '7'
    } else if d == 8 {
        '8'
    } else {
        '9'
    }
}

/// The usual decimal rendering of a natural number, without leading zeros
/// (except for zero itself).
pub open spec fn dec_rep(n: nat) -> Seq<char>
    decreases n,
{
    if n < 10 {
        seq![dec_digit(n)]
    } else {
        dec_rep(n / 10) + seq![dec_digit(n % 10)]
    }
}

fn dec_digit_str(d: u64) -> (r: &'static str)
    requires
        d < 10,
    ensures
        r@ == seq![dec_digit(d as nat)],
{
    if d == 0 {
        proof {
            reveal_strlit("0");
            assert("0"@ =~= seq![dec_digit(0)]);
        }
        "0"
    } else if d == 1 {
        proof {
            reveal_strlit("1");
            assert("1"@ =~= seq![dec_digit(1)]);
        }
        "1"
    } else if d == 2 {
        proof {
            reveal_strlit("2");
            assert("2"@ =~= seq![dec_digit(2)]);
        }
        "2"
    } else if d == 3 {
        proof {
            reveal_strlit("3");
            assert("3"@ =~= seq![dec_digit(3)]);
        }
        "3"
    } else if d == 4 {
        proof {
            reveal_strlit("4");
            assert("4"@ =~= seq![dec_digit(4)]);
        }
        "4"
    } else if d == 5 {
        proof {
            reveal_strlit("5");
            assert("5"@ =~= seq![dec_digit(5)]);
        }
        "5"
    } else if d == 6 {
        proof {
            reveal_strlit("6");
            assert("6"@ =~= seq![dec_digit(6)]);
        }
        "6"
    } else if d == 7 {
        proof {
            reveal_strlit("7");
            assert("7"@ =~= seq![dec_digit(7)]);
        }
        "7"
    } else if d == 8 {
        proof {
            reveal_strlit("8");
            assert("8"@ =~= seq![dec_digit(8)]);
        }
        "8"
    } else {
        proof {
            reveal_strlit("9");
            assert("9"@ =~= seq![dec_digit(9)]);
        }
        "9"
    }
}

/// Renders an unsigned integer in decimal.
pub fn u64_to_dec(n: u64) -> (r: String)
    ensures
        r@ == dec_rep(n as nat),
    decreases n,
{
    if n < 10 {
        String::from_str(dec_digit_str(n))
    } else {
        proof {
            assert(n / 10 < n) by (nonlinear_arith)
                requires
                    n >= 10,
            ;
        }
        let prefix = u64_to_dec(n / 10);
        let r = prefix.concat(dec_digit_str(n % 10));
        proof {
            assert(r@ =~= dec_rep(n as nat));
        }
        r
    }
}

/// The hexadecimal digit character for a value below sixteen.
pub open spec fn hex_digit(d: nat) -> char
    recommends
        d < 16,
{
    if d < 10 {
        dec_digit(d)
    } else if d == 10 {
        'a'
    } else if d == 11 {
        'b'
    } else if d == 12 {
        'c'
    } else if d == 13 {
        'd'
    } else if d == 14 {
        'e'
    } else {
        'f'
    }
}

/// Two lowercase hexadecimal digits for one byte, high nibble first.
pub open spec fn hex_byte(b: u8) -> Seq<char> {
    seq![hex_digit((b / 16) as nat), hex_digit((b % 16) as nat)]
}

/// The lowercase hexadecimal rendering of a byte string, two digits per byte.
pub open spec fn hex_rep(bytes: Seq<u8>) -> Seq<char>
    decreases bytes.len(),
{
    if bytes.len() == 0 {
        Seq::empty()
    } else {
        hex_rep(bytes.drop_last()) + hex_byte(bytes.last())
    }
}

/// The display form of a hash digest: `0x` followed by the hex digits.
pub open spec fn hex_display(bytes: Seq<u8>) -> Seq<char> {
    seq!['0', 'x'] + hex_rep(bytes)
}

fn hex_digit_str(d: u8) -> (r: &'static str)
    requires
        d < 16,
    ensures
        r@ == seq![hex_digit(d as nat)],
{
    if d < 10 {
        dec_digit_str(d as u64)
    } else if d == 10 {
        proof {
            reveal_strlit("a");
            assert("a"@ =~= seq![hex_digit(10)]);
        }
        "a"
    } else if d == 11 {
        proof {
            reveal_strlit("b");
            assert("b"@ =~= seq![hex_digit(11)]);
        }
        "b"
    } else if d == 12 {
        proof {
            reveal_strlit("c");
            assert("c"@ =~= seq![hex_digit(12)]);
        }
        "c"
    } else if d == 13 {
        proof {
            reveal_strlit("d");
            assert("d"@ =~= seq![hex_digit(13)]);
        }
        "d"
    } else if d == 14 {
        proof {
            reveal_strlit("e");
            assert("e"@ =~= seq![hex_digit(14)]);
        }
        "e"
    } else {
        proof {
            reveal_strlit("f");
            assert("f"@ =~= seq![hex_digit(15)]);
        }
        "f"
    }
}

/// Renders a byte string as `0x`-prefixed lowercase hexadecimal.
pub fn bytes_to_hex(bytes: &Vec<u8>) -> (r: String)
    ensures
        r@ == hex_display(bytes@),
{
    let mut s = String::from_str("0x");
    proof {
        reveal_strlit("0x");
        assert(s@ =~= seq!['0', 'x']);
        assert(bytes@.take(0) =~= Seq::<u8>::empty());
    }
    let mut i: usize = 0;
    while i < bytes.len()
        invariant
            i <= bytes@.len(),
            s@ == seq!['0', 'x'] + hex_rep(bytes@.take(i as int)),
        decreases bytes@.len() - i,
    {
        let b = bytes[i];
        s.append(hex_digit_str(b / 16));
        s.append(hex_digit_str(b % 16));
        proof {
            let t = bytes@.take(i + 1 as int);
            assert(t.drop_last() =~= bytes@.take(i as int));
            assert(t.last() == bytes@[i as int]);
            assert(hex_rep(t) == hex_rep(bytes@.take(i as int)) + hex_byte(bytes@[i as int]));
            assert(s@ =~= seq!['0', 'x'] + hex_rep(t));
        }
        i = i + 1;
    }
    proof {
        assert(bytes@.take(bytes@.len() as int) =~= bytes@);
    }
    s
}

/// A path join, in spec form: the left part, a separator, the right part.
pub open spec fn path_join(a: Seq<char>, b: Seq<char>) -> Seq<char> {
    a + seq!['/'] + b
}

/// Joins a directory path and a relative component with a separator.
pub fn join_path(a: &str, b: &str) -> (r: String)
    ensures
        r@ == path_join(a@, b@),
{
    let mut s = String::from_str(a);
    s.append("/");
    s.append(b);
    proof {
        reveal_strlit("/");
        assert("/"@ =~= seq!['/']);
        assert(s@ =~= path_join(a@, b@));
    }
    s
}

/// The separator between chained build steps in a registry document.
pub open spec fn step_sep() -> Seq<char> {
    seq![' ', '&', '&', ' ']
}

/// Splitting on the step separator, carrying the piece read so far.
pub open spec fn split_steps_acc(s: Seq<char>, cur: Seq<char>) -> Seq<Seq<char>>
    decreases s.len(),
{
    if s.len() >= 4 && s.take(4) == step_sep() {
        seq![cur] + split_steps_acc(s.skip(4), Seq::empty())
    } else if s.len() == 0 {
        seq![cur]
    } else {
        split_steps_acc(s.skip(1), cur.push(s[0]))
    }
}

/// The pieces of a chained command string, split on the step separator.
pub open spec fn split_steps_spec(s: Seq<char>) -> Seq<Seq<char>> {
    split_steps_acc(s, Seq::empty())
}

/// Splits a chained command string into its individual build steps.
pub fn split_steps(s: &str) -> (r: Vec<String>)
    ensures
        r.deep_view() == split_steps_spec(s@),
{
    let n = s.unicode_len();
    let mut out: Vec<String> = Vec::new();
    let mut start: usize = 0;
    let mut i: usize = 0;
    proof {
        assert(s@.skip(0) =~= s@);
        assert(s@.subrange(0, 0) =~= Seq::<char>::empty());
    }
    while i < n
        invariant
            start <= i <= n,
            n == s@.len(),
            split_steps_spec(s@) == out.deep_view() + split_steps_acc(
                s@.skip(i as int),
                s@.subrange(start as int, i as int),
            ),
        decreases n - i,
    {
        let sep_here = n - i >= 4 && s.get_char(i) == ' ' && s.get_char(i + 1) == '&' && s.get_char(
            i + 2,
        ) == '&' && s.get_char(i + 3) == ' ';
        let ghost rem = s@.skip(i as int);
        let ghost cur = s@.subrange(start as int, i as int);
        if sep_here {
            let piece = s.substring_char(start, i);
            let token = String::from_str(piece);
            let ghost prev_dv = out.deep_view();
            out.push(token);
            proof {
                assert(rem.take(4) =~= step_sep());
                assert(rem.skip(4) =~= s@.skip(i as int + 4));
                assert(s@.subrange(i as int + 4, i as int + 4) =~= Seq::<char>::empty());
                let tail = split_steps_acc(s@.skip(i as int + 4), Seq::empty());
                assert(split_steps_acc(rem, cur) == seq![cur] + tail);
                assert(out.deep_view() =~= prev_dv.push(cur));
                assert(prev_dv.push(cur) + tail =~= prev_dv + (seq![cur] + tail));
            }
            i = i + 4;
            start = i;
        } else {
            proof {
                if rem.len() >= 4 && rem.take(4) == step_sep() {
                    assert(rem.take(4)[0] == s@[i as int]);
                    assert(rem.take(4)[1] == s@[i as int + 1]);
                    assert(rem.take(4)[2] == s@[i as int + 2]);
                    assert(rem.take(4)[3] == s@[i as int + 3]);
                    assert(false);
                }
                assert(rem[0] == s@[i as int]);
                assert(rem.skip(1) =~= s@.skip(i as int + 1));
                assert(cur.push(s@[i as int]) =~= s@.subrange(start as int, i as int + 1));
            }
            i = i + 1;
        }
    }
    let piece = s.substring_char(start, n);
    let token = String::from_str(piece);
    let ghost prev_dv = out.deep_view();
    let ghost cur = s@.subrange(start as int, n as int);
    out.push(token);
    proof {
        assert(s@.skip(n as int) =~= Seq::<char>::empty());
        assert(split_steps_acc(s@.skip(n as int), cur) == seq![cur]);
        assert(out.deep_view() =~= prev_dv.push(cur));
        assert(prev_dv.push(cur) =~= prev_dv + seq![cur]);
    }
    out
}

/// Whether a character separates tokens of a command string.
pub open spec fn is_space_char(c: char) -> bool {
    c == ' ' || c == '\t' || c == '\n' || c == '\r'
}

/// Whitespace tokenization, carrying the token read so far.
pub open spec fn tokenize_acc(s: Seq<char>, cur: Seq<char>) -> Seq<Seq<char>>
    decreases s.len(),
{
    if s.len() == 0 {
        if cur.len() > 0 {
            seq![cur]
        } else {
            Seq::empty()
        }
    } else if is_space_char(s[0]) {
        if cur.len() > 0 {
            seq![cur] + tokenize_acc(s.skip(1), Seq::empty())
        } else {
            tokenize_acc(s.skip(1), Seq::empty())
        }
    } else {
        tokenize_acc(s.skip(1), cur.push(s[0]))
    }
}

/// The whitespace-separated tokens of a command string, in order. Runs of
/// whitespace count as one separator and produce no empty token.
pub open spec fn tokenize_spec(s: Seq<char>) -> Seq<Seq<char>> {
    tokenize_acc(s, Seq::empty())
}

/// Splits a command string into its whitespace-separated tokens.
pub fn tokenize(s: &str) -> (r: Vec<String>)
    ensures
        r.deep_view() == tokenize_spec(s@),
{
    let n = s.unicode_len();
    let mut out: Vec<String> = Vec::new();
    let mut start: usize = 0;
    let mut i: usize = 0;
    proof {
        assert(s@.skip(0) =~= s@);
        assert(s@.subrange(0, 0) =~= Seq::<char>::empty());
    }
    while i < n
        invariant
            start <= i <= n,
            n == s@.len(),
            tokenize_spec(s@) == out.deep_view() + tokenize_acc(
                s@.skip(i as int),
                s@.subrange(start as int, i as int),
            ),
        decreases n - i,
    {
        let c = s.get_char(i);
        let ghost rem = s@.skip(i as int);
        let ghost cur = s@.subrange(start as int, i as int);
        proof {
            assert(rem[0] == s@[i as int]);
            assert(rem.skip(1) =~= s@.skip(i as int + 1));
        }
        if c == ' ' || c == '\t' || c == '\n' || c == '\r' {
            proof {
                assert(s@.subrange(i as int + 1, i as int + 1) =~= Seq::<char>::empty());
            }
            if start < i {
                let piece = s.substring_char(start, i);
                let token = String::from_str(piece);
                let ghost prev_dv = out.deep_view();
                out.push(token);
                proof {
                    let tail = tokenize_acc(s@.skip(i as int + 1), Seq::empty());
                    assert(tokenize_acc(rem, cur) == seq![cur] + tail);
                    assert(out.deep_view() =~= prev_dv.push(cur));
                    assert(prev_dv.push(cur) + tail =~= prev_dv + (seq![cur] + tail));
                }
            } else {
                proof {
                    assert(cur.len() == 0);
                }
            }
            i = i + 1;
            start = i;
        } else {
            proof {
                assert(cur.push(s@[i as int]) =~= s@.subrange(start as int, i as int + 1));
            }
            i = i + 1;
        }
    }
    proof {
        assert(s@.skip(n as int) =~= Seq::<char>::empty());
    }
    if start < n {
        let piece = s.substring_char(start, n);
        let token = String::from_str(piece);
        let ghost prev_dv = out.deep_view();
        let ghost cur = s@.subrange(start as int, n as int);
        out.push(token);
        proof {
            assert(out.deep_view() =~= prev_dv.push(cur));
            assert(prev_dv.push(cur) =~= prev_dv + seq![cur]);
        }
    } else {
        proof {
            assert(s@.subrange(start as int, n as int).len() == 0);
            assert(out.deep_view() + Seq::<Seq<char>>::empty() =~= out.deep_view());
        }
    }
    out
}

} // verus!
