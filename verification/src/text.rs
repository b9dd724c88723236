use vstd::prelude::*;

verus! {

/// Number of bytes that the UTF-8 encoding of `c` takes.
pub open spec fn char_width(c: char) -> nat {
    let v = c as u32;
    if v < 0x80 {
        1
    } else if v < 0x800 {
        2
    } else if v < 0x10000 {
        3
    } else {
        4
    }
}

/// Number of bytes that the UTF-8 encoding of `s` takes.
pub open spec fn byte_len(s: Seq<char>) -> nat
    decreases s.len(),
{
    if s.len() == 0 {
        0
    } else {
        byte_len(s.drop_last()) + char_width(s.last())
    }
}

pub fn width_of(c: char) -> (r: usize)
    ensures
        r == char_width(c),
        1 <= r <= 4,
{
    let v: u32 = c as u32;
    if v < 0x80 {
        1
    } else if v < 0x800 {
        2
    } else if v < 0x10000 {
        3
    } else {
        4
    }
}

pub proof fn lemma_byte_len_concat(a: Seq<char>, b: Seq<char>)
    ensures
        byte_len(a + b) == byte_len(a) + byte_len(b),
    decreases b.len(),
{
    if b.len() == 0 {
        assert(a + b =~= a);
    } else {
        lemma_byte_len_concat(a, b.drop_last());
        assert((a + b).drop_last() =~= a + b.drop_last());
    }
}

pub proof fn lemma_byte_len_ge_len(s: Seq<char>)
    ensures
        byte_len(s) >= s.len(),
    decreases s.len(),
{
    if s.len() > 0 {
        lemma_byte_len_ge_len(s.drop_last());
    }
}

pub proof fn lemma_byte_len_take_mono(s: Seq<char>, i: int, j: int)
    requires
        0 <= i <= j <= s.len(),
    ensures
        byte_len(s.take(i)) <= byte_len(s.take(j)),
        byte_len(s.take(j)) == byte_len(s.take(i)) + byte_len(s.subrange(i, j)),
{
    lemma_byte_len_concat(s.take(i), s.subrange(i, j));
    assert(s.take(i) + s.subrange(i, j) =~= s.take(j));
}

/// The characters of `s`, in order.
pub fn chars_of(s: &str) -> (r: Vec<char>)
    ensures
        r@ == s@,
{
    let mut out: Vec<char> = Vec::new();
    broadcast use vstd::string::group_string_axioms;
    for c in it: s.chars()
        invariant
            it.seq() == s@,
            out@ == s@.take(it.index() as int),
    {
        out.push(c);
    }
    assert(out@ =~= s@);
    out
}

/// `String::push`: appends `c` at the end of `s`.
#[verifier::external_body]
fn push_char(s: &mut String, c: char)
    ensures
        final(s)@ == old(s)@.push(c),
{
    s.push(c);
}

/// The characters `chars[from..to]` as a string, with their byte length.
pub fn text_of(chars: &Vec<char>, from: usize, to: usize) -> (r: (String, usize))
    requires
        from <= to <= chars@.len(),
        byte_len(chars@.subrange(from as int, to as int)) <= usize::MAX,
    ensures
        r.0@ == chars@.subrange(from as int, to as int),
        r.1 == byte_len(chars@.subrange(from as int, to as int)),
{
    let mut s = String::new();
    let mut w: usize = 0;
    let mut k: usize = from;
    while k < to
        invariant
            from <= k <= to <= chars@.len(),
            s@ == chars@.subrange(from as int, k as int),
            w == byte_len(s@),
            byte_len(chars@.subrange(from as int, to as int)) <= usize::MAX,
        decreases to - k,
    {
        proof {
            lemma_byte_len_concat(chars@.subrange(from as int, k + 1), chars@.subrange(k + 1, to as int));
            assert(chars@.subrange(from as int, k + 1) + chars@.subrange(k + 1, to as int)
                =~= chars@.subrange(from as int, to as int));
            assert(chars@.subrange(from as int, k + 1).drop_last() =~= chars@.subrange(from as int, k as int));
        }
        let c = chars[k];
        let ghost before = s@;
        push_char(&mut s, c);
        assert(s@.drop_last() =~= before);
        w = w + width_of(c);
        k = k + 1;
    }
    (s, w)
}

/// The character of the decimal digit `d`.
pub open spec fn digit(d: nat) -> char {
    if d == 0 { '0' } else if d == 1 { '1' } else if d == 2 { '2' } else if d == 3 { '3' } else if d == 4 { '4' }
    else if d == 5 { '5' } else if d == 6 { '6' } else if d == 7 { '7' } else if d == 8 { '8' } else { '9' }
}

/// The decimal notation of `n`, without leading zeros.
pub open spec fn decimal(n: nat) -> Seq<char>
    decreases n,
{
    if n < 10 {
        seq![digit(n)]
    } else {
        decimal(n / 10).push(digit(n % 10))
    }
}

fn digit_char(d: u32) -> (c: char)
    requires
        d < 10,
    ensures
        c == digit(d as nat),
{
    match d {
        0 => '0',
        1 => '1',
        2 => '2',
        3 => '3',
        4 => '4',
        5 => '5',
        6 => '6',
        7 => '7',
        8 => '8',
        _ => '9',
    }
}

/// The decimal notation of `n` (see `decimal`).
pub fn decimal_text(n: u32) -> (r: String)
    ensures
        r@ == decimal(n as nat),
    decreases n,
{
    if n < 10 {
        let mut s = String::new();
        push_char(&mut s, digit_char(n));
        s
    } else {
        let mut s = decimal_text(n / 10);
        push_char(&mut s, digit_char(n % 10));
        s
    }
}

/// The number of bytes that the UTF-8 encoding of `chars` takes, or nothing
/// when it does not fit in a `usize`.
pub fn byte_len_of(chars: &Vec<char>) -> (r: Option<usize>)
    ensures
        match r {
            Some(n) => n == byte_len(chars@),
            None => byte_len(chars@) > usize::MAX,
        },
{
    let mut w: usize = 0;
    let mut k: usize = 0;
    proof {
        assert(chars@.take(0) =~= Seq::<char>::empty());
    }
    while k < chars.len()
        invariant
            0 <= k <= chars@.len(),
            w == byte_len(chars@.take(k as int)),
        decreases chars@.len() - k,
    {
        proof {
            assert(chars@.take(k + 1).drop_last() =~= chars@.take(k as int));
        }
        let c = width_of(chars[k]);
        if w > usize::MAX - c {
            proof {
                assert(chars@ =~= chars@.take(k + 1) + chars@.skip(k + 1));
                lemma_byte_len_concat(chars@.take(k + 1), chars@.skip(k + 1));
            }
            return None;
        }
        w = w + c;
        k = k + 1;
    }
    proof {
        assert(chars@.take(k as int) =~= chars@);
    }
    Some(w)
}

} // verus!
