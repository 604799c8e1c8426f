use vstd::prelude::*;

verus! {

/// True when the byte is in the unreserved set of URL path characters:
/// an ASCII letter, an ASCII digit, `-`, `.`, `_` or `~`. Every other
/// byte of a path component is percent-encoded.
pub open spec fn is_unreserved(b: u8) -> bool {
    ('A' as u8) <= b <= ('Z' as u8) || ('a' as u8) <= b <= ('z' as u8) || ('0' as u8) <= b <= (
    '9' as u8) || b == ('-' as u8) || b == ('.' as u8) || b == ('_' as u8) || b == ('~' as u8)
}

/// The uppercase hexadecimal digit for a value below sixteen.
pub open spec fn hex_digit(n: u8) -> u8
    recommends
        n < 16,
{
    if n < 10 {
        (('0' as u8) + n) as u8
    } else {
        (('A' as u8) + (n - 10)) as u8
    }
}

/// How one byte of a path component appears in a URL: unreserved bytes
/// stand as themselves, every other byte as `%` and two hex digits.
pub open spec fn encoded_byte(b: u8) -> Seq<u8> {
    if is_unreserved(b) {
        seq![b]
    } else {
        seq![('%' as u8), hex_digit(b / 16), hex_digit(b % 16)]
    }
}

/// The percent-encoded form of a whole path component.
pub open spec fn percent_encode(s: Seq<u8>) -> Seq<u8>
    decreases s.len(),
{
    if s.len() == 0 {
        Seq::empty()
    } else {
        encoded_byte(s[0]) + percent_encode(s.skip(1))
    }
}

/// Unfolding step of `percent_encode` at an inner position.
pub proof fn lemma_percent_encode_step(s: Seq<u8>, i: int)
    requires
        0 <= i < s.len(),
    ensures
        percent_encode(s.skip(i)) == encoded_byte(s[i]) + percent_encode(s.skip(i + 1)),
{
    assert(s.skip(i).len() > 0);
    assert(s.skip(i)[0] == s[i]);
    assert(s.skip(i).skip(1) =~= s.skip(i + 1));
}

/// A component made only of unreserved bytes passes through percent
/// encoding unchanged.
pub proof fn lemma_unreserved_identity(s: Seq<u8>)
    requires
        forall|i: int| 0 <= i < s.len() ==> is_unreserved(#[trigger] s[i]),
    ensures
        percent_encode(s) == s,
    decreases s.len(),
{
    if s.len() == 0 {
        assert(percent_encode(s) =~= s);
    } else {
        lemma_unreserved_identity(s.skip(1));
        assert(encoded_byte(s[0]) == seq![s[0]]);
        assert(seq![s[0]] + s.skip(1) =~= s);
    }
}

/// A percent-encoded component never holds a path separator: whatever
/// bytes a name is made of, it stands in the URL as one path component.
pub proof fn lemma_encoded_component_has_no_slash(s: Seq<u8>)
    ensures
        forall|i: int|
            0 <= i < percent_encode(s).len() ==> percent_encode(s)[i] != ('/' as u8),
    decreases s.len(),
{
    if s.len() > 0 {
        lemma_encoded_component_has_no_slash(s.skip(1));
        let head = encoded_byte(s[0]);
        let tail = percent_encode(s.skip(1));
        assert forall|i: int|
            0 <= i < percent_encode(s).len() implies percent_encode(s)[i] != ('/' as u8) by {
            if i < head.len() {
                assert(percent_encode(s)[i] == head[i]);
                assert(!is_unreserved('/' as u8));
            } else {
                assert(percent_encode(s)[i] == tail[i - head.len()]);
            }
        }
    }
}

pub fn byte_is_unreserved(b: u8) -> (r: bool)
    ensures
        r == is_unreserved(b),
{
    (('A' as u8) <= b && b <= ('Z' as u8)) || (('a' as u8) <= b && b <= ('z' as u8)) || (('0' as u8)
        <= b && b <= ('9' as u8)) || b == ('-' as u8) || b == ('.' as u8) || b == ('_' as u8) || b
        == ('~' as u8)
}

pub fn hex_digit_byte(n: u8) -> (r: u8)
    requires
        n < 16,
    ensures
        r == hex_digit(n),
{
    if n < 10 {
        ('0' as u8) + n
    } else {
        ('A' as u8) + (n - 10)
    }
}

/// Appends the percent-encoded form of `s` to `out`.
pub fn percent_encode_into(out: &mut Vec<u8>, s: &[u8])
    ensures
        final(out)@ == old(out)@ + percent_encode(s@),
{
    let ghost orig: Seq<u8> = out@;
    let mut i: usize = 0;
    proof {
        assert(s@.skip(0) =~= s@);
    }
    while i < s.len()
        invariant
            i <= s@.len(),
            out@ + percent_encode(s@.skip(i as int)) == orig + percent_encode(s@),
        decreases s@.len() - i,
    {
        proof {
            lemma_percent_encode_step(s@, i as int);
        }
        let ghost before: Seq<u8> = out@;
        let b = s[i];
        if byte_is_unreserved(b) {
            out.push(b);
        } else {
            out.push('%' as u8);
            out.push(hex_digit_byte(b / 16));
            out.push(hex_digit_byte(b % 16));
        }
        assert(out@ =~= before + encoded_byte(b));
        assert(out@ + percent_encode(s@.skip(i as int + 1)) =~= orig + percent_encode(s@));
        i = i + 1;
    }
    assert(s@.skip(s@.len() as int) =~= Seq::<u8>::empty());
    assert(out@ =~= out@ + percent_encode(s@.skip(s@.len() as int)));
}

/// The percent-encoded form of one URL path component.
pub fn percent_encode_component(s: &[u8]) -> (r: Vec<u8>)
    ensures
        r@ == percent_encode(s@),
{
    let mut out: Vec<u8> = Vec::new();
    percent_encode_into(&mut out, s);
    assert(out@ =~= percent_encode(s@));
    out
}

} // verus!
