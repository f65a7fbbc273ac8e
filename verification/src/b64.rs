//! URL-safe base64 encoding without padding, the alphabet and grouping that
//! compact token segments use.

use vstd::prelude::*;

verus! {

/// The URL-safe base64 alphabet: the character standing for a six-bit value.
/// Values 0..=25 map to 'A'..='Z', 26..=51 to 'a'..='z', 52..=61 to
/// '0'..='9', 62 to '-' and 63 to '_'.
pub open spec fn b64url_char(v: u8) -> char {
    if v < 26 {
        ((v + 65) as u8) as char
    } else if v < 52 {
        ((v + 71) as u8) as char
    } else if v < 62 {
        ((v - 4) as u8) as char
    } else if v == 62 {
        '-'
    } else {
        '_'
    }
}

/// The unpadded URL-safe base64 encoding of a byte sequence: each full group
/// of three bytes becomes four characters, a trailing group of one or two
/// bytes becomes two or three.
pub open spec fn spec_b64url(s: Seq<u8>) -> Seq<char>
    decreases s.len(),
{
    if s.len() == 0 {
        Seq::empty()
    } else if s.len() == 1 {
        seq![b64url_char(s[0] / 4), b64url_char(((s[0] % 4) * 16) as u8)]
    } else if s.len() == 2 {
        seq![
            b64url_char(s[0] / 4),
            b64url_char(((s[0] % 4) * 16 + s[1] / 16) as u8),
            b64url_char(((s[1] % 16) * 4) as u8),
        ]
    } else {
        seq![
            b64url_char(s[0] / 4),
            b64url_char(((s[0] % 4) * 16 + s[1] / 16) as u8),
            b64url_char(((s[1] % 16) * 4 + s[2] / 64) as u8),
            b64url_char((s[2] % 64) as u8),
        ] + spec_b64url(s.skip(3))
    }
}

/// Encoding distributes over splitting the input after a whole number of
/// three-byte groups.
pub proof fn lemma_b64url_append(s: Seq<u8>, t: Seq<u8>)
    requires
        s.len() % 3 == 0,
    ensures
        spec_b64url(s + t) == spec_b64url(s) + spec_b64url(t),
    decreases s.len(),
{
    if s.len() == 0 {
        assert(s + t =~= t);
        assert(spec_b64url(s) + spec_b64url(t) =~= spec_b64url(t));
    } else {
        assert(s.len() >= 3);
        assert((s + t).skip(3) =~= s.skip(3) + t);
        lemma_b64url_append(s.skip(3), t);
        assert((s + t)[0] == s[0] && (s + t)[1] == s[1] && (s + t)[2] == s[2]);
        assert(spec_b64url(s + t) =~= spec_b64url(s) + spec_b64url(t));
    }
}

fn b64url_char_exec(v: u8) -> (c: char)
    requires
        v < 64,
    ensures
        c == b64url_char(v),
{
    if v < 26 {
        (v + 65) as char
    } else if v < 52 {
        (v + 71) as char
    } else if v < 62 {
        (v - 4) as char
    } else if v == 62 {
        '-'
    } else {
        '_'
    }
}

/// Encode bytes as unpadded URL-safe base64.
pub fn b64url_encode(bytes: &[u8]) -> (r: String)
    ensures
        r@ == spec_b64url(bytes@),
{
    let mut out = String::new();
    let mut i: usize = 0;
    while bytes.len() - i >= 3
        invariant
            i <= bytes.len(),
            i % 3 == 0,
            out@ == spec_b64url(bytes@.take(i as int)),
        decreases bytes.len() - i,
    {
        let b0 = bytes[i];
        let b1 = bytes[i + 1];
        let b2 = bytes[i + 2];
        out.push(b64url_char_exec(b0 / 4));
        out.push(b64url_char_exec((b0 % 4) * 16 + b1 / 16));
        out.push(b64url_char_exec((b1 % 16) * 4 + b2 / 64));
        out.push(b64url_char_exec(b2 % 64));
        proof {
            let pre = bytes@.take(i as int);
            let grp = seq![b0, b1, b2];
            assert(grp.skip(3) =~= Seq::<u8>::empty());
            assert(spec_b64url(Seq::<u8>::empty()) == Seq::<char>::empty());
            assert(bytes@.take(i as int + 3) =~= pre + grp);
            lemma_b64url_append(pre, grp);
            assert(spec_b64url(grp) =~= seq![
                b64url_char(b0 / 4),
                b64url_char(((b0 % 4) * 16 + b1 / 16) as u8),
                b64url_char(((b1 % 16) * 4 + b2 / 64) as u8),
                b64url_char((b2 % 64) as u8),
            ]);
            assert(out@ =~= spec_b64url(bytes@.take(i as int + 3)));
        }
        i += 3;
    }
    if bytes.len() - i == 1 {
        let b0 = bytes[i];
        out.push(b64url_char_exec(b0 / 4));
        out.push(b64url_char_exec((b0 % 4) * 16));
        proof {
            let pre = bytes@.take(i as int);
            let grp = seq![bytes@[i as int]];
            assert(bytes@ =~= pre + grp);
            lemma_b64url_append(pre, grp);
            assert(out@ =~= spec_b64url(bytes@));
        }
    } else if bytes.len() - i == 2 {
        let b0 = bytes[i];
        let b1 = bytes[i + 1];
        out.push(b64url_char_exec(b0 / 4));
        out.push(b64url_char_exec((b0 % 4) * 16 + b1 / 16));
        out.push(b64url_char_exec((b1 % 16) * 4));
        proof {
            let pre = bytes@.take(i as int);
            let grp = seq![bytes@[i as int], bytes@[i as int + 1]];
            assert(bytes@ =~= pre + grp);
            lemma_b64url_append(pre, grp);
            assert(out@ =~= spec_b64url(bytes@));
        }
    } else {
        proof {
            assert(bytes@.take(i as int) =~= bytes@);
        }
    }
    out
}

} // verus!
