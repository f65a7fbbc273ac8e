//! The canonical JSON text of a token's header and claims: decimal integers,
//! escaped strings, and the fixed five-field claim object with its keys in
//! sorted order.

use vstd::prelude::*;
use vstd::string::StrSliceExecFns;
use vstd::string::StringExecFns;

verus! {

/// The ASCII digit standing for `d % 10`.
pub open spec fn digit_char(d: nat) -> char {
    ((48 + d % 10) as u8) as char
}

/// The decimal numeral of `n`, most significant digit first, no leading
/// zeros (a single '0' for zero).
pub open spec fn spec_dec(n: nat) -> Seq<char>
    decreases n,
{
    if n < 10 {
        seq![digit_char(n)]
    } else {
        spec_dec(n / 10).push(digit_char(n % 10))
    }
}

fn digit_char_exec(d: u64) -> (c: char)
    requires
        d < 10,
    ensures
        c == digit_char(d as nat),
{
    (48 + d as u8) as char
}

/// Write `n` in decimal.
pub fn u64_to_dec(n: u64) -> (r: String)
    ensures
        r@ == spec_dec(n as nat),
    decreases n,
{
    if n < 10 {
        let mut s = String::new();
        s.push(digit_char_exec(n));
        proof {
            assert(Seq::<char>::empty().push(digit_char(n as nat)) =~= seq![
                digit_char(n as nat),
            ]);
        }
        s
    } else {
        let mut s = u64_to_dec(n / 10);
        s.push(digit_char_exec(n % 10));
        s
    }
}

/// The ASCII hex digit (lower case) standing for `d % 16`.
pub open spec fn hex_digit(d: nat) -> char {
    if d % 16 < 10 {
        ((48 + d % 16) as u8) as char
    } else {
        ((87 + d % 16) as u8) as char
    }
}

fn hex_digit_exec(d: u32) -> (c: char)
    requires
        d < 16,
    ensures
        c == hex_digit(d as nat),
{
    if d < 10 {
        (48 + d as u8) as char
    } else {
        (87 + d as u8) as char
    }
}

/// How one character appears inside a JSON string literal: quote and
/// backslash are escaped, control characters become `\u00XX`, everything
/// else stands for itself.
pub open spec fn escape_char(c: char) -> Seq<char> {
    if c == '"' {
        seq!['\\', '"']
    } else if c == '\\' {
        seq!['\\', '\\']
    } else if (c as u32) < 32 {
        seq![
            '\\',
            'u',
            '0',
            '0',
            hex_digit((c as u32 / 16) as nat),
            hex_digit((c as u32 % 16) as nat),
        ]
    } else {
        seq![c]
    }
}

/// The body of a JSON string literal holding the characters of `s`.
pub open spec fn spec_escaped(s: Seq<char>) -> Seq<char>
    decreases s.len(),
{
    if s.len() == 0 {
        Seq::empty()
    } else {
        escape_char(s[0]) + spec_escaped(s.drop_first())
    }
}

/// Escaping distributes over concatenation.
pub proof fn lemma_escaped_append(s: Seq<char>, t: Seq<char>)
    ensures
        spec_escaped(s + t) == spec_escaped(s) + spec_escaped(t),
    decreases s.len(),
{
    if s.len() == 0 {
        assert(s + t =~= t);
        assert(spec_escaped(s) + spec_escaped(t) =~= spec_escaped(t));
    } else {
        assert((s + t).drop_first() =~= s.drop_first() + t);
        lemma_escaped_append(s.drop_first(), t);
        assert((s + t)[0] == s[0]);
        assert(spec_escaped(s + t) =~= spec_escaped(s) + spec_escaped(t));
    }
}

/// Escape `s` for inclusion in a JSON string literal.
pub fn json_escape(s: &str) -> (r: String)
    ensures
        r@ == spec_escaped(s@),
{
    let n = s.unicode_len();
    let mut out = String::new();
    let mut i: usize = 0;
    while i < n
        invariant
            n == s@.len(),
            i <= n,
            out@ == spec_escaped(s@.take(i as int)),
        decreases n - i,
    {
        let c = s.get_char(i);
        if c == '"' {
            out.append("\\\"");
            proof {
                reveal_strlit("\\\"");
                assert("\\\""@ =~= escape_char(c));
            }
        } else if c == '\\' {
            out.append("\\\\");
            proof {
                reveal_strlit("\\\\");
                assert("\\\\"@ =~= escape_char(c));
            }
        } else if (c as u32) < 32 {
            let v = c as u32;
            out.append("\\u00");
            out.push(hex_digit_exec(v / 16));
            out.push(hex_digit_exec(v % 16));
            proof {
                reveal_strlit("\\u00");
                assert("\\u00"@.push(hex_digit((c as u32 / 16) as nat)).push(
                    hex_digit((c as u32 % 16) as nat),
                ) =~= escape_char(c));
            }
        } else {
            out.push(c);
            proof {
                assert(Seq::<char>::empty().push(c) =~= seq![c]);
                assert(seq![c] =~= escape_char(c));
            }
        }
        proof {
            let pre = s@.take(i as int);
            let one = seq![s@[i as int]];
            assert(s@.take(i as int + 1) =~= pre + one);
            lemma_escaped_append(pre, one);
            assert(one.drop_first() =~= Seq::<char>::empty());
            assert(spec_escaped(Seq::<char>::empty()) == Seq::<char>::empty());
            assert(spec_escaped(one) =~= escape_char(s@[i as int]));
            assert(out@ =~= spec_escaped(s@.take(i as int + 1)));
        }
        i += 1;
    }
    proof {
        assert(s@.take(n as int) =~= s@);
    }
    out
}

/// The JSON text of a token header declaring HMAC-SHA384 and type JWT.
pub open spec fn spec_header_json() -> Seq<char> {
    "{\"alg\":\"HS384\",\"typ\":\"JWT\"}"@
}

/// Build the header JSON.
pub fn header_json() -> (r: String)
    ensures
        r@ == spec_header_json(),
{
    String::from_str("{\"alg\":\"HS384\",\"typ\":\"JWT\"}")
}

/// The JSON text of the claim object: exactly the five claims `exp`, `iat`,
/// `iss`, `sub` and `tid`, keys in sorted order, timestamps in decimal,
/// strings escaped.
pub open spec fn spec_claims_json(
    sub: Seq<char>,
    tid: Seq<char>,
    iss: Seq<char>,
    iat: nat,
    exp: nat,
) -> Seq<char> {
    "{\"exp\":"@ + spec_dec(exp) + ",\"iat\":"@ + spec_dec(iat) + ",\"iss\":\""@ + spec_escaped(
        iss,
    ) + "\",\"sub\":\""@ + spec_escaped(sub) + "\",\"tid\":\""@ + spec_escaped(tid) + "\"}"@
}

/// Build the claim object's JSON text.
pub fn claims_json(sub: &str, tenant_id: &str, issuer: &str, iat: u64, exp: u64) -> (r: String)
    ensures
        r@ == spec_claims_json(sub@, tenant_id@, issuer@, iat as nat, exp as nat),
{
    let mut out = String::from_str("{\"exp\":");
    out.append(u64_to_dec(exp).as_str());
    out.append(",\"iat\":");
    out.append(u64_to_dec(iat).as_str());
    out.append(",\"iss\":\"");
    out.append(json_escape(issuer).as_str());
    out.append("\",\"sub\":\"");
    out.append(json_escape(sub).as_str());
    out.append("\",\"tid\":\"");
    out.append(json_escape(tenant_id).as_str());
    out.append("\"}");
    out
}

} // verus!
