use vstd::prelude::*;

verus! {

// The `application/x-www-form-urlencoded` serialization of a byte string,
// as the notification endpoint expects it: ASCII alphanumerics and
// `* - . _` pass unchanged, a space becomes `+`, and every other byte
// becomes `%` followed by two upper-case hex digits.

/// ASCII code of the upper-case hex digit for `n`.
pub open spec fn hex_upper(n: u8) -> u8
    recommends
        n < 16,
{
    if n < 10 {
        (0x30 + n) as u8
    } else {
        (0x37 + n) as u8
    }
}

/// The bytes the encoding carries unchanged.
pub open spec fn form_safe(b: u8) -> bool {
    b == 0x2Au8 || b == 0x2Du8 || b == 0x2Eu8 || (0x30u8 <= b && b <= 0x39u8) || (0x41u8 <= b && b <= 0x5Au8)
        || b == 0x5Fu8 || (0x61u8 <= b && b <= 0x7Au8)
}

/// How one byte is serialized.
pub open spec fn encode_byte(b: u8) -> Seq<u8> {
    if form_safe(b) {
        seq![b]
    } else if b == 0x20u8 {
        seq![0x2Bu8]
    } else {
        seq![0x25u8, hex_upper(b / 16), hex_upper(b % 16)]
    }
}

/// How a whole byte string is serialized.
pub open spec fn form_encoded(s: Seq<u8>) -> Seq<u8>
    decreases s.len(),
{
    if s.len() == 0 {
        Seq::empty()
    } else {
        encode_byte(s[0]) + form_encoded(s.drop_first())
    }
}

proof fn lemma_form_encoded_snoc(s: Seq<u8>)
    requires
        s.len() > 0,
    ensures
        form_encoded(s) == form_encoded(s.drop_last()) + encode_byte(s[s.len() - 1]),
    decreases s.len(),
{
    if s.len() == 1 {
        assert(s.drop_first() =~= Seq::<u8>::empty());
        assert(s.drop_last() =~= Seq::<u8>::empty());
        assert(form_encoded(s) =~= form_encoded(s.drop_last()) + encode_byte(s[0]));
    } else {
        let t = s.drop_first();
        lemma_form_encoded_snoc(t);
        assert(t.drop_last() =~= s.drop_last().drop_first());
        assert(t[t.len() - 1] == s[s.len() - 1]);
        assert(form_encoded(s) == encode_byte(s[0]) + (form_encoded(t.drop_last()) + encode_byte(
            s[s.len() - 1],
        )));
        assert(encode_byte(s[0]) + (form_encoded(t.drop_last()) + encode_byte(s[s.len() - 1]))
            =~= (encode_byte(s[0]) + form_encoded(s.drop_last().drop_first())) + encode_byte(
            s[s.len() - 1],
        ));
        assert(s.drop_last().len() > 0);
        assert(encode_byte(s.drop_last()[0]) == encode_byte(s[0]));
    }
}

fn hex_digit(n: u8) -> (r: u8)
    requires
        n < 16,
    ensures
        r == hex_upper(n),
{
    if n < 10 {
        0x30 + n
    } else {
        0x37 + n
    }
}

/// Append the form-encoded serialization of `bytes` to `out`.
pub fn push_form_encoded(out: &mut Vec<u8>, bytes: &Vec<u8>)
    ensures
        final(out)@ == old(out)@ + form_encoded(bytes@),
{
    let n: usize = bytes.len();
    let mut i: usize = 0;
    while i < n
        invariant
            n == bytes@.len(),
            0 <= i <= n,
            out@ == old(out)@ + form_encoded(bytes@.subrange(0, i as int)),
        decreases n - i,
    {
        let b = bytes[i];
        if b == 0x2Au8 || b == 0x2Du8 || b == 0x2Eu8 || (0x30u8 <= b && b <= 0x39u8) || (0x41u8 <= b && b
            <= 0x5Au8) || b == 0x5Fu8 || (0x61u8 <= b && b <= 0x7Au8) {
            out.push(b);
        } else if b == 0x20u8 {
            out.push(0x2Bu8);
        } else {
            out.push(0x25u8);
            out.push(hex_digit(b / 16));
            out.push(hex_digit(b % 16));
        }
        proof {
            let pre = bytes@.subrange(0, i as int);
            let cur = bytes@.subrange(0, i + 1);
            lemma_form_encoded_snoc(cur);
            assert(cur.drop_last() =~= pre);
            assert(cur[cur.len() - 1] == bytes@[i as int]);
            assert(out@ =~= old(out)@ + form_encoded(cur));
        }
        i = i + 1;
    }
    proof {
        assert(bytes@.subrange(0, n as int) =~= bytes@);
    }
}

/// Append the UTF-8 bytes of `s` to `out`, unencoded; for the fixed ASCII
/// key parts of a form body.
pub fn push_str_bytes(out: &mut Vec<u8>, s: &str)
    ensures
        final(out)@ == old(out)@ + vstd::utf8::encode_utf8(s@),
{
    let mut v = s.as_bytes_vec();
    out.append(&mut v);
}

} // verus!
