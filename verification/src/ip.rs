//! IP addresses and their standard textual form.

use vstd::prelude::*;
use crate::text::push_char;

verus! {

/// An IPv4 address (four octets) or an IPv6 address (eight 16-bit
/// segments), most significant part first.
#[derive(Debug, Copy, Clone, PartialEq, Eq)]
pub enum IpAddr {
    V4([u8; 4]),
    V6([u16; 8]),
}

/// The character of a digit below 16: `0`-`9`, then `a`-`f`.
pub open spec fn digit_char(d: nat) -> char {
    if d < 10 {
        (48 + d) as char
    } else {
        (87 + d) as char
    }
}

/// Decimal digits of `v`, without leading zeros.
pub open spec fn dec_text(v: nat) -> Seq<char>
    decreases v,
{
    if v < 10 {
        seq![digit_char(v)]
    } else {
        dec_text(v / 10).push(digit_char(v % 10))
    }
}

/// Lower-case hexadecimal digits of `v`, without leading zeros.
pub open spec fn hex_text(v: nat) -> Seq<char>
    decreases v,
{
    if v < 16 {
        seq![digit_char(v)]
    } else {
        hex_text(v / 16).push(digit_char(v % 16))
    }
}

/// Dotted-decimal form of four octets, `a.b.c.d`.
pub open spec fn ipv4_text(o: Seq<u8>) -> Seq<char> {
    dec_text(o[0] as nat) + seq!['.'] + dec_text(o[1] as nat) + seq!['.'] + dec_text(
        o[2] as nat,
    ) + seq!['.'] + dec_text(o[3] as nat)
}

/// Segments in hexadecimal, separated by colons.
pub open spec fn hex_join(segs: Seq<u16>) -> Seq<char>
    decreases segs.len(),
{
    if segs.len() == 0 {
        Seq::empty()
    } else if segs.len() == 1 {
        hex_text(segs[0] as nat)
    } else {
        hex_join(segs.drop_last()) + seq![':'] + hex_text(segs.last() as nat)
    }
}

/// Number of consecutive zero segments starting at index `i`.
pub open spec fn zero_run_at(segs: Seq<u16>, i: int) -> nat
    decreases segs.len() - i,
{
    if 0 <= i < segs.len() && segs[i] == 0 {
        1 + zero_run_at(segs, i + 1)
    } else {
        0
    }
}

/// `start` and `len` describe the first of the longest runs of zero
/// segments (`len` is 0, and `start` 0, when no segment is zero).
pub open spec fn is_longest_zero_run(segs: Seq<u16>, start: int, len: int) -> bool {
    &&& 0 <= start < segs.len()
    &&& zero_run_at(segs, start) == len
    &&& forall|j: int| 0 <= j < segs.len() ==> zero_run_at(segs, j) <= len
    &&& forall|j: int| 0 <= j < start ==> zero_run_at(segs, j) < len
    &&& len == 0 ==> start == 0
}

/// Whether eight segments hold an IPv4-mapped address `::ffff:a.b.c.d`.
pub open spec fn is_ipv4_mapped(segs: Seq<u16>) -> bool {
    &&& segs[0] == 0 && segs[1] == 0 && segs[2] == 0 && segs[3] == 0 && segs[4] == 0
    &&& segs[5] == 0xffff
}

/// The four octets carried in the last two segments.
pub open spec fn mapped_octets(segs: Seq<u16>) -> Seq<u8> {
    seq![
        (segs[6] / 256) as u8,
        (segs[6] % 256) as u8,
        (segs[7] / 256) as u8,
        (segs[7] % 256) as u8,
    ]
}

/// Canonical IPv6 text: an IPv4-mapped address is written `::ffff:a.b.c.d`;
/// otherwise the first longest run of two or more zero segments becomes
/// `::` and every other segment is written in lower-case hexadecimal.
pub open spec fn ipv6_text(segs: Seq<u16>) -> Seq<char> {
    if is_ipv4_mapped(segs) {
        seq![':', ':', 'f', 'f', 'f', 'f', ':'] + ipv4_text(mapped_octets(segs))
    } else {
        let (start, len) = choose|start: int, len: int| is_longest_zero_run(segs, start, len);
        if len > 1 {
            hex_join(segs.take(start)) + seq![':', ':'] + hex_join(segs.skip(start + len))
        } else {
            hex_join(segs)
        }
    }
}

/// The textual form of an address.
pub open spec fn ip_text(addr: IpAddr) -> Seq<char> {
    match addr {
        IpAddr::V4(o) => ipv4_text(o@),
        IpAddr::V6(s) => ipv6_text(s@),
    }
}

/// Whether a character is a decimal digit.
pub open spec fn is_dec_digit(c: char) -> bool {
    '0' <= c <= '9'
}

/// The number written by a string of decimal digits.
pub open spec fn dec_value(s: Seq<char>) -> int
    decreases s.len(),
{
    if s.len() == 0 {
        0
    } else {
        dec_value(s.drop_last()) * 10 + (s.last() as int - 48)
    }
}

/// Whether `f` is the shortest decimal numeral of `v`: digits only, no
/// leading zero, and reading it gives `v`.
pub open spec fn is_shortest_decimal(f: Seq<char>, v: int) -> bool {
    &&& f.len() > 0
    &&& forall|i: int| 0 <= i < f.len() ==> is_dec_digit(#[trigger] f[i])
    &&& f.len() > 1 ==> f[0] != '0'
    &&& dec_value(f) == v
}

/// The decimal text of a number is its shortest decimal numeral.
pub proof fn lemma_dec_text_reads_back(v: nat)
    ensures
        is_shortest_decimal(dec_text(v), v as int),
    decreases v,
{
    if v < 10 {
        assert(dec_text(v) == seq![digit_char(v)]);
        assert(dec_text(v).drop_last() =~= Seq::<char>::empty());
        assert(digit_char(v) as int == 48 + v);
        assert(dec_value(dec_text(v)) == dec_value(dec_text(v).drop_last()) * 10 + (
        dec_text(v).last() as int - 48));
    } else {
        let q = v / 10;
        let r = v % 10;
        lemma_dec_text_reads_back(q);
        let t = dec_text(v);
        assert(t == dec_text(q).push(digit_char(r)));
        assert(t.drop_last() =~= dec_text(q));
        assert(q * 10 + r == v) by (nonlinear_arith)
            requires
                q == v / 10,
                r == v % 10,
        ;
        assert(q > 0);
        assert(digit_char(r) as int == 48 + r);
        assert(dec_value(t) == dec_value(t.drop_last()) * 10 + (t.last() as int - 48));
        if dec_text(q).len() == 1 {
            assert(dec_value(dec_text(q)) == dec_value(dec_text(q).drop_last()) * 10 + (
            dec_text(q).last() as int - 48));
            assert(dec_text(q).drop_last() =~= Seq::<char>::empty());
            assert(dec_text(q)[0] != '0');
        }
        assert(t[0] == dec_text(q)[0]);
        assert forall|i: int| 0 <= i < t.len() implies is_dec_digit(#[trigger] t[i]) by {
            if i < t.len() - 1 {
                assert(t[i] == dec_text(q)[i]);
            }
        }
    }
}

/// Dotted-decimal text splits at its dots into four fields, each the
/// shortest decimal numeral of the octet at its place.
pub proof fn lemma_ipv4_text_fields(o: Seq<u8>)
    requires
        o.len() == 4,
    ensures
        exists|f0: Seq<char>, f1: Seq<char>, f2: Seq<char>, f3: Seq<char>|
            #![trigger is_shortest_decimal(f0, o[0] as int), is_shortest_decimal(f1, o[1] as int), is_shortest_decimal(f2, o[2] as int), is_shortest_decimal(f3, o[3] as int)]
            {
                &&& ipv4_text(o) == f0 + seq!['.'] + f1 + seq!['.'] + f2 + seq!['.'] + f3
                &&& is_shortest_decimal(f0, o[0] as int)
                &&& is_shortest_decimal(f1, o[1] as int)
                &&& is_shortest_decimal(f2, o[2] as int)
                &&& is_shortest_decimal(f3, o[3] as int)
            },
{
    lemma_dec_text_reads_back(o[0] as nat);
    lemma_dec_text_reads_back(o[1] as nat);
    lemma_dec_text_reads_back(o[2] as nat);
    lemma_dec_text_reads_back(o[3] as nat);
    let f0 = dec_text(o[0] as nat);
    let f1 = dec_text(o[1] as nat);
    let f2 = dec_text(o[2] as nat);
    let f3 = dec_text(o[3] as nat);
    assert(is_shortest_decimal(f0, o[0] as int));
    assert(is_shortest_decimal(f1, o[1] as int));
    assert(is_shortest_decimal(f2, o[2] as int));
    assert(is_shortest_decimal(f3, o[3] as int));
}

/// At most one run is the first longest run of zeros.
pub proof fn lemma_longest_zero_run_unique(
    segs: Seq<u16>,
    s1: int,
    l1: int,
    s2: int,
    l2: int,
)
    requires
        is_longest_zero_run(segs, s1, l1),
        is_longest_zero_run(segs, s2, l2),
    ensures
        s1 == s2,
        l1 == l2,
{
    assert(zero_run_at(segs, s1) <= l2);
    assert(zero_run_at(segs, s2) <= l1);
    if s1 < s2 {
        assert(zero_run_at(segs, s1) < l2);
    }
    if s2 < s1 {
        assert(zero_run_at(segs, s2) < l1);
    }
}

fn push_dec(out: &mut String, v: u8)
    ensures
        final(out)@ == old(out)@ + dec_text(v as nat),
    decreases v,
{
    if v >= 10 {
        push_dec(out, v / 10);
    }
    let d: u8 = v % 10;
    push_char(out, (48u8 + d) as char);
    assert(dec_text(v as nat) == if v < 10 {
        seq![digit_char(v as nat)]
    } else {
        dec_text((v / 10) as nat).push(digit_char((v % 10) as nat))
    });
}

fn push_hex(out: &mut String, v: u16)
    ensures
        final(out)@ == old(out)@ + hex_text(v as nat),
    decreases v,
{
    if v >= 16 {
        push_hex(out, v / 16);
    }
    let d: u8 = (v % 16) as u8;
    let c = if d < 10 {
        (48u8 + d) as char
    } else {
        (87u8 + d) as char
    };
    push_char(out, c);
    assert(hex_text(v as nat) == if v < 16 {
        seq![digit_char(v as nat)]
    } else {
        hex_text((v / 16) as nat).push(digit_char((v % 16) as nat))
    });
}


fn push_ipv4(out: &mut String, o: &[u8; 4])
    ensures
        final(out)@ == old(out)@ + ipv4_text(o@),
{
    push_dec(out, o[0]);
    push_char(out, '.');
    push_dec(out, o[1]);
    push_char(out, '.');
    push_dec(out, o[2]);
    push_char(out, '.');
    push_dec(out, o[3]);
    assert(final(out)@ =~= old(out)@ + ipv4_text(o@));
}

/// Length of the run of zero segments starting at `i`.
fn zero_run_len(segs: &[u16; 8], i: usize) -> (res: usize)
    requires
        i < 8,
    ensures
        res == zero_run_at(segs@, i as int),
        res <= 8 - i,
{
    let mut j: usize = i;
    while j < 8 && segs[j] == 0
        invariant
            i <= j <= 8,
            segs@.len() == 8,
            zero_run_at(segs@, i as int) == (j - i) + zero_run_at(segs@, j as int),
        decreases 8 - j,
    {
        j = j + 1;
    }
    j - i
}

/// Start and length of the first longest run of zero segments.
fn longest_zero_run(segs: &[u16; 8]) -> (res: (usize, usize))
    ensures
        is_longest_zero_run(segs@, res.0 as int, res.1 as int),
        res.0 + res.1 <= 8,
{
    let mut best_start: usize = 0;
    let mut best_len: usize = 0;
    let mut i: usize = 0;
    while i < 8
        invariant
            0 <= i <= 8,
            segs@.len() == 8,
            best_start + best_len <= 8,
            forall|j: int| 0 <= j < i ==> zero_run_at(segs@, j) <= best_len,
            best_len == 0 ==> best_start == 0,
            best_len > 0 ==> best_start < i && zero_run_at(segs@, best_start as int)
                == best_len,
            forall|j: int| 0 <= j < best_start ==> zero_run_at(segs@, j) < best_len,
        decreases 8 - i,
    {
        let l = zero_run_len(segs, i);
        if l > best_len {
            best_start = i;
            best_len = l;
        }
        i = i + 1;
    }
    assert forall|j: int| 8 <= j implies zero_run_at(segs@, j) == 0 by {}
    if best_len == 0 {
        assert(zero_run_at(segs@, 0) == 0);
    }
    (best_start, best_len)
}

/// Pushes the colon-separated hexadecimal segments `segs[from..to]`.
fn push_hex_join(out: &mut String, segs: &[u16; 8], from: usize, to: usize)
    requires
        from <= to <= 8,
    ensures
        final(out)@ == old(out)@ + hex_join(segs@.subrange(from as int, to as int)),
{
    let mut k: usize = from;
    assert(segs@.subrange(from as int, from as int) =~= Seq::<u16>::empty());
    while k < to
        invariant
            from <= k <= to <= 8,
            segs@.len() == 8,
            out@ == old(out)@ + hex_join(segs@.subrange(from as int, k as int)),
        decreases to - k,
    {
        let ghost before = out@;
        if k > from {
            push_char(out, ':');
        }
        push_hex(out, segs[k]);
        let ghost sub = segs@.subrange(from as int, k + 1);
        assert(sub.drop_last() =~= segs@.subrange(from as int, k as int));
        if k == from {
            assert(sub =~= seq![segs@[k as int]]);
        }
        k = k + 1;
    }
}

fn push_ipv6(out: &mut String, segs: &[u16; 8])
    ensures
        final(out)@ == old(out)@ + ipv6_text(segs@),
{
    if segs[0] == 0 && segs[1] == 0 && segs[2] == 0 && segs[3] == 0 && segs[4] == 0 && segs[5]
        == 0xffff {
        push_char(out, ':');
        push_char(out, ':');
        push_char(out, 'f');
        push_char(out, 'f');
        push_char(out, 'f');
        push_char(out, 'f');
        push_char(out, ':');
        let o: [u8; 4] = [
            (segs[6] / 256) as u8,
            (segs[6] % 256) as u8,
            (segs[7] / 256) as u8,
            (segs[7] % 256) as u8,
        ];
        assert(o@ =~= mapped_octets(segs@));
        push_ipv4(out, &o);
        assert(final(out)@ =~= old(out)@ + ipv6_text(segs@));
    } else {
        let (start, len) = longest_zero_run(segs);
        proof {
            let (cs, cl) = choose|st: int, ln: int| is_longest_zero_run(segs@, st, ln);
            lemma_longest_zero_run_unique(segs@, cs, cl, start as int, len as int);
        }
        if len > 1 {
            push_hex_join(out, segs, 0, start);
            push_char(out, ':');
            push_char(out, ':');
            push_hex_join(out, segs, start + len, 8);
            assert(segs@.subrange(0, start as int) =~= segs@.take(start as int));
            assert(segs@.subrange(start + len, 8) =~= segs@.skip(start + len));
            assert(final(out)@ =~= old(out)@ + ipv6_text(segs@));
        } else {
            push_hex_join(out, segs, 0, 8);
            assert(segs@.subrange(0, 8) =~= segs@);
        }
    }
}

impl IpAddr {
    /// The standard textual form: dotted decimal for IPv4, canonical
    /// compressed hexadecimal for IPv6.
    pub fn to_string(&self) -> (res: String)
        ensures
            res@ == ip_text(*self),
    {
        let mut out = String::new();
        match self {
            IpAddr::V4(o) => push_ipv4(&mut out, o),
            IpAddr::V6(s) => push_ipv6(&mut out, s),
        }
        assert(out@ =~= ip_text(*self));
        out
    }
}

} // verus!
