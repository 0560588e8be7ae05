//! Text rendering of numbers and network addresses.

use vstd::prelude::*;

verus! {

/// The lower-case hexadecimal digit for `d` (`0..=9` then `a..=f`).
pub open spec fn hex_digit(d: nat) -> char {
    if d < 10 {
        (d + 48) as char
    } else {
        (d + 87) as char
    }
}

/// `b` written in lower-case hexadecimal without leading zeros.
pub open spec fn lower_hex(b: u8) -> Seq<char> {
    if b < 16 {
        seq![hex_digit(b as nat)]
    } else {
        seq![hex_digit((b / 16) as nat), hex_digit((b % 16) as nat)]
    }
}

/// `n` written in decimal without leading zeros.
pub open spec fn decimal(n: nat) -> Seq<char>
    decreases n,
{
    if n < 10 {
        seq![hex_digit(n)]
    } else {
        decimal(n / 10).push(hex_digit(n % 10))
    }
}

/// Calls `String::push`; claimed, as its documentation says, that `c` is
/// appended to the text.
#[verifier::external_body]
pub(crate) fn push_char(s: &mut String, c: char)
    ensures
        final(s)@ == old(s)@.push(c),
{
    s.push(c)
}

/// Calls `String::pop`; claimed, as its documentation says, that the last
/// character is removed and returned, and that an empty text gives `None`.
#[verifier::external_body]
pub(crate) fn pop_char(s: &mut String) -> (r: Option<char>)
    ensures
        old(s)@.len() == 0 ==> r is None && final(s)@ == old(s)@,
        old(s)@.len() > 0 ==> r == Some(old(s)@.last()) && final(s)@ == old(s)@.drop_last(),
{
    s.pop()
}

fn digit_char(d: u8) -> (c: char)
    requires
        d < 16,
    ensures
        c == hex_digit(d as nat),
{
    if d < 10 {
        (d + 48) as char
    } else {
        (d + 87) as char
    }
}

/// Appends the lower-case hexadecimal text of `b`.
pub fn push_lower_hex(s: &mut String, b: u8)
    ensures
        final(s)@ == old(s)@ + lower_hex(b),
{
    if b < 16 {
        push_char(s, digit_char(b));
    } else {
        push_char(s, digit_char(b / 16));
        push_char(s, digit_char(b % 16));
    }
}

/// Appends the decimal text of `n`.
pub fn push_decimal(s: &mut String, n: u64)
    ensures
        final(s)@ == old(s)@ + decimal(n as nat),
    decreases n,
{
    if n < 10 {
        push_char(s, digit_char(n as u8));
    } else {
        push_decimal(s, n / 10);
        push_char(s, digit_char((n % 10) as u8));
    }
}

/// A MAC address as six lower-case hexadecimal octets separated by `:`.
pub open spec fn mac_text(a: Seq<u8>) -> Seq<char> {
    lower_hex(a[0]) + seq![':'] + lower_hex(a[1]) + seq![':'] + lower_hex(a[2]) + seq![':']
        + lower_hex(a[3]) + seq![':'] + lower_hex(a[4]) + seq![':'] + lower_hex(a[5])
}

/// An IPv4 address in dotted decimal notation.
pub open spec fn ipv4_text(a: Seq<u8>) -> Seq<char> {
    decimal(a[0] as nat) + seq!['.'] + decimal(a[1] as nat) + seq!['.'] + decimal(a[2] as nat)
        + seq!['.'] + decimal(a[3] as nat)
}

/// The first eight octets of an IPv6 address, as four `:`-separated groups,
/// each group the unpadded lower-case hexadecimal texts of two octets.
pub open spec fn ipv6_text(a: Seq<u8>) -> Seq<char> {
    lower_hex(a[0]) + lower_hex(a[1]) + seq![':'] + lower_hex(a[2]) + lower_hex(a[3]) + seq![':']
        + lower_hex(a[4]) + lower_hex(a[5]) + seq![':'] + lower_hex(a[6]) + lower_hex(a[7])
}

/// Renders a MAC address, e.g. `[0, 0x1b, 0x21, 0xa, 0xff, 0x10]` as `0:1b:21:a:ff:10`.
pub fn to_macaddr_string(addr: [u8; 6]) -> (r: String)
    ensures
        r@ == mac_text(addr@),
{
    let mut s = String::new();
    push_lower_hex(&mut s, addr[0]);
    push_char(&mut s, ':');
    push_lower_hex(&mut s, addr[1]);
    push_char(&mut s, ':');
    push_lower_hex(&mut s, addr[2]);
    push_char(&mut s, ':');
    push_lower_hex(&mut s, addr[3]);
    push_char(&mut s, ':');
    push_lower_hex(&mut s, addr[4]);
    push_char(&mut s, ':');
    push_lower_hex(&mut s, addr[5]);
    assert(s@ =~= mac_text(addr@));
    s
}

/// Renders an IPv4 address in dotted decimal, e.g. `192.168.0.1`.
pub fn to_ip4addr_string(addr: [u8; 4]) -> (r: String)
    ensures
        r@ == ipv4_text(addr@),
{
    let mut s = String::new();
    push_decimal(&mut s, addr[0] as u64);
    push_char(&mut s, '.');
    push_decimal(&mut s, addr[1] as u64);
    push_char(&mut s, '.');
    push_decimal(&mut s, addr[2] as u64);
    push_char(&mut s, '.');
    push_decimal(&mut s, addr[3] as u64);
    assert(s@ =~= ipv4_text(addr@));
    s
}

/// Renders the first eight octets of an IPv6 address as four groups of two
/// unpadded hexadecimal octets; `fe80::1` renders as `fe80:00:00:00`.
pub fn to_ip6addr_string(addr: [u8; 16]) -> (r: String)
    ensures
        r@ == ipv6_text(addr@),
{
    let mut s = String::new();
    push_lower_hex(&mut s, addr[0]);
    push_lower_hex(&mut s, addr[1]);
    push_char(&mut s, ':');
    push_lower_hex(&mut s, addr[2]);
    push_lower_hex(&mut s, addr[3]);
    push_char(&mut s, ':');
    push_lower_hex(&mut s, addr[4]);
    push_lower_hex(&mut s, addr[5]);
    push_char(&mut s, ':');
    push_lower_hex(&mut s, addr[6]);
    push_lower_hex(&mut s, addr[7]);
    assert(s@ =~= ipv6_text(addr@));
    s
}

/// The number that a text of decimal digits denotes.
pub open spec fn decimal_value(s: Seq<char>) -> int
    decreases s.len(),
{
    if s.len() == 0 {
        0
    } else {
        decimal_value(s.drop_last()) * 10 + (s.last() as int - 48)
    }
}

/// The number that a text of lower-case hexadecimal digits denotes.
pub open spec fn hex_value(s: Seq<char>) -> int
    decreases s.len(),
{
    if s.len() == 0 {
        0
    } else {
        let c = s.last() as int;
        hex_value(s.drop_last()) * 16 + (if c <= 57 { c - 48 } else { c - 87 })
    }
}

/// Decimal rendering is faithful: the text of `n` reads back as `n`.
pub proof fn law_decimal_reads_back(n: nat)
    ensures
        decimal_value(decimal(n)) == n,
    decreases n,
{
    assert(hex_digit(n % 10) as int == n % 10 + 48);
    vstd::arithmetic::div_mod::lemma_fundamental_div_mod(n as int, 10);
    if n >= 10 {
        law_decimal_reads_back(n / 10);
        assert(decimal(n).drop_last() =~= decimal(n / 10));
        assert(decimal(n).last() == hex_digit(n % 10));
        assert(decimal_value(decimal(n)) == decimal_value(decimal(n / 10)) * 10 + (n % 10));
        assert(decimal_value(decimal(n)) == n);
    } else {
        assert(hex_digit(n) as int == n + 48);
        assert(decimal(n).drop_last() =~= Seq::<char>::empty());
        assert(decimal(n).last() == hex_digit(n));
        assert(decimal_value(Seq::<char>::empty()) == 0);
        assert(decimal_value(decimal(n)) == n);
    }
}

/// Hexadecimal rendering is faithful: the text of `b` reads back as `b`.
pub proof fn law_hex_reads_back(b: u8)
    ensures
        hex_value(lower_hex(b)) == b,
{
    vstd::arithmetic::div_mod::lemma_fundamental_div_mod(b as int, 16);
    let hi = (b / 16) as nat;
    let lo = (b % 16) as nat;
    assert(hex_digit(lo) as int == if lo < 10 { lo + 48 } else { lo + 87 });
    assert(hex_digit(hi) as int == if hi < 10 { hi + 48 } else { hi + 87 });
    assert(seq![hex_digit(hi)].drop_last() =~= Seq::<char>::empty());
    if b >= 16 {
        assert(lower_hex(b).drop_last() =~= seq![hex_digit(hi)]);
        assert(lower_hex(b).last() == hex_digit(lo));
        assert(seq![hex_digit(hi)].last() == hex_digit(hi));
        assert(hex_value(Seq::<char>::empty()) == 0);
        assert(hex_value(seq![hex_digit(hi)]) == hi);
        assert(hex_value(lower_hex(b)) == hi * 16 + lo);
    } else {
        assert(hex_digit(b as nat) as int == if b < 10 { b + 48 } else { b + 87 });
        assert(lower_hex(b).drop_last() =~= Seq::<char>::empty());
        assert(lower_hex(b).last() == hex_digit(b as nat));
        assert(hex_value(Seq::<char>::empty()) == 0);
    }
}

/// `fields` written one after another with `sep` between neighbours.
pub open spec fn joined(fields: Seq<Seq<char>>, sep: char) -> Seq<char>
    decreases fields.len(),
{
    if fields.len() == 0 {
        Seq::empty()
    } else if fields.len() == 1 {
        fields[0]
    } else {
        fields[0] + seq![sep] + joined(fields.drop_first(), sep)
    }
}

/// `s` does not contain `sep`.
pub open spec fn free_of(s: Seq<char>, sep: char) -> bool {
    forall|i: int| 0 <= i < s.len() ==> s[i] != sep
}

/// Every field is free of `sep`.
pub open spec fn all_free_of(fields: Seq<Seq<char>>, sep: char) -> bool {
    forall|i: int| 0 <= i < fields.len() ==> free_of(#[trigger] fields[i], sep)
}

/// The six hexadecimal fields of a MAC address text.
pub open spec fn mac_fields(a: Seq<u8>) -> Seq<Seq<char>> {
    Seq::new(6, |i: int| lower_hex(a[i]))
}

/// The four decimal fields of an IPv4 address text.
pub open spec fn ipv4_fields(a: Seq<u8>) -> Seq<Seq<char>> {
    Seq::new(4, |i: int| decimal(a[i] as nat))
}

/// A separated text splits into its fields in one way only.
proof fn lemma_split_is_unique(f: Seq<Seq<char>>, g: Seq<Seq<char>>, sep: char)
    requires
        f.len() == g.len(),
        f.len() >= 1,
        all_free_of(f, sep),
        all_free_of(g, sep),
        joined(f, sep) == joined(g, sep),
    ensures
        f == g,
    decreases f.len(),
{
    if f.len() == 1 {
        assert(f =~= g);
    } else {
        let x = f[0];
        let y = joined(f.drop_first(), sep);
        let x2 = g[0];
        let y2 = joined(g.drop_first(), sep);
        let whole = x + seq![sep] + y;
        assert(free_of(x, sep));
        assert(free_of(x2, sep));
        assert(whole == x2 + seq![sep] + y2);
        if x.len() < x2.len() {
            assert(whole[x.len() as int] == sep);
            assert((x2 + seq![sep] + y2)[x.len() as int] == x2[x.len() as int]);
        } else if x2.len() < x.len() {
            assert((x2 + seq![sep] + y2)[x2.len() as int] == sep);
            assert(whole[x2.len() as int] == x[x2.len() as int]);
        }
        assert(x.len() == x2.len());
        assert(x =~= whole.subrange(0, x.len() as int));
        assert(x2 =~= (x2 + seq![sep] + y2).subrange(0, x.len() as int));
        assert(y =~= whole.subrange(x.len() as int + 1, whole.len() as int));
        assert(y2 =~= (x2 + seq![sep] + y2).subrange(x.len() as int + 1, whole.len() as int));
        assert(all_free_of(f.drop_first(), sep)) by {
            assert forall|i: int| 0 <= i < f.drop_first().len() implies free_of(
                #[trigger] f.drop_first()[i],
                sep,
            ) by {
                assert(f.drop_first()[i] == f[i + 1]);
            }
        }
        assert(all_free_of(g.drop_first(), sep)) by {
            assert forall|i: int| 0 <= i < g.drop_first().len() implies free_of(
                #[trigger] g.drop_first()[i],
                sep,
            ) by {
                assert(g.drop_first()[i] == g[i + 1]);
            }
        }
        lemma_split_is_unique(f.drop_first(), g.drop_first(), sep);
        assert(f =~= g) by {
            assert forall|i: int| 0 <= i < f.len() implies f[i] == g[i] by {
                if i > 0 {
                    assert(f[i] == f.drop_first()[i - 1]);
                    assert(g[i] == g.drop_first()[i - 1]);
                }
            }
        }
    }
}

proof fn lemma_hex_field(b: u8)
    ensures
        1 <= lower_hex(b).len() <= 2,
        free_of(lower_hex(b), ':'),
        hex_value(lower_hex(b)) == b,
{
    law_hex_reads_back(b);
    let hi = (b / 16) as nat;
    let lo = (b % 16) as nat;
    assert(hex_digit(lo) as int == if lo < 10 { lo + 48 } else { lo + 87 });
    assert(hex_digit(hi) as int == if hi < 10 { hi + 48 } else { hi + 87 });
    assert(hex_digit(b as nat) as int == if b < 10 { b + 48 } else { b + 87 });
}

proof fn lemma_decimal_digits(n: nat)
    ensures
        forall|i: int| 0 <= i < decimal(n).len() ==> 48 <= #[trigger] (decimal(n)[i] as int) <= 57,
    decreases n,
{
    assert(hex_digit(n % 10) as int == n % 10 + 48);
    if n >= 10 {
        lemma_decimal_digits(n / 10);
        assert forall|i: int| 0 <= i < decimal(n).len() implies 48 <= #[trigger] (decimal(n)[i] as int) <= 57 by {
            if i < decimal(n / 10).len() {
                assert(decimal(n)[i] == decimal(n / 10)[i]);
            }
        }
    } else {
        assert(hex_digit(n) as int == n + 48);
    }
}

proof fn lemma_decimal_field(n: nat)
    requires
        n < 256,
    ensures
        1 <= decimal(n).len() <= 3,
        free_of(decimal(n), '.'),
        decimal_value(decimal(n)) == n,
{
    law_decimal_reads_back(n);
    lemma_decimal_digits(n);
    reveal_with_fuel(decimal, 3);
    assert forall|i: int| 0 <= i < decimal(n).len() implies decimal(n)[i] != '.' by {
        assert(48 <= (decimal(n)[i] as int));
    }
}

#[verifier::rlimit(40)]
proof fn lemma_mac_text_joined(a: [u8; 6])
    ensures
        mac_text(a@) == joined(mac_fields(a@), ':'),
{
    let f = mac_fields(a@);
    let t1 = f.drop_first();
    let t2 = t1.drop_first();
    let t3 = t2.drop_first();
    let t4 = t3.drop_first();
    let t5 = t4.drop_first();
    assert(joined(t5, ':') == f[5]);
    assert(joined(t4, ':') == f[4] + seq![':'] + joined(t5, ':'));
    assert(joined(t3, ':') == f[3] + seq![':'] + joined(t4, ':'));
    assert(joined(t2, ':') == f[2] + seq![':'] + joined(t3, ':'));
    assert(joined(t1, ':') == f[1] + seq![':'] + joined(t2, ':'));
    assert(joined(f, ':') == f[0] + seq![':'] + joined(t1, ':'));
    assert(mac_text(a@) =~= joined(f, ':'));
}

#[verifier::rlimit(40)]
proof fn lemma_ipv4_text_joined(a: [u8; 4])
    ensures
        ipv4_text(a@) == joined(ipv4_fields(a@), '.'),
{
    let f = ipv4_fields(a@);
    let t1 = f.drop_first();
    let t2 = t1.drop_first();
    let t3 = t2.drop_first();
    assert(joined(t3, '.') == f[3]);
    assert(joined(t2, '.') == f[2] + seq!['.'] + joined(t3, '.'));
    assert(joined(t1, '.') == f[1] + seq!['.'] + joined(t2, '.'));
    assert(joined(f, '.') == f[0] + seq!['.'] + joined(t1, '.'));
    assert(ipv4_text(a@) =~= joined(f, '.'));
}

/// A MAC address text splits at `:` into six fields, in one way only; each
/// field is one or two hexadecimal digits that read back as its octet, so the
/// text has 11 to 17 characters.
pub proof fn law_mac_text_splits(a: [u8; 6])
    ensures
        mac_text(a@) == joined(mac_fields(a@), ':'),
        all_free_of(mac_fields(a@), ':'),
        forall|i: int| 0 <= i < 6 ==> 1 <= (#[trigger] mac_fields(a@)[i]).len() <= 2 && hex_value(
            mac_fields(a@)[i],
        ) == a@[i],
        11 <= mac_text(a@).len() <= 17,
        forall|g: Seq<Seq<char>>|
            g.len() == 6 && all_free_of(g, ':') && #[trigger] joined(g, ':') == mac_text(a@) ==> g
                == mac_fields(a@),
{
    let f = mac_fields(a@);
    assert forall|i: int| 0 <= i < 6 implies 1 <= (#[trigger] f[i]).len() <= 2 && free_of(f[i], ':')
        && hex_value(f[i]) == a@[i] by {
        lemma_hex_field(a@[i]);
    }
    lemma_mac_text_joined(a);
    assert(1 <= f[0].len() <= 2 && 1 <= f[1].len() <= 2 && 1 <= f[2].len() <= 2);
    assert(1 <= f[3].len() <= 2 && 1 <= f[4].len() <= 2 && 1 <= f[5].len() <= 2);
    assert(mac_text(a@).len() == f[0].len() + f[1].len() + f[2].len() + f[3].len() + f[4].len()
        + f[5].len() + 5);
    assert forall|g: Seq<Seq<char>>|
        g.len() == 6 && all_free_of(g, ':') && #[trigger] joined(g, ':') == mac_text(a@) implies g
            == f by {
        lemma_split_is_unique(g, f, ':');
    }
}

/// Different MAC addresses have different texts.
pub proof fn law_mac_text_injective(a: [u8; 6], b: [u8; 6])
    requires
        a@ != b@,
    ensures
        mac_text(a@) != mac_text(b@),
{
    law_mac_text_splits(a);
    law_mac_text_splits(b);
    if mac_text(a@) == mac_text(b@) {
        lemma_split_is_unique(mac_fields(a@), mac_fields(b@), ':');
        assert forall|i: int| 0 <= i < 6 implies a@[i] == b@[i] by {
            assert(mac_fields(a@)[i] == mac_fields(b@)[i]);
        }
        assert(a@ =~= b@);
    }
}

/// An IPv4 address text splits at `.` into four fields, in one way only; each
/// field is one to three decimal digits that read back as its octet, so the
/// text has 7 to 15 characters.
pub proof fn law_ipv4_text_splits(a: [u8; 4])
    ensures
        ipv4_text(a@) == joined(ipv4_fields(a@), '.'),
        all_free_of(ipv4_fields(a@), '.'),
        forall|i: int| 0 <= i < 4 ==> 1 <= (#[trigger] ipv4_fields(a@)[i]).len() <= 3 && decimal_value(
            ipv4_fields(a@)[i],
        ) == a@[i],
        7 <= ipv4_text(a@).len() <= 15,
        forall|g: Seq<Seq<char>>|
            g.len() == 4 && all_free_of(g, '.') && #[trigger] joined(g, '.') == ipv4_text(a@) ==> g
                == ipv4_fields(a@),
{
    let f = ipv4_fields(a@);
    assert forall|i: int| 0 <= i < 4 implies 1 <= (#[trigger] f[i]).len() <= 3 && free_of(f[i], '.')
        && decimal_value(f[i]) == a@[i] by {
        lemma_decimal_field(a@[i] as nat);
    }
    lemma_ipv4_text_joined(a);
    assert(1 <= f[0].len() <= 3 && 1 <= f[1].len() <= 3 && 1 <= f[2].len() <= 3 && 1 <= f[3].len() <= 3);
    assert(ipv4_text(a@).len() == f[0].len() + f[1].len() + f[2].len() + f[3].len() + 3);
    assert forall|g: Seq<Seq<char>>|
        g.len() == 4 && all_free_of(g, '.') && #[trigger] joined(g, '.') == ipv4_text(a@) implies g
            == f by {
        lemma_split_is_unique(g, f, '.');
    }
}

/// Different IPv4 addresses have different texts.
pub proof fn law_ipv4_text_injective(a: [u8; 4], b: [u8; 4])
    requires
        a@ != b@,
    ensures
        ipv4_text(a@) != ipv4_text(b@),
{
    law_ipv4_text_splits(a);
    law_ipv4_text_splits(b);
    if ipv4_text(a@) == ipv4_text(b@) {
        lemma_split_is_unique(ipv4_fields(a@), ipv4_fields(b@), '.');
        assert forall|i: int| 0 <= i < 4 implies a@[i] == b@[i] by {
            assert(ipv4_fields(a@)[i] == ipv4_fields(b@)[i]);
        }
        assert(a@ =~= b@);
    }
}

} // verus!
