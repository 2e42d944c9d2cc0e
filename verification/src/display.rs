//! Textual rendering of a host entry: canonical address text (dotted decimal
//! for IPv4, lowercase hex groups with zero compression for IPv6), raw byte
//! strings shown as text or as a placeholder, and the fixed entry format.

use vstd::prelude::*;

use crate::addr::{IpAddr, Ipv4Addr, Ipv6Addr};
use crate::family::AddressFamily;
use crate::hostent::{first_null, lemma_first_null, HasHostent, HostRecord, HostentBorrowed};

verus! {

/// The character for one digit value below sixteen, lowercase.
pub open spec fn spec_digit(v: int) -> char {
    if v == 0 {
        '0'
    } else if v == 1 {
        '1'
    } else if v == 2 {
        '2'
    } else if v == 3 {
        '3'
    } else if v == 4 {
        '4'
    } else if v == 5 {
        '5'
    } else if v == 6 {
        '6'
    } else if v == 7 {
        '7'
    } else if v == 8 {
        '8'
    } else if v == 9 {
        '9'
    } else if v == 10 {
        'a'
    } else if v == 11 {
        'b'
    } else if v == 12 {
        'c'
    } else if v == 13 {
        'd'
    } else if v == 14 {
        'e'
    } else {
        'f'
    }
}

fn digit_str(v: u8) -> (r: &'static str)
    requires
        v < 16,
    ensures
        r@ =~= seq![spec_digit(v as int)],
{
    proof {
        reveal_strlit("0");
        reveal_strlit("1");
        reveal_strlit("2");
        reveal_strlit("3");
        reveal_strlit("4");
        reveal_strlit("5");
        reveal_strlit("6");
        reveal_strlit("7");
        reveal_strlit("8");
        reveal_strlit("9");
        reveal_strlit("a");
        reveal_strlit("b");
        reveal_strlit("c");
        reveal_strlit("d");
        reveal_strlit("e");
        reveal_strlit("f");
    }
    match v {
        0 => "0",
        1 => "1",
        2 => "2",
        3 => "3",
        4 => "4",
        5 => "5",
        6 => "6",
        7 => "7",
        8 => "8",
        9 => "9",
        10 => "a",
        11 => "b",
        12 => "c",
        13 => "d",
        14 => "e",
        _ => "f",
    }
}

/// Decimal text of one byte, without leading zeros.
pub open spec fn spec_dec_byte(v: int) -> Seq<char> {
    if v < 10 {
        seq![spec_digit(v)]
    } else if v < 100 {
        seq![spec_digit(v / 10), spec_digit(v % 10)]
    } else {
        seq![spec_digit(v / 100), spec_digit((v / 10) % 10), spec_digit(v % 10)]
    }
}

fn dec_byte_str(v: u8) -> (r: String)
    ensures
        r@ =~= spec_dec_byte(v as int),
{
    if v < 10 {
        String::from_str(digit_str(v))
    } else if v < 100 {
        let mut s = String::from_str(digit_str(v / 10));
        s.append(digit_str(v % 10));
        s
    } else {
        let mut s = String::from_str(digit_str(v / 100));
        s.append(digit_str((v / 10) % 10));
        s.append(digit_str(v % 10));
        s
    }
}

/// Dotted-decimal text of four octets.
pub open spec fn spec_ipv4_text(b: Seq<u8>) -> Seq<char> {
    spec_dec_byte(b[0] as int) + seq!['.'] + spec_dec_byte(b[1] as int) + seq!['.'] + spec_dec_byte(
        b[2] as int,
    ) + seq!['.'] + spec_dec_byte(b[3] as int)
}

fn ipv4_octets_text(b0: u8, b1: u8, b2: u8, b3: u8) -> (r: String)
    ensures
        r@ =~= spec_ipv4_text(seq![b0, b1, b2, b3]),
{
    proof {
        reveal_strlit(".");
    }
    let mut s = dec_byte_str(b0);
    s.append(".");
    let p1 = dec_byte_str(b1);
    s.append(p1.as_str());
    s.append(".");
    let p2 = dec_byte_str(b2);
    s.append(p2.as_str());
    s.append(".");
    let p3 = dec_byte_str(b3);
    s.append(p3.as_str());
    s
}

/// Canonical dotted-decimal text of an IPv4 address.
pub fn ipv4_text(a: &Ipv4Addr) -> (r: String)
    ensures
        r@ == spec_ipv4_text(a.spec_octets()),
{
    let o = a.octets();
    let r = ipv4_octets_text(o[0], o[1], o[2], o[3]);
    proof {
        assert(seq![o[0], o[1], o[2], o[3]] =~= a.spec_octets());
        assert(r@ =~= spec_ipv4_text(a.spec_octets()));
    }
    r
}

/// Lowercase hex text of one sixteen-bit group, without leading zeros.
pub open spec fn spec_hex_group(v: int) -> Seq<char> {
    if v < 16 {
        seq![spec_digit(v)]
    } else if v < 256 {
        seq![spec_digit(v / 16), spec_digit(v % 16)]
    } else if v < 4096 {
        seq![spec_digit(v / 256), spec_digit((v / 16) % 16), spec_digit(v % 16)]
    } else {
        seq![
            spec_digit(v / 4096),
            spec_digit((v / 256) % 16),
            spec_digit((v / 16) % 16),
            spec_digit(v % 16),
        ]
    }
}

fn hex_group_str(v: u16) -> (r: String)
    ensures
        r@ =~= spec_hex_group(v as int),
{
    if v < 16 {
        String::from_str(digit_str(v as u8))
    } else if v < 256 {
        let mut s = String::from_str(digit_str((v / 16) as u8));
        s.append(digit_str((v % 16) as u8));
        s
    } else if v < 4096 {
        let mut s = String::from_str(digit_str((v / 256) as u8));
        s.append(digit_str(((v / 16) % 16) as u8));
        s.append(digit_str((v % 16) as u8));
        s
    } else {
        let mut s = String::from_str(digit_str((v / 4096) as u8));
        s.append(digit_str(((v / 256) % 16) as u8));
        s.append(digit_str(((v / 16) % 16) as u8));
        s.append(digit_str((v % 16) as u8));
        s
    }
}

/// The eight sixteen-bit groups of an IPv6 address, in stored (big-endian)
/// byte order.
pub open spec fn spec_groups(b: Seq<u8>) -> Seq<u16> {
    Seq::new(8, |i: int| (b[2 * i] * 256 + b[2 * i + 1]) as u16)
}

/// Length of the run of zero groups starting at `i`.
pub open spec fn zero_run_len(g: Seq<u16>, i: int) -> int
    decreases 8 - i,
{
    if i < 0 || i >= 8 {
        0
    } else if g[i] != 0 {
        0
    } else {
        1 + zero_run_len(g, i + 1)
    }
}

proof fn lemma_zero_run_len_bounds(g: Seq<u16>, i: int)
    ensures
        0 <= zero_run_len(g, i),
        i <= 8 ==> zero_run_len(g, i) <= 8 - i,
    decreases 8 - i,
{
    if 0 <= i < 8 && g[i] == 0 {
        lemma_zero_run_len_bounds(g, i + 1);
    }
}

/// Start of the leftmost longest run of zero groups at or after `i`
/// (`8` when every candidate run is empty).
pub open spec fn best_zero_run_from(g: Seq<u16>, i: int) -> int
    decreases 8 - i,
{
    if i < 0 || i >= 8 {
        8
    } else {
        let rest = best_zero_run_from(g, i + 1);
        if zero_run_len(g, i) >= zero_run_len(g, rest) {
            i
        } else {
            rest
        }
    }
}

/// Hex text of groups `lo` to `hi` (exclusive), separated by colons.
pub open spec fn spec_groups_text(g: Seq<u16>, lo: int, hi: int) -> Seq<char>
    decreases hi - lo,
{
    if lo >= hi {
        Seq::empty()
    } else if lo + 1 >= hi {
        spec_hex_group(g[lo] as int)
    } else {
        spec_hex_group(g[lo] as int) + seq![':'] + spec_groups_text(g, lo + 1, hi)
    }
}

proof fn lemma_groups_text_snoc(g: Seq<u16>, lo: int, hi: int)
    requires
        lo <= hi,
    ensures
        spec_groups_text(g, lo, hi + 1) =~= spec_groups_text(g, lo, hi) + (if hi > lo {
            seq![':']
        } else {
            Seq::<char>::empty()
        }) + spec_hex_group(g[hi] as int),
    decreases hi - lo,
{
    if lo >= hi {
    } else if lo + 1 >= hi {
        assert(spec_groups_text(g, lo, hi + 1) == spec_hex_group(g[lo] as int) + seq![':']
            + spec_groups_text(g, lo + 1, hi + 1));
        assert(spec_groups_text(g, lo + 1, hi + 1) == spec_hex_group(g[hi] as int));
    } else {
        lemma_groups_text_snoc(g, lo + 1, hi);
    }
}

/// Whether the groups name an IPv4-mapped address, rendered in the mixed
/// `::ffff:a.b.c.d` notation.
pub open spec fn spec_v4_mapped(g: Seq<u16>) -> bool {
    g[0] == 0 && g[1] == 0 && g[2] == 0 && g[3] == 0 && g[4] == 0 && g[5] == 0xffff
}

/// Canonical text of sixteen address bytes: lowercase hex groups separated
/// by colons, the leftmost longest run of two or more zero groups compressed
/// to `::`, and an IPv4-mapped address in mixed notation.
pub open spec fn spec_ipv6_text(b: Seq<u8>) -> Seq<char> {
    let g = spec_groups(b);
    if spec_v4_mapped(g) {
        "::ffff:"@ + spec_ipv4_text(b.subrange(12, 16))
    } else {
        let s = best_zero_run_from(g, 0);
        let l = zero_run_len(g, s);
        if l >= 2 {
            spec_groups_text(g, 0, s) + "::"@ + spec_groups_text(g, s + l, 8)
        } else {
            spec_groups_text(g, 0, 8)
        }
    }
}

fn groups_join(groups: &Vec<u16>, lo: usize, hi: usize) -> (r: String)
    requires
        lo <= hi <= groups@.len(),
    ensures
        r@ == spec_groups_text(groups@, lo as int, hi as int),
{
    proof {
        reveal_strlit(":");
    }
    let ghost g = groups@;
    let mut s = String::new();
    let mut j = lo;
    while j < hi
        invariant
            lo <= j <= hi <= groups@.len(),
            g == groups@,
            s@ == spec_groups_text(g, lo as int, j as int),
        decreases hi - j,
    {
        if j > lo {
            s.append(":");
        }
        let part = hex_group_str(groups[j]);
        s.append(part.as_str());
        proof {
            reveal_strlit(":");
            lemma_groups_text_snoc(g, lo as int, j as int);
            assert(":"@ =~= seq![':']);
            assert(s@ =~= spec_groups_text(g, lo as int, j as int + 1));
        }
        j = j + 1;
    }
    s
}

/// Canonical text of an IPv6 address, byte order preserved as stored.
pub fn ipv6_text(a: &Ipv6Addr) -> (r: String)
    ensures
        r@ == spec_ipv6_text(a.spec_octets()),
{
    let o = a.octets();
    let ghost b = a.spec_octets();
    let mut groups: Vec<u16> = Vec::new();
    let mut i: usize = 0;
    while i < 8
        invariant
            i <= 8,
            o@ == b,
            b.len() == 16,
            groups@.len() == i,
            forall|j: int| 0 <= j < i ==> groups@[j] == spec_groups(b)[j],
        decreases 8 - i,
    {
        let hi = o[2 * i];
        let lo = o[2 * i + 1];
        groups.push((hi as u16) * 256 + (lo as u16));
        i = i + 1;
    }
    proof {
        assert(groups@ =~= spec_groups(b));
    }
    if groups[0] == 0 && groups[1] == 0 && groups[2] == 0 && groups[3] == 0 && groups[4] == 0
        && groups[5] == 0xffff {
        proof {
            reveal_strlit("::ffff:");
        }
        let mut s = String::from_str("::ffff:");
        let tail = ipv4_octets_text(o[12], o[13], o[14], o[15]);
        s.append(tail.as_str());
        proof {
            assert(seq![o[12], o[13], o[14], o[15]] =~= b.subrange(12, 16));
            assert(s@ =~= spec_ipv6_text(b));
        }
        s
    } else {
        let ghost g = spec_groups(b);
        let mut run_next: usize = 0;
        let mut best: usize = 8;
        let mut best_len: usize = 0;
        let mut k: usize = 8;
        while k > 0
            invariant
                k <= 8,
                g == groups@,
                groups@.len() == 8,
                run_next == zero_run_len(g, k as int),
                best == best_zero_run_from(g, k as int),
                best <= 8,
                best_len == zero_run_len(g, best as int),
                run_next <= 8,
                best_len + best <= 8,
            decreases k,
        {
            k = k - 1;
            proof {
                lemma_zero_run_len_bounds(g, k as int);
                lemma_zero_run_len_bounds(g, k as int + 1);
            }
            let run_cur: usize = if groups[k] == 0 {
                run_next + 1
            } else {
                0
            };
            if run_cur >= best_len {
                best = k;
                best_len = run_cur;
            }
            run_next = run_cur;
        }
        if best_len >= 2 {
            proof {
                reveal_strlit("::");
            }
            let mut s = groups_join(&groups, 0, best);
            s.append("::");
            let tail = groups_join(&groups, best + best_len, 8);
            s.append(tail.as_str());
            proof {
                assert(s@ =~= spec_ipv6_text(b));
            }
            s
        } else {
            let s = groups_join(&groups, 0, 8);
            proof {
                assert(s@ =~= spec_ipv6_text(b));
            }
            s
        }
    }
}

/// Canonical text of a decoded address, in its family's form.
pub open spec fn spec_addr_text(a: IpAddr) -> Seq<char> {
    if a.spec_is_v4() {
        spec_ipv4_text(a.spec_bytes())
    } else {
        spec_ipv6_text(a.spec_bytes())
    }
}

/// Renders one address in its canonical textual form.
pub fn addr_text(a: &IpAddr) -> (r: String)
    ensures
        r@ == spec_addr_text(*a),
{
    match a {
        IpAddr::V4(x) => ipv4_text(x),
        IpAddr::V6(x) => ipv6_text(x),
    }
}

/// What `core::str::from_utf8` decides of a byte sequence: `Some` with the
/// decoded characters exactly when the bytes are valid UTF-8. The result is
/// a function of the bytes alone.
pub uninterp spec fn utf8_chars(bytes: Seq<u8>) -> Option<Seq<char>>;

/// Relies on `core::str::from_utf8`: whether the bytes are valid UTF-8, and
/// the text they decode to, depend on the bytes alone.
#[verifier::external_body]
fn bytes_to_text(bytes: &Vec<u8>) -> (r: Option<String>)
    ensures
        r is Some <==> utf8_chars(bytes@) is Some,
        r matches Some(s) ==> utf8_chars(bytes@) == Some(s@),
{
    match core::str::from_utf8(bytes.as_slice()) {
        Ok(s) => Some(String::from(s)),
        Err(_) => None,
    }
}

/// A byte string as text: its UTF-8 decoding, or a fixed placeholder where
/// the bytes are not valid UTF-8. Traversal never fails on invalid text.
pub open spec fn spec_text_or_placeholder(bytes: Seq<u8>) -> Seq<char> {
    match utf8_chars(bytes) {
        Some(t) => t,
        None => "<not utf8>"@,
    }
}

/// Decodes a byte string for rendering, substituting the placeholder for
/// invalid text rather than failing.
pub fn text_or_placeholder(bytes: &Vec<u8>) -> (r: String)
    ensures
        r@ == spec_text_or_placeholder(bytes@),
{
    match bytes_to_text(bytes) {
        Some(s) => s,
        None => String::from_str("<not utf8>"),
    }
}

/// The parts joined left to right with the separator between neighbours.
pub open spec fn spec_join(parts: Seq<Seq<char>>, sep: Seq<char>) -> Seq<char>
    decreases parts.len(),
{
    if parts.len() == 0 {
        Seq::empty()
    } else if parts.len() == 1 {
        parts[0]
    } else {
        parts[0] + sep + spec_join(parts.skip(1), sep)
    }
}

/// Relies on `itertools::join`: combines the elements into one string, in
/// order, with `sep` between neighbours.
#[verifier::external_body]
fn join_strings(parts: &Vec<String>, sep: &str) -> (r: String)
    ensures
        r@ == spec_join(parts@.map_values(|s: String| s@), sep@),
{
    itertools::join(parts.iter(), sep)
}

/// The fixed rendering of an entry from already-derived parts: name text,
/// one canonical text per address, one text per alias.
pub open spec fn spec_format_entry(
    name: Seq<u8>,
    addr_texts: Seq<Seq<char>>,
    alias_texts: Seq<Seq<char>>,
) -> Seq<char> {
    "Hostname: "@ + spec_text_or_placeholder(name) + ", Addresses: ["@ + spec_join(
        addr_texts,
        ", "@,
    ) + "], Aliases: ["@ + spec_join(alias_texts, ", "@) + "]"@
}

/// Renders an entry from its parts, exactly as
/// `Hostname: <name>, Addresses: [<a1>, <a2>], Aliases: [<al1>]`, with
/// invalid name or alias text shown as the placeholder.
pub fn format_entry(name: &Vec<u8>, addrs: &Vec<IpAddr>, aliases: &Vec<Vec<u8>>) -> (r: String)
    ensures
        r@ == spec_format_entry(
            name@,
            addrs@.map_values(|a: IpAddr| spec_addr_text(a)),
            aliases@.map_values(|v: Vec<u8>| spec_text_or_placeholder(v@)),
        ),
{
    let mut addr_parts: Vec<String> = Vec::new();
    let mut i: usize = 0;
    while i < addrs.len()
        invariant
            i <= addrs@.len(),
            addr_parts@.len() == i,
            forall|j: int|
                0 <= j < i ==> (#[trigger] addr_parts@[j])@ == spec_addr_text(addrs@[j]),
        decreases addrs@.len() - i,
    {
        let part = addr_text(&addrs[i]);
        addr_parts.push(part);
        i = i + 1;
    }
    let mut alias_parts: Vec<String> = Vec::new();
    let mut k: usize = 0;
    while k < aliases.len()
        invariant
            k <= aliases@.len(),
            alias_parts@.len() == k,
            forall|j: int|
                0 <= j < k ==> (#[trigger] alias_parts@[j])@ == spec_text_or_placeholder(
                    aliases@[j]@,
                ),
        decreases aliases@.len() - k,
    {
        let part = text_or_placeholder(&aliases[k]);
        alias_parts.push(part);
        k = k + 1;
    }
    let addrs_joined = join_strings(&addr_parts, ", ");
    let aliases_joined = join_strings(&alias_parts, ", ");
    proof {
        assert(addr_parts@.map_values(|s: String| s@) =~= addrs@.map_values(
            |a: IpAddr| spec_addr_text(a),
        ));
        assert(alias_parts@.map_values(|s: String| s@) =~= aliases@.map_values(
            |v: Vec<u8>| spec_text_or_placeholder(v@),
        ));
    }
    let mut s = String::from_str("Hostname: ");
    let name_text = text_or_placeholder(name);
    s.append(name_text.as_str());
    s.append(", Addresses: [");
    s.append(addrs_joined.as_str());
    s.append("], Aliases: [");
    s.append(aliases_joined.as_str());
    s.append("]");
    s
}

/// The canonical texts of the addresses a traversal of the record yields:
/// nothing under an unrecognized family, else one per buffer before the
/// first null slot.
pub open spec fn spec_address_texts(
    family: Option<AddressFamily>,
    slots: Seq<Option<Vec<u8>>>,
) -> Seq<Seq<char>> {
    match family {
        None => Seq::empty(),
        Some(f) => Seq::new(
            first_null(slots) as nat,
            |i: int|
                if f is Inet {
                    spec_ipv4_text(slots[i]->0@)
                } else {
                    spec_ipv6_text(slots[i]->0@)
                },
        ),
    }
}

/// The texts of the aliases a traversal yields: one per slot before the
/// first null, decoded or the placeholder.
pub open spec fn spec_alias_texts(slots: Seq<Option<Vec<u8>>>) -> Seq<Seq<char>> {
    Seq::new(first_null(slots) as nat, |i: int| spec_text_or_placeholder(slots[i]->0@))
}

/// The fixed rendering of a whole record.
pub open spec fn spec_display(r: HostRecord) -> Seq<char> {
    spec_format_entry(
        r.name@,
        spec_address_texts(r.spec_family(), r.addr_list@),
        spec_alias_texts(r.alias_list@),
    )
}

/// Renders a record bit-for-bit in the fixed format: the hostname, every
/// address a traversal yields in canonical form, and every alias, with
/// invalid text shown as the placeholder.
pub fn display(hostent: &HostRecord) -> (r: String)
    requires
        hostent.wf(),
    ensures
        r@ == spec_display(*hostent),
{
    let view = HostentBorrowed::new(hostent);
    let addrs = view.addresses().into_vec();
    let alias_vecs = view.aliases().into_vec();
    proof {
        lemma_first_null(hostent.addr_list@);
        lemma_first_null(hostent.alias_list@);
        assert(addrs@.map_values(|a: IpAddr| spec_addr_text(a)) =~= spec_address_texts(
            hostent.spec_family(),
            hostent.addr_list@,
        ));
        assert(alias_vecs@.map_values(|v: Vec<u8>| spec_text_or_placeholder(v@))
            =~= spec_alias_texts(hostent.alias_list@));
    }
    format_entry(&hostent.name, &addrs, &alias_vecs)
}

} // verus!
