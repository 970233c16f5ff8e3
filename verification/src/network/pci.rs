//! Addresses on the PCI bus, and hardware addresses.
use crate::text;
use vstd::prelude::*;

verus! {

/// Whether a character stands between the parts of an address.
pub open spec fn is_separator(c: char) -> bool {
    c == ':' || c == '.' || c == ' '
}

/// How many characters come before the first separator.
pub open spec fn piece_len(s: Seq<char>) -> nat
    decreases s.len(),
{
    if s.len() == 0 || is_separator(s[0]) {
        0
    } else {
        1 + piece_len(s.drop_first())
    }
}

/// A piece is never longer than the text that it starts.
pub proof fn piece_len_bounded(s: Seq<char>)
    ensures
        piece_len(s) <= s.len(),
    decreases s.len(),
{
    if s.len() > 0 && !is_separator(s[0]) {
        piece_len_bounded(s.drop_first());
    }
}

/// What stands before, between and after the separators.
pub open spec fn pieces(s: Seq<char>) -> Seq<Seq<char>>
    decreases s.len(),
{
    let n = piece_len(s);
    if n >= s.len() {
        seq![s]
    } else {
        seq![s.take(n as int)] + pieces(s.skip(n as int + 1))
    }
}

/// A part of an address, read in hexadecimal.
pub open spec fn part(s: Seq<char>, max: nat) -> Option<nat> {
    match text::unsigned_number(s, 16, max) {
        Ok(n) => Some(n),
        Err(_) => None,
    }
}

/// How long the first piece of a text is.
pub proof fn lemma_piece_len_is(s: Seq<char>, n: nat)
    requires
        n <= s.len(),
        forall|k: int| 0 <= k < n ==> !is_separator(#[trigger] s[k]),
        n == s.len() || is_separator(s[n as int]),
    ensures
        piece_len(s) == n,
    decreases s.len(),
{
    if n > 0 {
        let t = s.drop_first();
        assert forall|k: int| 0 <= k < n - 1 implies !is_separator(#[trigger] t[k]) by {
            assert(t[k] == s[k + 1]);
        }
        lemma_piece_len_is(t, (n - 1) as nat);
    }
}

fn split_at_separators(s: &str) -> (r: Vec<String>)
    ensures
        text::views(r@) == pieces(s@),
{
    let v = text::to_chars(s);
    let mut out: Vec<String> = Vec::new();
    let mut from: usize = 0;
    let mut i: usize = 0;
    proof {
        assert(v@.skip(0) =~= v@);
        assert(text::views(out@) + pieces(v@) =~= pieces(v@));
    }
    while i < v.len()
        invariant
            from <= i <= v@.len(),
            forall|k: int| from <= k < i ==> !is_separator(#[trigger] v@[k]),
            text::views(out@) + pieces(v@.skip(from as int)) == pieces(v@),
        decreases v@.len() - i,
    {
        if v[i] == ':' || v[i] == '.' || v[i] == ' ' {
            let piece = text::from_chars(&v, from, i);
            let ghost before = out@;
            out.push(piece);
            proof {
                let rest = v@.skip(from as int);
                let n = (i - from) as nat;
                assert forall|k: int| 0 <= k < n implies !is_separator(#[trigger] rest[k]) by {
                    assert(rest[k] == v@[from + k]);
                }
                assert(rest[n as int] == v@[i as int]);
                lemma_piece_len_is(rest, n);
                assert(rest.take(n as int) =~= piece@);
                assert(rest.skip(n as int + 1) =~= v@.skip(i + 1));
                assert(text::views(out@) =~= text::views(before).push(piece@));
                assert(text::views(out@) + pieces(v@.skip(i + 1)) =~= text::views(before) + pieces(
                    rest,
                ));
            }
            from = i + 1;
        }
        i += 1;
    }
    let piece = text::from_chars(&v, from, v.len());
    let ghost before = out@;
    out.push(piece);
    proof {
        let rest = v@.skip(from as int);
        assert forall|k: int| 0 <= k < rest.len() implies !is_separator(#[trigger] rest[k]) by {
            assert(rest[k] == v@[from + k]);
        }
        lemma_piece_len_is(rest, rest.len());
        assert(rest =~= piece@);
        assert(text::views(out@) =~= text::views(before) + seq![piece@]);
    }
    out
}

/// What a text is as a PCI address: domain, bus, slot and function in hexadecimal,
/// or what is wrong with it.
pub open spec fn pci_read(s: Seq<char>, r: Result<(u16, u8, u8, u8), String>) -> bool {
    let p = pieces(s);
    if p.len() != 4 {
        r matches Err(e) && e@ == "Invalid PCI address format"@
    } else {
        match (part(p[0], 0xffff), part(p[1], 0xff), part(p[2], 0xff), part(p[3], 0xff)) {
            (None, _, _, _) => r matches Err(e) && e@ == "Invalid domain"@,
            (_, None, _, _) => r matches Err(e) && e@ == "Invalid bus"@,
            (_, _, None, _) => r matches Err(e) && e@ == "Invalid slot"@,
            (_, _, _, None) => r matches Err(e) && e@ == "Invalid function"@,
            (Some(d), Some(b), Some(s), Some(f)) => r matches Ok(a) && a.0 == d && a.1 == b && a.2
                == s && a.3 == f,
        }
    }
}

/// Reads a PCI address.
pub fn parse_pci_address(address: &str) -> (r: Result<(u16, u8, u8, u8), String>)
    ensures
        pci_read(address@, r),
{
    let parts = split_at_separators(address);
    if parts.len() != 4 {
        return Err("Invalid PCI address format".to_owned());
    }
    proof {
        let p = text::views(parts@);
        assert(p[0] == parts@[0]@ && p[1] == parts@[1]@ && p[2] == parts@[2]@ && p[3]
            == parts@[3]@);
    }
    let domain: u16 = match text::parse_unsigned(parts[0].as_str(), 16, 0xffff) {
        Ok(n) => n as u16,
        Err(_) => {
            return Err("Invalid domain".to_owned());
        },
    };
    let bus: u8 = match text::parse_unsigned(parts[1].as_str(), 16, 0xff) {
        Ok(n) => n as u8,
        Err(_) => {
            return Err("Invalid bus".to_owned());
        },
    };
    let slot: u8 = match text::parse_unsigned(parts[2].as_str(), 16, 0xff) {
        Ok(n) => n as u8,
        Err(_) => {
            return Err("Invalid slot".to_owned());
        },
    };
    let function: u8 = match text::parse_unsigned(parts[3].as_str(), 16, 0xff) {
        Ok(n) => n as u8,
        Err(_) => {
            return Err("Invalid function".to_owned());
        },
    };
    Ok((domain, bus, slot, function))
}

/// The number of a PCI function, counted over all domains, buses and slots: a slot
/// has 8 functions, a bus 32 slots, and a domain 256 buses.
pub open spec fn pci_index(address: (u16, u8, u8, u8)) -> int {
    address.0 * 65536 + address.1 * 256 + address.2 * 8 + address.3
}

/// Whether slot and function are in the range that a bus has.
pub open spec fn is_normal(address: (u16, u8, u8, u8)) -> bool {
    address.2 < 32 && address.3 < 8
}

/// The PCI address that comes a number of functions later.
pub fn nth_next_pci_address(address: (u16, u8, u8, u8), n: u32) -> (r: (u16, u8, u8, u8))
    requires
        pci_index(address) + n <= u32::MAX,
    ensures
        pci_index(r) == pci_index(address) + n,
        is_normal(r),
{
    let (domain, bus, slot, function) = address;
    let total: u32 = (domain as u32) * 65536 + (bus as u32) * 256 + (slot as u32) * 8
        + function as u32 + n;
    let new_domain: u16 = (total / 65536) as u16;
    let in_domain: u32 = total % 65536;
    let new_bus: u8 = (in_domain / 256) as u8;
    let in_bus: u32 = in_domain % 256;
    let new_slot: u8 = (in_bus / 8) as u8;
    let new_function: u8 = (in_bus % 8) as u8;
    (new_domain, new_bus, new_slot, new_function)
}

/// Two normal addresses of one number are the same: the number determines the
/// address.
pub proof fn normal_addresses_are_determined(a: (u16, u8, u8, u8), b: (u16, u8, u8, u8))
    requires
        is_normal(a),
        is_normal(b),
        pci_index(a) == pci_index(b),
    ensures
        a == b,
{
}

/// Counting on by one number and then by another is counting on by their sum, and
/// counting on by 0 gives a normal address back.
pub proof fn counting_on_adds_up(
    a: (u16, u8, u8, u8),
    m: u32,
    n: u32,
    after_m: (u16, u8, u8, u8),
    after_n: (u16, u8, u8, u8),
    after_both: (u16, u8, u8, u8),
    after_none: (u16, u8, u8, u8),
)
    requires
        pci_index(after_m) == pci_index(a) + m,
        is_normal(after_m),
        pci_index(after_n) == pci_index(after_m) + n,
        is_normal(after_n),
        pci_index(after_both) == pci_index(a) + (m + n),
        is_normal(after_both),
        pci_index(after_none) == pci_index(a) + 0,
        is_normal(after_none),
    ensures
        after_n == after_both,
        is_normal(a) ==> after_none == a,
{
    normal_addresses_are_determined(after_n, after_both);
    if is_normal(a) {
        normal_addresses_are_determined(after_none, a);
    }
}

/// A number in hexadecimal, filled up with zeros.
pub open spec fn hex_padded(n: nat, width: nat) -> Seq<char> {
    text::padded_left(text::numeral(n, 16), width, '0')
}

/// A PCI address as a text: domain, bus and slot in hexadecimal, the function in
/// decimal.
pub open spec fn pci_text(address: (u16, u8, u8, u8)) -> Seq<char> {
    hex_padded(address.0 as nat, 4) + ":"@ + hex_padded(address.1 as nat, 2) + ":"@ + hex_padded(
        address.2 as nat,
        2,
    ) + "."@ + text::dec(address.3 as nat)
}

fn to_hex_padded(n: u64, width: usize) -> (r: String)
    ensures
        r@ == hex_padded(n as nat, width as nat),
{
    let digits = text::to_numeral(n, 16);
    text::pad_left(digits.as_str(), width, '0')
}

/// Writes a PCI address.
pub fn format_pci_address(address: (u16, u8, u8, u8)) -> (r: String)
    ensures
        r@ == pci_text(address),
{
    let (domain, bus, slot, function) = address;
    let d = to_hex_padded(domain as u64, 4);
    let b = to_hex_padded(bus as u64, 2);
    let s = to_hex_padded(slot as u64, 2);
    let f = text::to_dec(function as u64);
    text::cat3(
        text::cat5(d.as_str(), ":", b.as_str(), ":", s.as_str()).as_str(),
        ".",
        f.as_str(),
    )
}

/// Whether a text holds no separator.
pub open spec fn is_piece(s: Seq<char>) -> bool {
    forall|k: int| 0 <= k < s.len() ==> !is_separator(#[trigger] s[k])
}

proof fn lemma_numeral_is_piece(n: nat, radix: nat)
    requires
        radix == 10 || radix == 16,
    ensures
        is_piece(text::numeral(n, radix)),
    decreases n,
{
    if n >= radix {
        let q = n / radix;
        let d = n % radix;
        assert(q < n && d < radix) by (nonlinear_arith)
            requires
                n >= radix,
                radix == 10 || radix == 16,
                q == n / radix,
                d == n % radix,
        ;
        lemma_numeral_is_piece(q, radix);
        let init = text::numeral(q, radix);
        let all = text::numeral(n, radix);
        assert(all == init.push(text::digit_char(d)));
        assert forall|k: int| 0 <= k < all.len() implies !is_separator(#[trigger] all[k]) by {
            if k < init.len() {
                assert(all[k] == init[k]);
            }
        }
    }
}

proof fn lemma_padded_is_piece(n: nat, width: nat)
    ensures
        is_piece(hex_padded(n, width)),
{
    lemma_numeral_is_piece(n, 16);
    let s = text::numeral(n, 16);
    if s.len() < width {
        let fill = text::repeated('0', (width - s.len()) as nat);
        let all = fill + s;
        assert forall|k: int| 0 <= k < all.len() implies !is_separator(#[trigger] all[k]) by {
            if k >= fill.len() {
                assert(all[k] == s[k - fill.len()]);
            }
        }
    }
}

/// The pieces of a text that begins with a piece and a separator.
pub proof fn lemma_pieces_cons(a: Seq<char>, c: char, rest: Seq<char>)
    requires
        is_piece(a),
        is_separator(c),
    ensures
        pieces(a + seq![c] + rest) == seq![a] + pieces(rest),
{
    let s = a + seq![c] + rest;
    assert forall|k: int| 0 <= k < a.len() implies !is_separator(#[trigger] s[k]) by {
        assert(s[k] == a[k]);
    }
    assert(s[a.len() as int] == c);
    lemma_piece_len_is(s, a.len());
    assert(s.take(a.len() as int) =~= a);
    assert(s.skip(a.len() as int + 1) =~= rest);
}

/// An address that is written is read back as the address, where its function has
/// one decimal digit. A function of two digits is written in decimal but read in
/// hexadecimal.
pub proof fn written_address_reads_back(
    address: (u16, u8, u8, u8),
    r: Result<(u16, u8, u8, u8), String>,
)
    requires
        address.3 < 10,
        pci_read(pci_text(address), r),
    ensures
        r == Ok::<(u16, u8, u8, u8), String>(address),
{
    let d = hex_padded(address.0 as nat, 4);
    let b = hex_padded(address.1 as nat, 2);
    let s = hex_padded(address.2 as nat, 2);
    let f = text::dec(address.3 as nat);
    let t = pci_text(address);
    lemma_padded_is_piece(address.0 as nat, 4);
    lemma_padded_is_piece(address.1 as nat, 2);
    lemma_padded_is_piece(address.2 as nat, 2);
    lemma_numeral_is_piece(address.3 as nat, 10);
    reveal_strlit(":");
    reveal_strlit(".");
    assert(":"@ =~= seq![':']);
    assert("."@ =~= seq!['.']);
    let t3 = s + seq!['.'] + f;
    let t2 = b + seq![':'] + t3;
    assert(t =~= d + seq![':'] + t2);
    lemma_pieces_cons(d, ':', t2);
    lemma_pieces_cons(b, ':', t3);
    lemma_pieces_cons(s, '.', f);
    lemma_piece_len_is(f, f.len());
    assert(pieces(f) == seq![f]);
    let p = pieces(t);
    assert(p =~= seq![d, b, s, f]);
    text::padded_number_reads_back(address.0 as nat, 4, 16, 0xffff);
    text::padded_number_reads_back(address.1 as nat, 2, 16, 0xff);
    text::padded_number_reads_back(address.2 as nat, 2, 16, 0xff);
    assert(text::numeral(address.3 as nat, 10) == text::numeral(address.3 as nat, 16));
    text::written_number_reads_back(address.3 as nat, 16, 0xff);
}

/// A hardware address as a text: its bytes in hexadecimal, with colons between them.
pub open spec fn mac_text(bytes: Seq<u8>) -> Seq<char>
    decreases bytes.len(),
{
    if bytes.len() == 0 {
        Seq::empty()
    } else if bytes.len() == 1 {
        hex_padded(bytes[0] as nat, 2)
    } else {
        mac_text(bytes.drop_last()) + ":"@ + hex_padded(bytes.last() as nat, 2)
    }
}

/// Writes a hardware address.
pub fn format_mac(bytes: Vec<u8>) -> (r: String)
    ensures
        r@ == mac_text(bytes@),
{
    let mut r = String::new();
    let mut i: usize = 0;
    assert(bytes@.take(0) =~= Seq::<u8>::empty());
    while i < bytes.len()
        invariant
            i <= bytes@.len(),
            r@ == mac_text(bytes@.take(i as int)),
        decreases bytes@.len() - i,
    {
        assert(bytes@.take(i + 1).drop_last() =~= bytes@.take(i as int));
        let byte = to_hex_padded(bytes[i] as u64, 2);
        if i == 0 {
            r = byte;
        } else {
            r = text::cat3(r.as_str(), ":", byte.as_str());
        }
        i += 1;
    }
    assert(bytes@.take(i as int) =~= bytes@);
    r
}

} // verus!
