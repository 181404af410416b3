//! Per-instance `/30` bridge networks: every instance gets its own block of
//! four addresses (network `.0`, gateway `.1`, instance `.2`, broadcast `.3`)
//! carved out of a base CIDR. An IPv4 address is held as its 32-bit value,
//! most significant octet first.

use std::collections::BTreeSet;
use vstd::prelude::*;
use vstd::string::StringSliceAdditionalSpecFns;

use vstd::arithmetic::power2::pow2;

use crate::host_port::{circular, fnv1a32, fnv1a32_bytes, lemma_circular_covers, lemma_circular_in_range};
use crate::text::{chars_of, decimal, digit, find, find_chars, parse_digits, parse_unsigned, parse_unsigned_chars, push_char, push_chars, push_decimal, push_str, slice_chars, split, split_chars};

verus! {

broadcast use vstd::laws_cmp::group_laws_cmp, vstd::std_specs::btree::group_btree_axioms;

// ───────────────────────── dotted-quad addresses ─────────────────────────

/// One dotted-quad octet as `Ipv4Addr::from_str` reads it: one to three
/// ASCII digits, no leading zero unless the octet is `0` itself, at most 255.
pub open spec fn octet(s: Seq<char>) -> Option<nat> {
    if 1 <= s.len() <= 3 && !(s.len() > 1 && s[0] == '0') {
        match parse_digits(s, 0, 255) {
            Ok(v) => Some(v),
            Err(_) => None,
        }
    } else {
        None
    }
}

#[verifier::opaque]
/// `Ipv4Addr::from_str`: exactly four octets separated by `.`, as a 32-bit
/// value.
pub open spec fn parse_ipv4_spec(s: Seq<char>) -> Option<u32> {
    let p = split(s, '.');
    if p.len() == 4 && octet(p[0]) is Some && octet(p[1]) is Some && octet(p[2]) is Some
        && octet(p[3]) is Some {
        Some(
            (octet(p[0]).unwrap() * 0x100_0000 + octet(p[1]).unwrap() * 0x1_0000 + octet(
                p[2],
            ).unwrap() * 0x100 + octet(p[3]).unwrap()) as u32,
        )
    } else {
        None
    }
}

/// The dotted-quad rendering of an address, as `Ipv4Addr`'s `Display` writes it.
pub open spec fn ipv4_text(a: u32) -> Seq<char> {
    decimal((a / 0x100_0000) as nat) + seq!['.'] + decimal(((a / 0x1_0000) % 0x100) as nat)
        + seq!['.'] + decimal(((a / 0x100) % 0x100) as nat) + seq!['.'] + decimal(
        (a % 0x100) as nat,
    )
}

fn octet_chars(v: &Vec<char>) -> (r: Option<u32>)
    ensures
        match r {
            Some(n) => octet(v@) == Some(n as nat),
            None => octet(v@) is None,
        },
{
    if v.len() < 1 || v.len() > 3 || (v.len() > 1 && v[0] == '0') {
        return None;
    }
    if !digit(v[0]) {
        assert(parse_digits(v@, 0, 255) is Err);
        return None;
    }
    match parse_unsigned_chars(v, 255) {
        Ok(n) => Some(n as u32),
        Err(_) => None,
    }
}

/// Parse a dotted-quad IPv4 address.
pub fn parse_ipv4(s: &str) -> (r: Option<u32>)
    ensures
        r == parse_ipv4_spec(s@),
{
    let v = chars_of(s);
    parse_ipv4_chars(&v)
}

fn parse_ipv4_chars(v: &Vec<char>) -> (r: Option<u32>)
    ensures
        r == parse_ipv4_spec(v@),
{
    reveal(parse_ipv4_spec);
    let parts = split_chars(v, '.');
    if parts.len() != 4 {
        return None;
    }
    let a = match octet_chars(&parts[0]) {
        Some(n) => n,
        None => return None,
    };
    let b = match octet_chars(&parts[1]) {
        Some(n) => n,
        None => return None,
    };
    let c = match octet_chars(&parts[2]) {
        Some(n) => n,
        None => return None,
    };
    let d = match octet_chars(&parts[3]) {
        Some(n) => n,
        None => return None,
    };
    proof {
        crate::text::lemma_parse_digits_bounded(parts[0]@, 0, 255);
        crate::text::lemma_parse_digits_bounded(parts[1]@, 0, 255);
        crate::text::lemma_parse_digits_bounded(parts[2]@, 0, 255);
        crate::text::lemma_parse_digits_bounded(parts[3]@, 0, 255);
    }
    Some(a * 0x100_0000 + b * 0x1_0000 + c * 0x100 + d)
}

/// Append the dotted-quad rendering of `a` to `out`.
pub fn push_ipv4(out: &mut String, a: u32)
    ensures
        final(out)@ == old(out)@ + ipv4_text(a),
{
    push_decimal(out, (a / 0x100_0000) as u64);
    push_char(out, '.');
    push_decimal(out, ((a / 0x1_0000) % 0x100) as u64);
    push_char(out, '.');
    push_decimal(out, ((a / 0x100) % 0x100) as u64);
    push_char(out, '.');
    push_decimal(out, (a % 0x100) as u64);
    assert(final(out)@ =~= old(out)@ + ipv4_text(a));
}

/// The dotted-quad rendering of `a`.
pub fn ipv4_to_string(a: u32) -> (s: String)
    ensures
        s@ == ipv4_text(a),
{
    let mut s = String::new();
    push_ipv4(&mut s, a);
    assert(s@ =~= ipv4_text(a));
    s
}

// ───────────────────────── the base range ─────────────────────────

/// A parsed base CIDR from which aligned `/30` blocks are allocated.
#[derive(Clone, Copy, Debug, PartialEq, Eq, Structural)]
pub struct NetBase {
    /// Network address of the base range, aligned to `prefix`.
    pub network: u32,
    /// Prefix length of the base range (`0..=32`).
    pub prefix: u8,
}

/// The netmask of a prefix length: its `prefix` high bits set.
pub open spec fn netmask(prefix: u8) -> u32 {
    if prefix == 0 {
        0
    } else {
        0xffff_ffffu32 << ((32 - prefix) as u32)
    }
}

/// Why a base CIDR was refused: the message starts with the CIDR itself.
pub open spec fn cidr_error(cidr: Seq<char>, tail: Seq<char>) -> Seq<char> {
    "invalid base CIDR '"@ + cidr + tail
}

/// `NetBase::parse`: split at the first `/`, read the network as a dotted
/// quad and the prefix as a `u8`, refuse a prefix above 32 and a network with
/// host bits set.
pub open spec fn parse_base_spec(cidr: Seq<char>) -> Result<NetBase, Seq<char>> {
    match find(cidr, seq!['/']) {
        None => Err(cidr_error(cidr, "': expected '<network>/<prefix>'"@)),
        Some(i) => parse_halves_spec(
            cidr,
            cidr.subrange(0, i),
            cidr.subrange(i + 1, cidr.len() as int),
        ),
    }
}

/// The network and prefix halves of a base CIDR, read in that order.
pub open spec fn parse_halves_spec(cidr: Seq<char>, addr: Seq<char>, pre: Seq<char>) -> Result<
    NetBase,
    Seq<char>,
> {
    match parse_ipv4_spec(addr) {
        None => Err(cidr_error(cidr, "': bad network '"@ + addr + "'"@)),
        Some(network) => match parse_unsigned(pre, 255) {
            Err(_) => Err(cidr_error(cidr, "': bad prefix '"@ + pre + "'"@)),
            Ok(p) => check_base_spec(cidr, network, p),
        },
    }
}

/// The range checks on a parsed network and prefix.
pub open spec fn check_base_spec(cidr: Seq<char>, network: u32, p: nat) -> Result<
    NetBase,
    Seq<char>,
> {
    if p > 32 {
        Err(cidr_error(cidr, "': prefix "@ + decimal(p) + " out of range"@))
    } else if network & netmask(p as u8) != network {
        Err(cidr_error(cidr, "': network address has host bits set"@))
    } else {
        Ok(NetBase { network, prefix: p as u8 })
    }
}

fn cidr_err(cidr: &str, tail: &str) -> (e: String)
    ensures
        e@ == cidr_error(cidr@, tail@),
{
    let mut e = String::new();
    push_str(&mut e, "invalid base CIDR '");
    push_str(&mut e, cidr);
    push_str(&mut e, tail);
    assert(e@ =~= cidr_error(cidr@, tail@));
    e
}

fn cidr_err_quoted(cidr: &str, label: &str, part: &Vec<char>) -> (e: String)
    ensures
        e@ == cidr_error(cidr@, label@ + part@ + "'"@),
{
    let mut e = String::new();
    push_str(&mut e, "invalid base CIDR '");
    push_str(&mut e, cidr);
    push_str(&mut e, label);
    push_chars(&mut e, part);
    push_str(&mut e, "'");
    assert(e@ =~= cidr_error(cidr@, label@ + part@ + "'"@));
    e
}

impl NetBase {
    /// Number of aligned `/30` blocks of the base range: `2^(30 - prefix)`,
    /// none for a range narrower than `/30`.
    pub open spec fn blocks(self) -> nat {
        if self.prefix > 30 {
            0
        } else {
            pow2((30 - self.prefix) as nat)
        }
    }

    /// Network address of the `j`-th block.
    pub open spec fn block(self, j: int) -> u32 {
        (self.network + 4 * j) as u32
    }

    /// Every block address of the range fits in 32 bits.
    pub open spec fn fits(self) -> bool {
        self.network + 4 * self.blocks() <= 0x1_0000_0000
    }

    /// Parse a `"<network>/<prefix>"` base CIDR, refusing malformed strings,
    /// out-of-range prefixes and networks with host bits set.
    pub fn parse(cidr: &str) -> (r: Result<NetBase, String>)
        ensures
            match r {
                Ok(b) => parse_base_spec(cidr@) == Ok::<NetBase, Seq<char>>(b),
                Err(e) => parse_base_spec(cidr@) == Err::<NetBase, Seq<char>>(e@),
            },
    {
        let v = chars_of(cidr);
        let slash = vec!['/'];
        assert(slash@ =~= seq!['/']);
        match find_chars(&v, &slash) {
            None => Err(cidr_err(cidr, "': expected '<network>/<prefix>'")),
            Some(i) => {
                let r = Self::parse_parts(cidr, &v, i);
                assert(find(cidr@, seq!['/']) == Some(i as int));
                r
            },
        }
    }

    fn parse_parts(cidr: &str, v: &Vec<char>, i: usize) -> (r: Result<NetBase, String>)
        requires
            v@ == cidr@,
            crate::text::matches_at(cidr@, seq!['/'], i as int),
        ensures
            match r {
                Ok(b) => parse_halves_spec(cidr@, cidr@.subrange(0, i as int), cidr@.subrange(i + 1, cidr@.len() as int)) == Ok::<NetBase, Seq<char>>(b),
                Err(e) => parse_halves_spec(cidr@, cidr@.subrange(0, i as int), cidr@.subrange(i + 1, cidr@.len() as int)) == Err::<NetBase, Seq<char>>(e@),
            },
    {
        assert(seq!['/'].len() == 1);
        let n = v.len();
        assert(i < n);
        let addr_v = slice_chars(v, 0, i);
        let pre_v = slice_chars(v, i + 1, n);
        let network = match parse_ipv4_chars(&addr_v) {
            Some(n) => n,
            None => return Err(cidr_err_quoted(cidr, "': bad network '", &addr_v)),
        };
        match parse_unsigned_chars(&pre_v, 255) {
            Ok(p) => Self::check(cidr, network, p),
            Err(_) => Err(cidr_err_quoted(cidr, "': bad prefix '", &pre_v)),
        }
    }

    fn check(cidr: &str, network: u32, p: u64) -> (r: Result<NetBase, String>)
        requires
            p <= 255,
        ensures
            match r {
                Ok(b) => check_base_spec(cidr@, network, p as nat) == Ok::<NetBase, Seq<char>>(b),
                Err(e) => check_base_spec(cidr@, network, p as nat) == Err::<NetBase, Seq<char>>(e@),
            },
    {
        if p > 32 {
            let mut e = String::new();
            push_str(&mut e, "invalid base CIDR '");
            push_str(&mut e, cidr);
            push_str(&mut e, "': prefix ");
            push_decimal(&mut e, p);
            push_str(&mut e, " out of range");
            assert(e@ =~= cidr_error(cidr@, "': prefix "@ + decimal(p as nat) + " out of range"@));
            return Err(e);
        }
        let base = NetBase { network, prefix: p as u8 };
        if base.clean_network() != network {
            return Err(cidr_err(cidr, "': network address has host bits set"));
        }
        Ok(base)
    }

    /// Number of aligned `/30` blocks the base range holds.
    pub fn block_count(&self) -> (r: u64)
        ensures
            r == self.blocks(),
            r <= 0x4000_0000,
    {
        if self.prefix > 30 {
            return 0;
        }
        let shift: u64 = (30 - self.prefix) as u64;
        proof {
            vstd::bits::lemma_u64_pow2_no_overflow(shift as nat);
            vstd::bits::lemma_u64_shl_is_mul(1, shift);
            if shift < 30 {
                vstd::arithmetic::power2::lemma_pow2_strictly_increases(shift as nat, 30);
            }
            vstd::arithmetic::power2::lemma2_to64();
        }
        1u64 << shift
    }

    /// The network address with its host bits cleared.
    fn clean_network(&self) -> (r: u32)
        requires
            self.prefix <= 32,
        ensures
            r == self.network & netmask(self.prefix),
    {
        let mask: u32 = if self.prefix == 0 {
            0
        } else {
            u32::MAX << (32 - self.prefix) as u32
        };
        self.network & mask
    }
}

// ───────────────────────── block allocation ─────────────────────────

/// Blocks `lo..hi` of `base` are all in `used`.
pub open spec fn blocks_used(used: Set<u32>, base: NetBase, lo: int, hi: int) -> bool {
    forall|j: int| lo <= j < hi ==> #[trigger] used.contains(base.block(j))
}

/// The `i`-th block index of the circular scan of `base` that starts at block
/// `from`.
pub open spec fn scan_index(base: NetBase, from: int, i: int) -> int {
    circular(0, base.blocks() as int, from, i)
}

/// The first `n` blocks of the circular scan from `from` are all in `used`.
pub open spec fn scan_used(used: Set<u32>, base: NetBase, from: int, n: int) -> bool {
    forall|j: int| 0 <= j < n ==> #[trigger] used.contains(base.block(scan_index(base, from, j)))
}

/// Each of the first `n` blocks of the circular scan from `from` is in
/// `used` or was refused by `acquire`.
pub open spec fn scan_refused<L, F: Fn(u32) -> Option<L>>(used: Set<u32>, base: NetBase, from: int, n: int, acquire: F) -> bool {
    forall|j: int|
        0 <= j < n ==> #[trigger] used.contains(base.block(scan_index(base, from, j))) || call_ensures(
            acquire,
            (base.block(scan_index(base, from, j)),),
            None::<L>,
        )
}

/// The lowest free `/30` block of `base`, skipping the block addresses in
/// `used`; `None` when every block of the range is taken.
pub fn lowest_free_subnet(used: &BTreeSet<u32>, base: &NetBase) -> (r: Option<u32>)
    requires
        base.fits(),
    ensures
        match r {
            Some(a) => exists|i: int|
                0 <= i < base.blocks() && a == #[trigger] base.block(i) && !used@.contains(a)
                    && blocks_used(used@, *base, 0, i),
            None => blocks_used(used@, *base, 0, base.blocks() as int),
        },
{
    let start = base.network;
    let count = base.block_count();
    let mut i: u64 = 0;
    while i < count
        invariant
            i <= count,
            count == base.blocks(),
            count <= 0x4000_0000,
            start == base.network,
            base.fits(),
            blocks_used(used@, *base, 0, i as int),
        decreases count - i,
    {
        let candidate: u32 = start + (i as u32) * 4;
        assert(candidate == base.block(i as int));
        if !used.contains(&candidate) {
            return Some(candidate);
        }
        i = i + 1;
    }
    None
}

/// The lowest free `/30` block scanning circularly from block index
/// `from_block` (wrapping within `base`), skipping `used`; `None` when every
/// block is taken or the range holds none.
pub fn lowest_free_subnet_from(used: &BTreeSet<u32>, base: &NetBase, from_block: u64) -> (r:
    Option<u32>)
    requires
        base.fits(),
    ensures
        match r {
            Some(a) => exists|i: int|
                0 <= i < base.blocks() && a == #[trigger] base.block(scan_index(*base, from_block as int, i))
                    && !used@.contains(a) && scan_used(used@, *base, from_block as int, i),
            None => blocks_used(used@, *base, 0, base.blocks() as int),
        },
{
    let count = base.block_count();
    if count == 0 {
        return None;
    }
    let start = base.network;
    let offset = from_block % count;
    let mut i: u64 = 0;
    while i < count
        invariant
            0 < count <= 0x4000_0000,
            count == base.blocks(),
            offset == from_block % count,
            i <= count,
            start == base.network,
            base.fits(),
            scan_used(used@, *base, from_block as int, i as int),
        decreases count - i,
    {
        proof {
            lemma_circular_in_range(0, count as int, from_block as int, i as int);
        }
        let idx = (offset + i) % count;
        assert(idx == scan_index(*base, from_block as int, i as int));
        let candidate: u32 = start + (idx as u32) * 4;
        assert(candidate == base.block(idx as int));
        if !used.contains(&candidate) {
            return Some(candidate);
        }
        i = i + 1;
    }
    assert forall|j: int| 0 <= j < base.blocks() implies #[trigger] used@.contains(base.block(j)) by {
        lemma_circular_covers(0, count as int, from_block as int, j);
        let k = (j - (from_block as int) % (count as int) + count) % (count as int);
        assert(used@.contains(base.block(scan_index(*base, from_block as int, k))));
    }
    None
}

/// Number of blocks among the first `k` of `base` that are not in `busy`.
pub open spec fn free_blocks(busy: Set<u32>, base: NetBase, k: nat) -> nat
    decreases k,
{
    if k == 0 {
        0
    } else {
        free_blocks(busy, base, (k - 1) as nat) + if busy.contains(base.block(k - 1)) {
            0nat
        } else {
            1nat
        }
    }
}

proof fn lemma_free_blocks_insert(busy: Set<u32>, base: NetBase, k: nat, m: int)
    requires
        base.fits(),
        k <= base.blocks(),
        0 <= m < k,
        !busy.contains(base.block(m)),
    ensures
        free_blocks(busy.insert(base.block(m)), base, k) + 1 == free_blocks(busy, base, k),
    decreases k,
{
    let c = base.block(m);
    if m < k - 1 {
        lemma_free_blocks_insert(busy, base, (k - 1) as nat, m);
        assert(base.block(k - 1) != c);
        assert(busy.insert(c).contains(base.block(k - 1)) == busy.contains(base.block(k - 1)));
    } else {
        lemma_free_blocks_unchanged(busy, base, (k - 1) as nat, m);
    }
}

proof fn lemma_free_blocks_unchanged(busy: Set<u32>, base: NetBase, k: nat, m: int)
    requires
        base.fits(),
        k <= base.blocks(),
        k <= m < base.blocks(),
    ensures
        free_blocks(busy.insert(base.block(m)), base, k) == free_blocks(busy, base, k),
    decreases k,
{
    if k > 0 {
        lemma_free_blocks_unchanged(busy, base, (k - 1) as nat, m);
        assert(base.block(k - 1) != base.block(m));
        assert(busy.insert(base.block(m)).contains(base.block(k - 1)) == busy.contains(
            base.block(k - 1),
        ));
    }
}

/// A reserved `/30` block: its network address plus the handle that holds
/// its reservation for as long as it lives.
pub struct ReservedSubnet<L> {
    pub subnet: u32,
    pub lock: L,
}

/// Allocate a `/30` block: skip the blocks in `used`, then, in circular
/// order from `from_block` (plain ascending order from block 0), try to
/// reserve each candidate with `acquire`; a candidate whose reservation is
/// refused is skipped and the scan resumes. `None` when every block is
/// either used or refused.
pub fn try_allocate_subnet<L, F: Fn(u32) -> Option<L>>(
    used: &BTreeSet<u32>,
    base: &NetBase,
    from_block: u64,
    acquire: &F,
) -> (r: Option<ReservedSubnet<L>>)
    requires
        base.fits(),
        forall|a: u32| call_requires(*acquire, (a,)),
    ensures
        match r {
            Some(res) => (exists|i: int| 0 <= i < base.blocks() && res.subnet == #[trigger] base.block(i))
                && !used@.contains(res.subnet) && call_ensures(
                *acquire,
                (res.subnet,),
                Some(res.lock),
            ) && exists|i: int|
                0 <= i < base.blocks() && res.subnet == #[trigger] base.block(
                    scan_index(*base, from_block as int, i),
                ) && scan_refused(used@, *base, from_block as int, i, *acquire),
            None => forall|j: int|
                0 <= j < base.blocks() ==> used@.contains(#[trigger] base.block(j)) || call_ensures(
                    *acquire,
                    (base.block(j),),
                    None::<L>,
                ),
        },
{
    let mut busy = used.clone();
    loop
        invariant
            base.fits(),
            forall|a: u32| call_requires(*acquire, (a,)),
            forall|a: u32| #[trigger] used@.contains(a) ==> busy@.contains(a),
            forall|a: u32|
                #[trigger] busy@.contains(a) ==> used@.contains(a) || call_ensures(
                    *acquire,
                    (a,),
                    None::<L>,
                ),
        decreases free_blocks(busy@, *base, base.blocks()),
    {
        let found = if from_block == 0 {
            lowest_free_subnet(&busy, base)
        } else {
            lowest_free_subnet_from(&busy, base, from_block)
        };
        let candidate = match found {
            None => {
                assert forall|j: int| 0 <= j < base.blocks() implies used@.contains(
                    #[trigger] base.block(j),
                ) || call_ensures(*acquire, (base.block(j),), None::<L>) by {
                    assert(busy@.contains(base.block(j)));
                }
                return None;
            },
            Some(c) => c,
        };
        let ghost m: int = if from_block == 0 {
            choose|i: int|
                0 <= i < base.blocks() && candidate == #[trigger] base.block(i) && !busy@.contains(candidate)
                    && blocks_used(busy@, *base, 0, i)
        } else {
            let i = choose|i: int|
                0 <= i < base.blocks() && candidate == #[trigger] base.block(
                    scan_index(*base, from_block as int, i),
                ) && !busy@.contains(candidate) && scan_used(busy@, *base, from_block as int, i);
            scan_index(*base, from_block as int, i)
        };
        proof {
            if from_block != 0 {
                let i = choose|i: int|
                    0 <= i < base.blocks() && candidate == #[trigger] base.block(
                        scan_index(*base, from_block as int, i),
                    ) && !busy@.contains(candidate) && scan_used(busy@, *base, from_block as int, i);
                lemma_circular_in_range(0, base.blocks() as int, from_block as int, i);
            }
            assert(0 <= m < base.blocks() && candidate == base.block(m));
        }
        let ghost k: int = if from_block == 0 {
            m
        } else {
            choose|i: int|
                0 <= i < base.blocks() && candidate == #[trigger] base.block(
                    scan_index(*base, from_block as int, i),
                ) && !busy@.contains(candidate) && scan_used(busy@, *base, from_block as int, i)
        };
        proof {
            if from_block == 0 {
                assert forall|j: int| 0 <= j <= m implies #[trigger] scan_index(*base, 0, j) == j by {
                    vstd::arithmetic::div_mod::lemma_small_mod(0nat, base.blocks());
                    vstd::arithmetic::div_mod::lemma_small_mod(j as nat, base.blocks());
                }
            }
            assert(candidate == base.block(scan_index(*base, from_block as int, k)));
            assert forall|j: int| 0 <= j < k implies #[trigger] used@.contains(
                base.block(scan_index(*base, from_block as int, j)),
            ) || call_ensures(*acquire, (base.block(scan_index(*base, from_block as int, j)),), None::<L>) by {
                if from_block == 0 {
                    assert(scan_index(*base, 0, j) == j);
                    assert(busy@.contains(base.block(j)));
                } else {
                    assert(busy@.contains(base.block(scan_index(*base, from_block as int, j))));
                }
            }
        }
        match acquire(candidate) {
            Some(lock) => {
                proof {
                    if used@.contains(candidate) {
                        assert(busy@.contains(candidate));
                    }
                }
                return Some(ReservedSubnet { subnet: candidate, lock });
            },
            None => {
                proof {
                    lemma_free_blocks_insert(busy@, *base, base.blocks(), m);
                }
                busy.insert(candidate);
            },
        }
    }
}

/// Deterministic per-instance spread across the pool: FNV-1a of the token's
/// UTF-8 bytes, as a block index of `base` (`0` for a range with no block).
pub fn spread_block_offset(token: &str, base: &NetBase) -> (r: u64)
    ensures
        base.blocks() == 0 ==> r == 0,
        base.blocks() > 0 ==> r == fnv1a32(token.spec_bytes()) as nat % base.blocks() && r
            < base.blocks(),
{
    let count = base.block_count();
    if count == 0 {
        return 0;
    }
    let hash = fnv1a32_bytes(token.as_bytes());
    (hash as u64) % count
}

/// Gateway address of a `/30` block: its network address plus one.
pub fn gateway_ip(network: u32) -> (r: u32)
    requires
        network < u32::MAX,
    ensures
        r == network + 1,
{
    network + 1
}

/// Instance address of a `/30` block: its network address plus two.
pub fn instance_ip(network: u32) -> (r: u32)
    requires
        network < u32::MAX - 1,
    ensures
        r == network + 2,
{
    network + 2
}

/// Deterministic network name of an instance: `ow-` and its id.
pub fn network_name(instance_id: &str) -> (r: String)
    ensures
        r@ == "ow-"@ + instance_id@,
{
    let mut r = String::new();
    push_str(&mut r, "ow-");
    push_str(&mut r, instance_id);
    assert(r@ =~= "ow-"@ + instance_id@);
    r
}

// ───────────────────────── laws ─────────────────────────

proof fn lemma_aligned_room(n: u32, s: u32)
    requires
        2 <= s < 32,
        n & (0xffff_ffffu32 << s) == n,
    ensures
        (n as u64) + (1u64 << (s as u64)) <= 0x1_0000_0000u64,
{
    assert((n as u64) + (1u64 << (s as u64)) <= 0x1_0000_0000u64) by (bit_vector)
        requires
            2 <= s < 32,
            n & (0xffff_ffffu32 << s) == n,
    ;
}

/// A base that `NetBase::parse` accepts has a prefix of at most 32, no host
/// bits set, and every one of its `/30` blocks lies inside the 32-bit address
/// space, so the block scans can run on it.
#[verifier::rlimit(40)]
pub proof fn law_parsed_base_is_aligned_and_fits(cidr: Seq<char>)
    requires
        parse_base_spec(cidr) is Ok,
    ensures
        ({
            let b = parse_base_spec(cidr)->Ok_0;
            &&& b.prefix <= 32
            &&& b.network & netmask(b.prefix) == b.network
            &&& b.fits()
        }),
{
    let b = parse_base_spec(cidr)->Ok_0;
    let n = b.network;
    let p = b.prefix;
    vstd::arithmetic::power2::lemma2_to64();
    if p == 0 {
        assert(n & 0u32 == n ==> n == 0) by (bit_vector);
        assert(b.blocks() == pow2(30));
    } else if p <= 30 {
        let sh: u32 = (32 - p) as u32;
        assert(netmask(p) == 0xffff_ffffu32 << sh);
        lemma_aligned_room(n, sh);
        vstd::bits::lemma_u64_pow2_no_overflow(sh as nat);
        vstd::bits::lemma_u64_shl_is_mul(1, sh as u64);
        vstd::arithmetic::power2::lemma_pow2_adds(2, (30 - p) as nat);
        assert(pow2(sh as nat) == 4 * pow2((30 - p) as nat));
    }
}

/// Each `/30` block of a range is a segment of its own: two distinct blocks
/// share no address, and every block's gateway (`+1`) and instance (`+2`)
/// addresses are two distinct addresses strictly inside it, so
/// `gateway_ip` and `instance_ip` apply to every block of the range.
pub proof fn law_blocks_are_disjoint_segments(base: NetBase, i: int, j: int, a: int)
    requires
        base.fits(),
        0 <= i < base.blocks(),
        0 <= j < base.blocks(),
        i != j,
    ensures
        !(base.block(i) <= a < base.block(i) + 4 && base.block(j) <= a < base.block(j) + 4),
        base.block(i) + 3 <= u32::MAX,
        base.block(i) < base.block(i) + 1 < base.block(i) + 2 < base.block(i) + 3,
{
    assert(base.network + 4 * i < 0x1_0000_0000);
    assert(base.network + 4 * j < 0x1_0000_0000);
    assert(base.block(i) == base.network + 4 * i);
    assert(base.block(j) == base.network + 4 * j);
}

} // verus!
