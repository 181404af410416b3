//! Per-container bandwidth limits with `tc`/HTB: the argument vectors of the
//! three `tc` invocations, the delete-then-add sequence that applies a limit,
//! and the parsers of `ip -o link show` output that locate the host-side veth
//! of a container.

use vstd::prelude::*;

use crate::text::{chars_of, decimal, find, find_chars, lines, lines_chars, owned, parse_unsigned_opt, parse_u32_chars, push_decimal, push_str, slice_chars, split, split_chars, string_of, trim, trim_chars};

verus! {

/// The character contents of each string of a sequence.
pub open spec fn views(v: Seq<String>) -> Seq<Seq<char>> {
    v.map_values(|s: String| s@)
}

/// `tc qdisc add`: an HTB root qdisc whose default class is `1:10`.
pub open spec fn htb_qdisc_args_spec(iface: Seq<char>) -> Seq<Seq<char>> {
    seq![
        "/usr/sbin/tc"@,
        "qdisc"@,
        "add"@,
        "dev"@,
        iface,
        "root"@,
        "handle"@,
        "1:"@,
        "htb"@,
        "default"@,
        "10"@,
    ]
}

/// `tc class add`: the default HTB class `1:10` at `rate_mbps` megabits per
/// second.
pub open spec fn htb_class_args_spec(iface: Seq<char>, rate_mbps: u64) -> Seq<Seq<char>> {
    seq![
        "/usr/sbin/tc"@,
        "class"@,
        "add"@,
        "dev"@,
        iface,
        "parent"@,
        "1:"@,
        "classid"@,
        "1:10"@,
        "htb"@,
        "rate"@,
        decimal(rate_mbps as nat) + "mbit"@,
    ]
}

/// `tc qdisc del`: remove any root qdisc of the interface.
pub open spec fn htb_delete_args_spec(iface: Seq<char>) -> Seq<Seq<char>> {
    seq!["/usr/sbin/tc"@, "qdisc"@, "del"@, "dev"@, iface, "root"@]
}

/// Arguments installing an HTB root qdisc with the single default class
/// `1:10`; the first argument is the absolute path of `tc`.
pub fn build_htb_qdisc_args(iface: &str) -> (r: Vec<String>)
    ensures
        views(r@) == htb_qdisc_args_spec(iface@),
{
    let mut r: Vec<String> = Vec::new();
    r.push(owned("/usr/sbin/tc"));
    r.push(owned("qdisc"));
    r.push(owned("add"));
    r.push(owned("dev"));
    r.push(owned(iface));
    r.push(owned("root"));
    r.push(owned("handle"));
    r.push(owned("1:"));
    r.push(owned("htb"));
    r.push(owned("default"));
    r.push(owned("10"));
    assert(views(r@) =~= htb_qdisc_args_spec(iface@));
    r
}

/// Arguments adding the default HTB class at `rate_mbps` megabits per second.
pub fn build_htb_class_args(iface: &str, rate_mbps: u64) -> (r: Vec<String>)
    ensures
        views(r@) == htb_class_args_spec(iface@, rate_mbps),
{
    let mut rate = String::new();
    push_decimal(&mut rate, rate_mbps);
    push_str(&mut rate, "mbit");
    let mut r: Vec<String> = Vec::new();
    r.push(owned("/usr/sbin/tc"));
    r.push(owned("class"));
    r.push(owned("add"));
    r.push(owned("dev"));
    r.push(owned(iface));
    r.push(owned("parent"));
    r.push(owned("1:"));
    r.push(owned("classid"));
    r.push(owned("1:10"));
    r.push(owned("htb"));
    r.push(owned("rate"));
    r.push(rate);
    assert(views(r@) =~= htb_class_args_spec(iface@, rate_mbps));
    r
}

/// Arguments removing any root qdisc from `iface`.
pub fn build_htb_delete_args(iface: &str) -> (r: Vec<String>)
    ensures
        views(r@) == htb_delete_args_spec(iface@),
{
    let mut r: Vec<String> = Vec::new();
    r.push(owned("/usr/sbin/tc"));
    r.push(owned("qdisc"));
    r.push(owned("del"));
    r.push(owned("dev"));
    r.push(owned(iface));
    r.push(owned("root"));
    assert(views(r@) =~= htb_delete_args_spec(iface@));
    r
}

/// One call of `runner` in `pid`'s namespace with arguments `args` may have
/// answered `res`.
pub open spec fn ran<F: Fn(u32, &[String]) -> Result<String, String>>(
    runner: F,
    pid: u32,
    args: Seq<Seq<char>>,
    res: Result<String, String>,
) -> bool {
    exists|a: &[String]| views(a@) == args && #[trigger] call_ensures(runner, (pid, a), res)
}

/// Apply an HTB egress limit on `iface` by running `tc` through `runner` in
/// the network namespace of `pid`: a delete whose outcome is ignored (so a
/// stale qdisc never blocks re-application), then the qdisc, then the class.
/// The first of the last two that fails ends the sequence with its error.
pub fn apply_htb<F: Fn(u32, &[String]) -> Result<String, String>>(
    runner: &F,
    pid: u32,
    iface: &str,
    rate_mbps: u64,
) -> (r: Result<(), String>)
    requires
        forall|p: u32, a: &[String]| call_requires(*runner, (p, a)),
    ensures
        (exists|res: Result<String, String>| ran(*runner, pid, htb_delete_args_spec(iface@), res)),
        match r {
            Ok(()) => (exists|out: String|
                ran(*runner, pid, htb_qdisc_args_spec(iface@), Ok::<String, String>(out))) && (
            exists|out: String|
                ran(
                    *runner,
                    pid,
                    htb_class_args_spec(iface@, rate_mbps),
                    Ok::<String, String>(out),
                )),
            Err(e) => ran(*runner, pid, htb_qdisc_args_spec(iface@), Err::<String, String>(e)) || (
            (exists|out: String|
                ran(*runner, pid, htb_qdisc_args_spec(iface@), Ok::<String, String>(out)))
                && ran(*runner, pid, htb_class_args_spec(iface@, rate_mbps), Err::<String, String>(e))),
        },
{
    let del = build_htb_delete_args(iface);
    let d = runner(pid, del.as_slice());
    assert(ran(*runner, pid, htb_delete_args_spec(iface@), d));
    let qdisc = build_htb_qdisc_args(iface);
    let q = runner(pid, qdisc.as_slice());
    assert(ran(*runner, pid, htb_qdisc_args_spec(iface@), q));
    match q {
        Err(e) => {
            return Err(e);
        },
        Ok(_) => {},
    }
    let class = build_htb_class_args(iface, rate_mbps);
    let c = runner(pid, class.as_slice());
    assert(ran(*runner, pid, htb_class_args_spec(iface@, rate_mbps), c));
    match c {
        Err(e) => Err(e),
        Ok(_) => Ok(()),
    }
}

// ───────────────────────── `ip -o link show` parsing ─────────────────────────

/// The text before the first `:`, trimmed, read as a `u32`.
pub open spec fn ifindex_spec(s: Seq<char>) -> Option<nat> {
    parse_unsigned_opt(trim(split(s, ':')[0]), u32::MAX as nat)
}

/// `str::trim_start_matches("if")`: every leading `if` removed.
pub open spec fn strip_if(s: Seq<char>) -> Seq<char>
    decreases s.len(),
{
    if s.len() >= 2 && s[0] == 'i' && s[1] == 'f' {
        strip_if(s.subrange(2, s.len() as int))
    } else {
        s
    }
}

/// The peer index after `@if` of a `N: name@ifM: ...` link line.
pub open spec fn peer_ifindex_spec(s: Seq<char>) -> Option<nat> {
    match find(s, seq![':']) {
        None => None,
        Some(i) => {
            peer_after_colon(s.subrange(i + 1, s.len() as int))
        },
    }
}

/// The peer index read from the text after the first `:` of a link line.
pub open spec fn peer_after_colon(rest: Seq<char>) -> Option<nat> {
    let parts = split(trim(rest), '@');
    if parts.len() < 2 {
        None
    } else {
        parse_unsigned_opt(trim(split(strip_if(parts[1]), ':')[0]), u32::MAX as nat)
    }
}

#[verifier::opaque]
/// The `(name, own index)` of one host link line: the index before the
/// first `:`, the name after it up to any `@`, both trimmed.
pub open spec fn veth_of(line: Seq<char>) -> Option<(Seq<char>, nat)> {
    match find(line, seq![':']) {
        None => None,
        Some(i) => veth_halves(line.subrange(0, i), line.subrange(i + 1, line.len() as int)),
    }
}

/// The veth of a link line split at its first `:`.
pub open spec fn veth_halves(head: Seq<char>, rest: Seq<char>) -> Option<(Seq<char>, nat)> {
    match parse_unsigned_opt(trim(head), u32::MAX as nat) {
        None => None,
        Some(idx) => Some((trim(split(rest, '@')[0]), idx)),
    }
}

/// The veths of the lines that parse, in order.
pub open spec fn veths_spec(ls: Seq<Seq<char>>) -> Seq<(Seq<char>, nat)>
    decreases ls.len(),
{
    if ls.len() == 0 {
        seq![]
    } else {
        let p = veths_spec(ls.drop_last());
        match veth_of(ls.last()) {
            Some(x) => p.push(x),
            None => p,
        }
    }
}

/// The interface index of `ip -o link show eth0` output, e.g. `5` of
/// `5: eth0@if6: <BROADCAST,...> mtu 1500 ...`.
pub fn parse_ifindex(output: &str) -> (r: Option<u32>)
    ensures
        match r {
            Some(n) => ifindex_spec(output@) == Some(n as nat),
            None => ifindex_spec(output@) is None,
        },
{
    let v = chars_of(output);
    let parts = split_chars(&v, ':');
    proof {
        crate::text::lemma_split_nonempty(v@, ':');
    }
    let first = trim_chars(&parts[0]);
    parse_u32_chars(&first)
}

fn strip_if_chars(v: &Vec<char>) -> (r: Vec<char>)
    ensures
        r@ == strip_if(v@),
{
    let n = v.len();
    let mut i: usize = 0;
    assert(v@.subrange(0, n as int) =~= v@);
    while n - i >= 2 && v[i] == 'i' && v[i + 1] == 'f'
        invariant
            n == v.len(),
            i <= n,
            strip_if(v@.subrange(i as int, n as int)) == strip_if(v@),
        decreases n - i,
    {
        let ghost rest = v@.subrange(i as int, n as int);
        assert(rest.subrange(2, rest.len() as int) =~= v@.subrange(i + 2, n as int));
        i = i + 2;
    }
    slice_chars(v, i, n)
}

fn peer_after_colon_chars(rest: &Vec<char>) -> (r: Option<u32>)
    ensures
        match r {
            Some(n) => peer_after_colon(rest@) == Some(n as nat),
            None => peer_after_colon(rest@) is None,
        },
{
    let name_peer = trim_chars(rest);
    let parts = split_chars(&name_peer, '@');
    if parts.len() < 2 {
        return None;
    }
    let peer = strip_if_chars(&parts[1]);
    let pieces = split_chars(&peer, ':');
    proof {
        crate::text::lemma_split_nonempty(peer@, ':');
    }
    let head = trim_chars(&pieces[0]);
    parse_u32_chars(&head)
}

/// The host-side peer index of the container's `ip -o link show eth0`
/// output: the number after `@if`, e.g. `5` of `2: eth0@if5: <...>`. That
/// index is unique across the host's veths, unlike the container-side one.
pub fn parse_peer_ifindex(output: &str) -> (r: Option<u32>)
    ensures
        match r {
            Some(n) => peer_ifindex_spec(output@) == Some(n as nat),
            None => peer_ifindex_spec(output@) is None,
        },
{
    let v = chars_of(output);
    let colon = vec![':'];
    assert(colon@ =~= seq![':']);
    match find_chars(&v, &colon) {
        None => None,
        Some(i) => {
            assert(seq![':'].len() == 1);
            let n = v.len();
            assert(i < n);
            let after = slice_chars(&v, i + 1, n);
            peer_after_colon_chars(&after)
        },
    }
}

fn veth_halves_chars(head: &Vec<char>, rest: &Vec<char>) -> (r: Option<(String, u32)>)
    ensures
        match r {
            Some(x) => veth_halves(head@, rest@) == Some((x.0@, x.1 as nat)),
            None => veth_halves(head@, rest@) is None,
        },
{
    let idx_trim = trim_chars(head);
    let idx = match parse_u32_chars(&idx_trim) {
        None => return None,
        Some(k) => k,
    };
    let pieces = split_chars(rest, '@');
    proof {
        crate::text::lemma_split_nonempty(rest@, '@');
    }
    let name = trim_chars(&pieces[0]);
    Some((string_of(&name), idx))
}

fn veth_of_chars(line: &Vec<char>) -> (r: Option<(String, u32)>)
    ensures
        match r {
            Some(x) => veth_of(line@) == Some((x.0@, x.1 as nat)),
            None => veth_of(line@) is None,
        },
{
    reveal(veth_of);
    let colon = vec![':'];
    assert(colon@ =~= seq![':']);
    match find_chars(line, &colon) {
        None => None,
        Some(i) => {
            assert(seq![':'].len() == 1);
            let n = line.len();
            assert(i < n);
            let head = slice_chars(line, 0, i);
            let rest = slice_chars(line, i + 1, n);
            veth_halves_chars(&head, &rest)
        },
    }
}

/// The character contents of each line.
pub open spec fn line_views(ls: Seq<Vec<char>>) -> Seq<Seq<char>> {
    ls.map_values(|l: Vec<char>| l@)
}

fn veths_of_lines(ls: &Vec<Vec<char>>) -> (r: Vec<(String, u32)>)
    ensures
        r.len() == veths_spec(line_views(ls@)).len(),
        forall|i: int|
            0 <= i < r.len() ==> (#[trigger] r[i]).0@ == veths_spec(line_views(ls@))[i].0 && r[i].1
                == veths_spec(line_views(ls@))[i].1,
{
    let ghost all = line_views(ls@);
    let mut r: Vec<(String, u32)> = Vec::new();
    let mut k: usize = 0;
    while k < ls.len()
        invariant
            k <= ls.len(),
            all == line_views(ls@),
            r.len() == veths_spec(all.subrange(0, k as int)).len(),
            forall|j: int|
                0 <= j < r.len() ==> (#[trigger] r[j]).0@ == veths_spec(all.subrange(0, k as int))[j].0
                    && r[j].1 == veths_spec(all.subrange(0, k as int))[j].1,
        decreases ls.len() - k,
    {
        let ghost before = all.subrange(0, k as int);
        let ghost after = all.subrange(0, k + 1);
        assert(after.drop_last() =~= before);
        assert(after.last() == ls@[k as int]@);
        let x = veth_of_chars(&ls[k]);
        match x {
            Some(x) => {
                r.push(x);
            },
            None => {},
        }
        k = k + 1;
        assert(all.subrange(0, k as int) == after);
    }
    assert(all.subrange(0, ls.len() as int) =~= all);
    r
}

/// The `(veth name, own index)` pairs of the host's `ip -o link show type
/// veth` output, one per line that parses, in order.
pub fn parse_host_veths(output: &str) -> (r: Vec<(String, u32)>)
    ensures
        r.len() == veths_spec(lines(output@)).len(),
        forall|i: int|
            0 <= i < r.len() ==> (#[trigger] r[i]).0@ == veths_spec(lines(output@))[i].0 && r[i].1
                == veths_spec(lines(output@))[i].1,
{
    let v = chars_of(output);
    let ls = lines_chars(&v);
    assert(line_views(ls@) =~= lines(output@));
    veths_of_lines(&ls)
}

/// The host-side veth whose own index is `host_ifindex`: the name of the
/// first such pair.
pub fn find_host_veth(veths: &[(String, u32)], host_ifindex: u32) -> (r: Option<String>)
    ensures
        match r {
            Some(name) => exists|i: int|
                0 <= i < veths@.len() && (#[trigger] veths@[i]).1 == host_ifindex && name@
                    == veths@[i].0@ && forall|j: int| 0 <= j < i ==> veths@[j].1 != host_ifindex,
            None => forall|i: int| 0 <= i < veths@.len() ==> (#[trigger] veths@[i]).1 != host_ifindex,
        },
{
    let mut i: usize = 0;
    while i < veths.len()
        invariant
            i <= veths@.len(),
            forall|j: int| 0 <= j < i ==> (#[trigger] veths@[j]).1 != host_ifindex,
        decreases veths@.len() - i,
    {
        if veths[i].1 == host_ifindex {
            let name = veths[i].0.clone();
            assert(veths@[i as int].1 == host_ifindex);
            return Some(name);
        }
        i = i + 1;
    }
    None
}

} // verus!
