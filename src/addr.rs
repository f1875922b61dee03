//! The `IP:PORT` grammar of listen addresses: a dotted IPv4 address and a
//! port, or a bracketed IPv6 address and a port.
use vstd::prelude::*;
use crate::text::{
    all_dec, all_dec_exec, all_hex, all_hex_exec, chars_of, dec_value, dec_value_within,
    lemma_split_nonempty, split, split_chars, views,
};

verus! {

/// One to three decimal digits, no leading zero, at most 255.
pub open spec fn is_octet(f: Seq<char>) -> bool {
    1 <= f.len() <= 3 && all_dec(f) && (f.len() == 1 || f[0] != '0') && dec_value(f) <= 255
}

/// One or more decimal digits whose value fits in sixteen bits.
pub open spec fn is_port(f: Seq<char>) -> bool {
    1 <= f.len() && all_dec(f) && dec_value(f) <= 0xffff
}

/// One to four hexadecimal digits.
pub open spec fn is_hex_group(f: Seq<char>) -> bool {
    1 <= f.len() <= 4 && all_hex(f)
}

pub open spec fn is_ipv4(s: Seq<char>) -> bool {
    let f = split(s, '.');
    f.len() == 4 && forall|i: int| 0 <= i < 4 ==> is_octet(#[trigger] f[i])
}

pub open spec fn hex_fields(f: Seq<Seq<char>>, lo: int, hi: int) -> bool {
    forall|i: int| lo <= i < hi ==> is_hex_group(#[trigger] f[i])
}

/// The fields from `lo` on are groups, the last of which may be an IPv4
/// address.
pub open spec fn tail_fields(f: Seq<Seq<char>>, lo: int) -> bool {
    lo == f.len() || (hex_fields(f, lo, f.len() - 1) && (is_hex_group(f.last()) || is_ipv4(
        f.last(),
    )))
}

/// How many sixteen-bit groups the fields from `lo` on stand for.
pub open spec fn tail_weight(f: Seq<Seq<char>>, lo: int) -> int {
    if lo == f.len() {
        0
    } else {
        f.len() - lo + if is_ipv4(f.last()) {
            1int
        } else {
            0
        }
    }
}

/// An IPv6 address: eight groups, six groups and an IPv4 address, or fewer
/// groups around one `::` that stands for the missing ones. An IPv4 address
/// comes only last.
pub open spec fn is_ipv6(s: Seq<char>) -> bool {
    let f = split(s, ':');
    let n = f.len();
    (n == 8 && hex_fields(f, 0, 8)) || (n == 7 && hex_fields(f, 0, 6) && is_ipv4(f[6])) || (n == 3
        && f[0].len() == 0 && f[1].len() == 0 && f[2].len() == 0) || (n >= 3 && f[0].len() == 0
        && f[1].len() == 0 && n > 2 && tail_fields(f, 2) && tail_weight(f, 2) <= 7) || (n >= 3
        && f[n - 2].len() == 0 && f[n - 1].len() == 0 && hex_fields(f, 0, n - 2) && n - 2 <= 7)
        || exists|k: int|
        0 < k < n - 1 && (#[trigger] f[k]).len() == 0 && hex_fields(f, 0, k) && tail_fields(
            f,
            k + 1,
        ) && k + tail_weight(f, k + 1) <= 7
}

pub open spec fn is_v4_socket(s: Seq<char>) -> bool {
    let f = split(s, ':');
    f.len() == 2 && is_ipv4(f[0]) && is_port(f[1])
}

pub open spec fn is_v6_socket(s: Seq<char>) -> bool {
    let f = split(s, ']');
    f.len() == 2 && f[0].len() >= 1 && f[0][0] == '[' && is_ipv6(f[0].skip(1)) && f[1].len() >= 1
        && f[1][0] == ':' && is_port(f[1].skip(1))
}

/// The port part of an `IP:PORT` address.
pub open spec fn port_text(s: Seq<char>) -> Seq<char> {
    if is_v4_socket(s) {
        split(s, ':')[1]
    } else {
        split(s, ']')[1].skip(1)
    }
}

/// The port of an `IP:PORT` address.
pub open spec fn socket_port(s: Seq<char>) -> nat {
    dec_value(port_text(s))
}

/// `IP:PORT`, the IP either dotted IPv4 or bracketed IPv6.
pub open spec fn is_socket_addr(s: Seq<char>) -> bool {
    is_v4_socket(s) || is_v6_socket(s)
}

proof fn lemma_ipv4_nonempty(s: Seq<char>)
    ensures
        is_ipv4(s) ==> s.len() > 0,
{
    if s.len() == 0 {
        assert(split(s, '.') == seq![Seq::<char>::empty()]);
    }
}

fn octet_ok(f: &Vec<char>) -> (r: bool)
    ensures
        r == is_octet(f@),
{
    if f.len() < 1 || f.len() > 3 || !all_dec_exec(f) {
        return false;
    }
    if f.len() != 1 && f[0] == '0' {
        return false;
    }
    dec_value_within(f, 255).is_some()
}

fn port_value(f: &Vec<char>) -> (r: Option<u16>)
    ensures
        r is Some <==> is_port(f@),
        r matches Some(p) ==> p == dec_value(f@),
{
    if f.len() < 1 || !all_dec_exec(f) {
        return None;
    }
    match dec_value_within(f, 0xffff) {
        Some(v) => Some(v as u16),
        None => None,
    }
}

fn hex_group_ok(f: &Vec<char>) -> (r: bool)
    ensures
        r == is_hex_group(f@),
{
    f.len() >= 1 && f.len() <= 4 && all_hex_exec(f)
}

fn ipv4_ok(s: &Vec<char>) -> (r: bool)
    ensures
        r == is_ipv4(s@),
{
    let f = split_chars(s, '.');
    if f.len() != 4 {
        return false;
    }
    let mut i: usize = 0;
    while i < 4
        invariant
            i <= 4,
            f.len() == 4,
            views(f@) == split(s@, '.'),
            forall|j: int| 0 <= j < i ==> is_octet(#[trigger] split(s@, '.')[j]),
        decreases 4 - i,
    {
        assert(views(f@)[i as int] == f@[i as int]@);
        if !octet_ok(&f[i]) {
            return false;
        }
        i += 1;
    }
    true
}

fn hex_fields_ok(f: &Vec<Vec<char>>, lo: usize, hi: usize) -> (r: bool)
    requires
        lo <= hi <= f.len(),
    ensures
        r == hex_fields(views(f@), lo as int, hi as int),
{
    let mut i: usize = lo;
    while i < hi
        invariant
            lo <= i <= hi <= f.len(),
            hex_fields(views(f@), lo as int, i as int),
        decreases hi - i,
    {
        assert(views(f@)[i as int] == f@[i as int]@);
        if !hex_group_ok(&f[i]) {
            return false;
        }
        i += 1;
    }
    true
}

fn tail_ok(f: &Vec<Vec<char>>, lo: usize) -> (r: bool)
    requires
        lo <= f.len(),
    ensures
        r == tail_fields(views(f@), lo as int),
{
    let n = f.len();
    if lo == n {
        return true;
    }
    assert(views(f@).last() == f@[n - 1]@);
    hex_fields_ok(f, lo, n - 1) && (hex_group_ok(&f[n - 1]) || ipv4_ok(&f[n - 1]))
}

fn tail_weight_of(f: &Vec<Vec<char>>, lo: usize) -> (r: usize)
    requires
        1 <= lo <= f.len(),
    ensures
        r == tail_weight(views(f@), lo as int),
{
    let n = f.len();
    if lo == n {
        return 0;
    }
    assert(views(f@).last() == f@[n - 1]@);
    if ipv4_ok(&f[n - 1]) {
        n - lo + 1
    } else {
        n - lo
    }
}

fn ipv6_ok(s: &Vec<char>) -> (r: bool)
    ensures
        r == is_ipv6(s@),
{
    let f = split_chars(s, ':');
    let ghost g = split(s@, ':');
    proof {
        lemma_split_nonempty(s@, ':');
    }
    let n = f.len();
    assert(forall|j: int| 0 <= j < n ==> #[trigger] g[j] == f@[j]@);
    let mut k: usize = 0;
    while k < n && f[k].len() != 0
        invariant
            k <= n == f.len() == g.len(),
            forall|j: int| 0 <= j < n ==> #[trigger] g[j] == f@[j]@,
            forall|j: int| 0 <= j < k ==> (#[trigger] g[j]).len() != 0,
        decreases n - k,
    {
        k += 1;
    }
    if k == n {
        // no field is empty: the address is written out in full
        assert(!(n == 3 && g[0].len() == 0));
        assert(!(n >= 3 && g[n - 1].len() == 0));
        assert(forall|j: int| 0 < j < n - 1 ==> (#[trigger] g[j]).len() != 0);
        if n == 8 {
            return hex_fields_ok(&f, 0, 8);
        }
        if n == 7 {
            assert(views(f@)[6] == f@[6]@);
            return hex_fields_ok(&f, 0, 6) && ipv4_ok(&f[6]);
        }
        return false;
    }
    if k == 0 {
        // the address opens with `::`
        assert(g[0].len() == 0);
        assert(!is_hex_group(g[0]));
        assert(!hex_fields(g, 0, n - 2) || n - 2 < 1);
        assert(forall|j: int| 0 < j < n - 1 && hex_fields(g, 0, j) ==> is_hex_group(g[0]));
        if n < 3 || f[1].len() != 0 {
            return false;
        }
        if n == 3 && f[2].len() == 0 {
            return true;
        }
        return tail_ok(&f, 2) && tail_weight_of(&f, 2) <= 7;
    }
    assert(g[k as int].len() == 0);
    assert(!is_hex_group(g[k as int]));
    proof {
        lemma_ipv4_nonempty(g[k as int]);
    }
    assert(n == 8 ==> !hex_fields(g, 0, 8));
    assert(n == 7 && k < 6 ==> !hex_fields(g, 0, 6));
    assert(g[0].len() != 0);
    if k == n - 1 {
        // only the last field is empty: a single trailing colon
        assert(!hex_fields(g, 0, 6) || n != 7 || !is_ipv4(g[6]) || g[6].len() != 0);
        assert(n >= 3 ==> g[n - 2].len() != 0);
        assert(forall|j: int| 0 < j < n - 1 ==> (#[trigger] g[j]).len() != 0);
        return false;
    }
    if k == n - 2 && f[n - 1].len() == 0 {
        // the address closes with `::`
        assert(forall|j: int|
            0 < j < n - 1 && #[trigger] g[j].len() == 0 && hex_fields(g, 0, j) ==> j == k);
        assert(!tail_fields(g, n - 1));
        return hex_fields_ok(&f, 0, n - 2) && n - 2 <= 7;
    }
    // `::` stands inside the address
    assert(!(n >= 3 && g[n - 2].len() == 0 && g[n - 1].len() == 0) || !hex_fields(g, 0, n - 2));
    assert(forall|j: int|
        0 < j < n - 1 && #[trigger] g[j].len() == 0 && hex_fields(g, 0, j) ==> j == k);
    let ok = hex_fields_ok(&f, 0, k) && tail_ok(&f, k + 1) && k + tail_weight_of(&f, k + 1) <= 7;
    if ok {
        assert(0 < k < n - 1 && g[k as int].len() == 0);
    }
    ok
}

fn v4_socket_port(s: &Vec<char>) -> (r: Option<u16>)
    ensures
        r is Some <==> is_v4_socket(s@),
        r matches Some(p) ==> p == dec_value(split(s@, ':')[1]),
{
    let f = split_chars(s, ':');
    if f.len() != 2 {
        return None;
    }
    assert(views(f@)[0] == f@[0]@ && views(f@)[1] == f@[1]@);
    if !ipv4_ok(&f[0]) {
        return None;
    }
    port_value(&f[1])
}

/// The characters of `s` from `lo` on.
fn skip_chars(s: &Vec<char>, lo: usize) -> (r: Vec<char>)
    requires
        lo <= s.len(),
    ensures
        r@ == s@.skip(lo as int),
{
    let mut r: Vec<char> = Vec::new();
    let mut i: usize = lo;
    while i < s.len()
        invariant
            lo <= i <= s.len(),
            r@ == s@.subrange(lo as int, i as int),
        decreases s.len() - i,
    {
        r.push(s[i]);
        assert(r@ =~= s@.subrange(lo as int, i + 1));
        i += 1;
    }
    assert(r@ =~= s@.skip(lo as int));
    r
}

fn v6_socket_port(s: &Vec<char>) -> (r: Option<u16>)
    ensures
        r is Some <==> is_v6_socket(s@),
        r matches Some(p) ==> p == dec_value(split(s@, ']')[1].skip(1)),
{
    let f = split_chars(s, ']');
    if f.len() != 2 {
        return None;
    }
    assert(views(f@)[0] == f@[0]@ && views(f@)[1] == f@[1]@);
    if f[0].len() < 1 || f[0][0] != '[' || f[1].len() < 1 || f[1][0] != ':' {
        return None;
    }
    let ip = skip_chars(&f[0], 1);
    let port = skip_chars(&f[1], 1);
    if !ipv6_ok(&ip) {
        return None;
    }
    port_value(&port)
}

/// The port of `s` when `s` is an `IP:PORT` listen address.
pub fn socket_port_of(s: &str) -> (r: Option<u16>)
    ensures
        r is Some <==> is_socket_addr(s@),
        r matches Some(p) ==> p == socket_port(s@),
{
    let c = chars_of(s);
    match v4_socket_port(&c) {
        Some(p) => Some(p),
        None => v6_socket_port(&c),
    }
}

} // verus!

verus! {

/// The address the gossip layer listens on.
#[derive(Clone, Debug)]
pub struct GossipListenAddr {
    pub text: String,
    pub port: u16,
}

/// The address the HTTP gateway listens on.
#[derive(Clone, Debug)]
pub struct ListenAddr {
    pub text: String,
    pub port: u16,
}

impl GossipListenAddr {
    /// Reads `s` as an `IP:PORT` gossip listen address.
    pub fn from_str(s: &str) -> (r: Option<GossipListenAddr>)
        ensures
            r is Some <==> is_socket_addr(s@),
            r matches Some(a) ==> a.text@ == s@ && a.port == socket_port(s@),
    {
        match socket_port_of(s) {
            Some(port) => Some(GossipListenAddr { text: s.to_owned(), port }),
            None => None,
        }
    }
}

impl ListenAddr {
    /// Reads `s` as an `IP:PORT` HTTP listen address.
    pub fn from_str(s: &str) -> (r: Option<ListenAddr>)
        ensures
            r is Some <==> is_socket_addr(s@),
            r matches Some(a) ==> a.text@ == s@ && a.port == socket_port(s@),
    {
        match socket_port_of(s) {
            Some(port) => Some(ListenAddr { text: s.to_owned(), port }),
            None => None,
        }
    }
}

} // verus!
