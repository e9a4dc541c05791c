//! Which IP addresses the page fetcher may reach: only public ones, never
//! loopback, private, link-local, documentation or otherwise reserved ranges.

use vstd::prelude::*;

use crate::error::AppError;
use crate::text::{chars_of, owned};

verus! {

/// An IP address, by its octets (version 4) or segments (version 6).
#[derive(Debug, Clone, Copy)]
pub enum IpAddress {
    V4([u8; 4]),
    V6([u16; 8]),
}

/// The message of the error that refuses a local or private address.
pub const PRIVATE_NETWORK_MESSAGE: &'static str = "Local and private network pages cannot be fetched.";

/// `Ipv4Addr::is_private`: 10.0.0.0/8, 172.16.0.0/12 and 192.168.0.0/16.
pub open spec fn ipv4_private(o: [u8; 4]) -> bool {
    ||| o[0] == 10
    ||| o[0] == 172 && 16 <= o[1] <= 31
    ||| o[0] == 192 && o[1] == 168
}

/// `Ipv4Addr::is_loopback`: 127.0.0.0/8.
pub open spec fn ipv4_loopback(o: [u8; 4]) -> bool {
    o[0] == 127
}

/// `Ipv4Addr::is_link_local`: 169.254.0.0/16.
pub open spec fn ipv4_link_local(o: [u8; 4]) -> bool {
    o[0] == 169 && o[1] == 254
}

/// `Ipv4Addr::is_broadcast`: 255.255.255.255.
pub open spec fn ipv4_broadcast(o: [u8; 4]) -> bool {
    o[0] == 255 && o[1] == 255 && o[2] == 255 && o[3] == 255
}

/// `Ipv4Addr::is_documentation`: 192.0.2.0/24, 198.51.100.0/24 and
/// 203.0.113.0/24.
pub open spec fn ipv4_documentation(o: [u8; 4]) -> bool {
    ||| o[0] == 192 && o[1] == 0 && o[2] == 2
    ||| o[0] == 198 && o[1] == 51 && o[2] == 100
    ||| o[0] == 203 && o[1] == 0 && o[2] == 113
}

/// `Ipv4Addr::is_multicast`: 224.0.0.0/4.
pub open spec fn ipv4_multicast(o: [u8; 4]) -> bool {
    224 <= o[0] <= 239
}

/// `Ipv4Addr::is_unspecified`: 0.0.0.0.
pub open spec fn ipv4_unspecified(o: [u8; 4]) -> bool {
    o[0] == 0 && o[1] == 0 && o[2] == 0 && o[3] == 0
}

/// Ranges reserved for special purposes that the standard predicates leave
/// out: "this network" (0.0.0.0/8), the reserved 240.0.0.0/4 and above, shared
/// address space (100.64.0.0/10), IETF protocol assignments (192.0.0.0/16 is
/// refused whole) and benchmarking (198.18.0.0/15).
pub open spec fn ipv4_special_purpose(o: [u8; 4]) -> bool {
    ||| o[0] == 0
    ||| o[0] >= 240
    ||| o[0] == 100 && 64 <= o[1] <= 127
    ||| o[0] == 192 && o[1] == 0
    ||| o[0] == 198 && 18 <= o[1] <= 19
}

/// An IPv4 address that the page fetcher may reach.
pub open spec fn ipv4_public(o: [u8; 4]) -> bool {
    &&& !ipv4_private(o)
    &&& !ipv4_loopback(o)
    &&& !ipv4_link_local(o)
    &&& !ipv4_broadcast(o)
    &&& !ipv4_documentation(o)
    &&& !ipv4_multicast(o)
    &&& !ipv4_unspecified(o)
    &&& !ipv4_special_purpose(o)
}

/// `Ipv6Addr::to_ipv4`: the embedded IPv4 address of an IPv4-compatible
/// (`::a.b.c.d`) or IPv4-mapped (`::ffff:a.b.c.d`) address.
pub open spec fn ipv6_embedded_ipv4(s: [u16; 8]) -> Option<[u8; 4]> {
    if s[0] == 0 && s[1] == 0 && s[2] == 0 && s[3] == 0 && s[4] == 0 && (s[5] == 0 || s[5]
        == 0xffff) {
        Some([(s[6] / 256) as u8, (s[6] % 256) as u8, (s[7] / 256) as u8, (s[7] % 256) as u8])
    } else {
        None
    }
}

/// `Ipv6Addr::is_loopback` (`::1`).
pub open spec fn ipv6_loopback(s: [u16; 8]) -> bool {
    s[0] == 0 && s[1] == 0 && s[2] == 0 && s[3] == 0 && s[4] == 0 && s[5] == 0 && s[6] == 0
        && s[7] == 1
}

/// `Ipv6Addr::is_unspecified` (`::`).
pub open spec fn ipv6_unspecified(s: [u16; 8]) -> bool {
    s[0] == 0 && s[1] == 0 && s[2] == 0 && s[3] == 0 && s[4] == 0 && s[5] == 0 && s[6] == 0
        && s[7] == 0
}

/// An IPv6 address outside the ranges that the page fetcher refuses: unique
/// local (fc00::/7), link-local unicast (fe80::/10), site-local (fec0::/10),
/// multicast (ff00::/8) and documentation (2001:db8::/32).
pub open spec fn ipv6_public_range(s: [u16; 8]) -> bool {
    &&& !ipv6_loopback(s)
    &&& !ipv6_unspecified(s)
    &&& !(0xfc00 <= s[0] <= 0xfdff)
    &&& !(0xfe80 <= s[0] <= 0xfebf)
    &&& !(s[0] >= 0xff00)
    &&& !(s[0] == 0x2001 && s[1] == 0x0db8)
    &&& !(0xfec0 <= s[0] <= 0xfeff)
}

/// An IPv6 address that the page fetcher may reach: an embedded IPv4 address
/// is judged as IPv4.
pub open spec fn ipv6_public(s: [u16; 8]) -> bool {
    match ipv6_embedded_ipv4(s) {
        Some(o) => ipv4_public(o),
        None => ipv6_public_range(s),
    }
}

/// An address that the page fetcher may reach.
pub open spec fn ip_public(address: IpAddress) -> bool {
    match address {
        IpAddress::V4(o) => ipv4_public(o),
        IpAddress::V6(s) => ipv6_public(s),
    }
}

/// Whether an IPv4 address lies outside the ranges that the standard
/// predicates single out: private, loopback, link-local, broadcast,
/// documentation, multicast and unspecified.
pub fn is_standard_public_ipv4(octets: [u8; 4]) -> (r: bool)
    ensures
        r == !(ipv4_private(octets) || ipv4_loopback(octets) || ipv4_link_local(octets)
            || ipv4_broadcast(octets) || ipv4_documentation(octets) || ipv4_multicast(octets)
            || ipv4_unspecified(octets)),
{
    let a = octets[0];
    let b = octets[1];
    let c = octets[2];
    let d = octets[3];
    let private = a == 10 || (a == 172 && 16 <= b && b <= 31) || (a == 192 && b == 168);
    let loopback = a == 127;
    let link_local = a == 169 && b == 254;
    let broadcast = a == 255 && b == 255 && c == 255 && d == 255;
    let documentation = (a == 192 && b == 0 && c == 2) || (a == 198 && b == 51 && c == 100) || (a
        == 203 && b == 0 && c == 113);
    let multicast = 224 <= a && a <= 239;
    let unspecified = a == 0 && b == 0 && c == 0 && d == 0;
    !(private || loopback || link_local || broadcast || documentation || multicast || unspecified)
}

/// Whether an IPv4 address lies in one of the other reserved ranges.
pub fn is_special_purpose_ipv4(octets: [u8; 4]) -> (r: bool)
    ensures
        r == ipv4_special_purpose(octets),
{
    let first = octets[0];
    let second = octets[1];
    first == 0 || first >= 240 || (first == 100 && 64 <= second && second <= 127) || (first == 192
        && second == 0) || (first == 198 && 18 <= second && second <= 19)
}

/// Whether an IPv4 address is public.
pub fn is_public_ipv4(octets: [u8; 4]) -> (r: bool)
    ensures
        r == ipv4_public(octets),
{
    is_standard_public_ipv4(octets) && !is_special_purpose_ipv4(octets)
}

/// Whether an IPv6 address is public.
pub fn is_public_ipv6(segments: [u16; 8]) -> (r: bool)
    ensures
        r == ipv6_public(segments),
{
    let s = segments;
    if s[0] == 0 && s[1] == 0 && s[2] == 0 && s[3] == 0 && s[4] == 0 && (s[5] == 0 || s[5]
        == 0xffff) {
        let embedded: [u8; 4] = [(s[6] / 256) as u8, (s[6] % 256) as u8, (s[7] / 256) as u8, (s[7]
            % 256) as u8];
        return is_public_ipv4(embedded);
    }
    let first = s[0];
    let loopback = first == 0 && s[1] == 0 && s[2] == 0 && s[3] == 0 && s[4] == 0 && s[5] == 0
        && s[6] == 0 && s[7] == 1;
    let unspecified = first == 0 && s[1] == 0 && s[2] == 0 && s[3] == 0 && s[4] == 0 && s[5] == 0
        && s[6] == 0 && s[7] == 0;
    let unique_local = 0xfc00 <= first && first <= 0xfdff;
    let link_local = 0xfe80 <= first && first <= 0xfebf;
    let multicast = first >= 0xff00;
    let documentation = first == 0x2001 && s[1] == 0x0db8;
    let site_local = 0xfec0 <= first && first <= 0xfeff;
    !(loopback || unspecified || unique_local || link_local || multicast || documentation)
        && !site_local
}

/// Whether an address is public.
pub fn is_public_ip(address: IpAddress) -> (r: bool)
    ensures
        r == ip_public(address),
{
    match address {
        IpAddress::V4(octets) => is_public_ipv4(octets),
        IpAddress::V6(segments) => is_public_ipv6(segments),
    }
}

/// Refuses an address that is not public.
pub fn ensure_public_ip(address: IpAddress) -> (res: Result<(), AppError>)
    ensures
        res is Ok <==> ip_public(address),
        res matches Err(e) ==> e.deep_view() == crate::error::ErrorModel::WebTool(
            PRIVATE_NETWORK_MESSAGE@,
        ),
{
    if is_public_ip(address) {
        Ok(())
    } else {
        Err(AppError::WebTool(owned(PRIVATE_NETWORK_MESSAGE)))
    }
}

/// The value of a run of decimal digits.
pub open spec fn digits_value(digits: Seq<char>) -> int
    decreases digits.len(),
{
    if digits.len() == 0 {
        0
    } else {
        digits_value(digits.drop_last()) * 10 + ((digits.last() as u32) as int - 48)
    }
}

/// An ASCII decimal digit.
pub open spec fn is_decimal_digit(c: char) -> bool {
    '0' <= c && c <= '9'
}

/// One part of a dotted-decimal IPv4 address: one to three digits, no leading
/// zero unless the part is `0`, and a value that fits an octet.
pub open spec fn octet_text(part: Seq<char>) -> bool {
    &&& 1 <= part.len() <= 3
    &&& forall|i: int| 0 <= i < part.len() ==> is_decimal_digit(#[trigger] part[i])
    &&& (part.len() == 1 || part[0] != '0')
    &&& digits_value(part) <= 255
}

/// The pieces of a text between its dots, in order (`str::split('.')`).
pub open spec fn dot_parts(text: Seq<char>) -> Seq<Seq<char>>
    decreases text.len(),
{
    if text.len() == 0 {
        seq![Seq::empty()]
    } else {
        let before = dot_parts(text.drop_last());
        if text.last() == '.' {
            before.push(Seq::empty())
        } else {
            before.update(before.len() - 1, before.last().push(text.last()))
        }
    }
}

/// The IPv4 address that a text writes in dotted-decimal form (four octets,
/// as `Ipv4Addr::from_str` reads them), if it writes one.
pub open spec fn ipv4_literal(text: Seq<char>) -> Option<[u8; 4]> {
    let parts = dot_parts(text);
    if parts.len() == 4 && forall|i: int| 0 <= i < 4 ==> octet_text(#[trigger] parts[i]) {
        Some(
            [
                digits_value(parts[0]) as u8,
                digits_value(parts[1]) as u8,
                digits_value(parts[2]) as u8,
                digits_value(parts[3]) as u8,
            ],
        )
    } else {
        None
    }
}

/// The value of one part of a dotted-decimal address, when it is one.
fn octet_value(part: &Vec<char>) -> (res: Option<u8>)
    ensures
        res is Some <==> octet_text(part@),
        res matches Some(v) ==> v as int == digits_value(part@),
{
    let n = part.len();
    if n < 1 || n > 3 {
        return None;
    }
    if n > 1 && part[0] == '0' {
        return None;
    }
    let mut value: u32 = 0;
    let mut k: usize = 0;
    while k < n
        invariant
            n == part@.len(),
            1 <= n <= 3,
            k <= n,
            n == 1 || part@[0] != '0',
            value as int == digits_value(part@.take(k as int)),
            k == 0 ==> value == 0,
            k == 1 ==> value <= 9,
            k == 2 ==> value <= 99,
            k == 3 ==> value <= 999,
            forall|i: int| 0 <= i < k ==> is_decimal_digit(#[trigger] part@[i]),
        decreases n - k,
    {
        let c = part[k];
        if c < '0' || c > '9' {
            proof {
                assert(!is_decimal_digit(part@[k as int]));
            }
            return None;
        }
        proof {
            assert(part@.take(k + 1).drop_last() =~= part@.take(k as int));
            assert(part@.take(k + 1).last() == c);
        }
        value = value * 10 + ((c as u32) - 48);
        k = k + 1;
    }
    assert(part@.take(n as int) =~= part@);
    if value <= 255 {
        Some(value as u8)
    } else {
        None
    }
}

/// The dot-separated parts of a text are never fewer than one.
proof fn lemma_dot_parts_nonempty(text: Seq<char>)
    ensures
        dot_parts(text).len() >= 1,
    decreases text.len(),
{
    if text.len() > 0 {
        lemma_dot_parts_nonempty(text.drop_last());
    }
}

/// The IPv4 address a text writes in dotted-decimal form, if it writes one.
pub fn parse_ipv4_literal(text: &str) -> (res: Option<[u8; 4]>)
    ensures
        res == ipv4_literal(text@),
{
    let chars = chars_of(text);
    let n = chars.len();
    let mut done: Vec<Vec<char>> = Vec::new();
    let mut current: Vec<char> = Vec::new();
    assert(chars@.take(0) =~= Seq::<char>::empty());
    assert(done.deep_view().push(current@) =~= seq![Seq::<char>::empty()]);
    for i in 0..n
        invariant
            n == chars@.len(),
            chars@ == text@,
            dot_parts(chars@.take(i as int)) == done.deep_view().push(current@),
    {
        let c = chars[i];
        let ghost prefix = chars@.take(i as int);
        proof {
            assert(chars@.take(i + 1).drop_last() =~= prefix);
            assert(chars@.take(i + 1).last() == c);
            lemma_dot_parts_nonempty(prefix);
        }
        if c == '.' {
            let ghost before = done.deep_view();
            let mut finished: Vec<char> = Vec::new();
            std::mem::swap(&mut finished, &mut current);
            let ghost fin = finished@;
            assert(finished.deep_view() =~= fin);
            done.push(finished);
            assert(done.deep_view() =~= before.push(fin));
            assert(done.deep_view().push(current@) =~= before.push(fin).push(Seq::<char>::empty()));
        } else {
            let ghost before = current@;
            current.push(c);
            assert(done.deep_view().push(current@) =~= done.deep_view().push(before).update(
                done.deep_view().len() as int,
                before.push(c),
            ));
        }
    }
    assert(chars@.take(n as int) =~= chars@);
    if done.len() != 3 {
        return None;
    }
    let ghost parts = done.deep_view().push(current@);
    assert(done[0].deep_view() =~= done[0]@);
    assert(done[1].deep_view() =~= done[1]@);
    assert(done[2].deep_view() =~= done[2]@);
    assert(parts[0] == done[0]@ && parts[1] == done[1]@ && parts[2] == done[2]@ && parts[3] == current@);
    let a = octet_value(&done[0]);
    let b = octet_value(&done[1]);
    let c = octet_value(&done[2]);
    let d = octet_value(&current);
    match (a, b, c, d) {
        (Some(a), Some(b), Some(c), Some(d)) => {
            proof {
                assert forall|i: int| 0 <= i < 4 implies octet_text(#[trigger] parts[i]) by {
                    if i == 0 {
                    } else if i == 1 {
                    } else if i == 2 {
                    } else {
                    }
                }
            }
            Some([a, b, c, d])
        },
        _ => {
            proof {
                if parts.len() == 4 && forall|i: int| 0 <= i < 4 ==> octet_text(#[trigger] parts[i]) {
                    assert(octet_text(parts[0]));
                    assert(octet_text(parts[1]));
                    assert(octet_text(parts[2]));
                    assert(octet_text(parts[3]));
                }
            }
            None
        },
    }
}

} // verus!
