//! The address on which the limits of a client count.
use super::config::{all_networks, is_network, ClientIp, ProxyNetwork};
use crate::status::StatusCode;
use axum::extract::ConnectInfo;
use axum::http::Request;
use axum::serve::Listener;
use axum_governor::extractor::{KeyExtractor, SmartIp};
use ipnet::IpNet;
use tokio::net::TcpListener;
use vstd::prelude::*;

verus! {

/// A header of a request.
pub struct RequestHeader {
    pub name: String,
    pub value: Vec<u8>,
}

/// The characters of the name and the bytes of the value of each header.
pub open spec fn headers_view(headers: Seq<RequestHeader>) -> Seq<(Seq<char>, Seq<u8>)> {
    headers.map_values(|header: RequestHeader| (header.name@, header.value@))
}

/// A character in lower case, where it is an ASCII letter.
pub open spec fn lowered(c: char) -> char {
    if 'A' <= c <= 'Z' {
        (c as u8 + 32) as char
    } else {
        c
    }
}

/// Whether a header has a name, given in lower case.
pub open spec fn is_named(name: Seq<char>, lower: Seq<char>) -> bool {
    name.len() == lower.len() && forall|i: int|
        0 <= i < name.len() ==> lowered(#[trigger] name[i]) == lower[i]
}

/// Whether a character may stand in the name of a header.
pub open spec fn is_name_char(c: char) -> bool {
    ||| 'a' <= c <= 'z' || 'A' <= c <= 'Z' || '0' <= c <= '9'
    ||| c == '!' || c == '#' || c == '$' || c == '%' || c == '&' || c == '\'' || c == '*'
    ||| c == '+' || c == '-' || c == '.' || c == '^' || c == '_' || c == '`' || c == '|'
    ||| c == '~'
}

/// Whether a byte may stand in the value of a header.
pub open spec fn is_value_byte(byte: u8) -> bool {
    (byte >= 32 && byte != 127) || byte == 9
}

/// Whether a header has the form of one.
pub open spec fn is_header(header: (Seq<char>, Seq<u8>)) -> bool {
    &&& 1 <= header.0.len() <= 65_535
    &&& forall|i: int| 0 <= i < header.0.len() ==> is_name_char(#[trigger] header.0[i])
    &&& forall|i: int| 0 <= i < header.1.len() ==> is_value_byte(#[trigger] header.1[i])
}

/// Whether headers have the form of headers, and there are not more than any request has.
pub open spec fn are_headers(headers: Seq<(Seq<char>, Seq<u8>)>) -> bool {
    headers.len() <= 1_000 && forall|i: int|
        0 <= i < headers.len() ==> is_header(#[trigger] headers[i])
}

/// Whether a header tells of whom a proxy forwards a request.
pub open spec fn is_forwarding(header: (Seq<char>, Seq<u8>)) -> bool {
    ||| is_named(header.0, "x-forwarded-for"@)
    ||| is_named(header.0, "x-real-ip"@)
    ||| is_named(header.0, "forwarded"@)
}

/// Whether none of the headers tells of whom a proxy forwards a request.
pub open spec fn nothing_is_forwarded(headers: Seq<(Seq<char>, Seq<u8>)>) -> bool {
    forall|i: int| 0 <= i < headers.len() ==> !is_forwarding(#[trigger] headers[i])
}

/// Whether a byte is a space or a tab.
pub open spec fn is_blank_byte(byte: u8) -> bool {
    byte == 32 || byte == 9
}

/// Whether a byte is a comma or a semicolon, which part the value of a `forwarded` header.
pub open spec fn is_parting(byte: u8) -> bool {
    byte == 44 || byte == 59
}

/// Whether nothing but blanks stands between a place and the beginning of its part.
pub open spec fn begins_part(value: Seq<u8>, place: int) -> bool
    decreases place,
{
    place <= 0 || is_parting(value[place - 1]) || (is_blank_byte(value[place - 1]) && begins_part(
        value,
        place - 1,
    ))
}

/// Whether nothing but blanks stands between a place and the end of its part.
pub open spec fn ends_part(value: Seq<u8>, place: int) -> bool
    decreases value.len() - place,
{
    place >= value.len() || is_parting(value[place]) || (is_blank_byte(value[place]) && ends_part(
        value,
        place + 1,
    ))
}

/// Whether `host="`, in letters of either case, stands at a place.
pub open spec fn is_quote_host(value: Seq<u8>, place: int) -> bool {
    &&& 0 <= place
    &&& place + 6 <= value.len()
    &&& value[place] == 104 || value[place] == 72
    &&& value[place + 1] == 111 || value[place + 1] == 79
    &&& value[place + 2] == 115 || value[place + 2] == 83
    &&& value[place + 3] == 116 || value[place + 3] == 84
    &&& value[place + 4] == 61
    &&& value[place + 5] == 34
}

/// Whether a part of the value, between commas and semicolons and without the blanks around it, is
/// `host="`: a host that is a single quotation mark.
pub open spec fn has_lone_quote_host(value: Seq<u8>) -> bool {
    exists|place: int| #[trigger]
        is_quote_host(value, place) && begins_part(value, place) && ends_part(value, place + 6)
}

/// Whether a header can be read: a `forwarded` header with a host that is a single quotation mark
/// cannot.
pub open spec fn is_readable(header: (Seq<char>, Seq<u8>)) -> bool {
    !(is_named(header.0, "forwarded"@) && has_lone_quote_host(header.1))
}

/// Whether all the headers can be read.
pub open spec fn are_readable(headers: Seq<(Seq<char>, Seq<u8>)>) -> bool {
    forall|i: int| 0 <= i < headers.len() ==> is_readable(#[trigger] headers[i])
}

/// A header as it is read: with no value where it cannot be.
pub open spec fn readable_header(header: (Seq<char>, Seq<u8>)) -> (Seq<char>, Seq<u8>) {
    if is_readable(header) {
        header
    } else {
        (header.0, Seq::empty())
    }
}

/// The headers as they are read.
pub open spec fn readable(headers: Seq<(Seq<char>, Seq<u8>)>) -> Seq<(Seq<char>, Seq<u8>)> {
    headers.map_values(|header: (Seq<char>, Seq<u8>)| readable_header(header))
}

/// Headers that can be read are read as they are; and as they are read, all can be, under the same
/// names and in the form of headers.
pub proof fn readable_headers_stay(headers: Seq<(Seq<char>, Seq<u8>)>)
    ensures
        are_readable(headers) ==> readable(headers) == headers,
        are_readable(readable(headers)),
        are_headers(headers) ==> are_headers(readable(headers)),
        nothing_is_forwarded(headers) ==> nothing_is_forwarded(readable(headers)),
{
    let read = readable(headers);
    assert forall|i: int| 0 <= i < read.len() implies is_readable(#[trigger] read[i]) && read[i]
        == readable_header(headers[i]) by {
        assert(!is_quote_host(Seq::<u8>::empty(), 0));
    }
    if are_readable(headers) {
        assert(read =~= headers);
    }
    if are_headers(headers) {
        assert forall|i: int| 0 <= i < read.len() implies is_header(#[trigger] read[i]) by {
            assert(is_header(headers[i]));
        }
    }
    if nothing_is_forwarded(headers) {
        assert forall|i: int| 0 <= i < read.len() implies !is_forwarding(#[trigger] read[i]) by {
            assert(!is_forwarding(headers[i]));
        }
    }
}

fn has_name(name: &str, lower: &str) -> (same: bool)
    ensures
        same == is_named(name@, lower@),
{
    let length: usize = name.unicode_len();
    if length != lower.unicode_len() {
        return false;
    }
    let mut index: usize = 0;
    while index < length
        invariant
            index <= length,
            length == name@.len(),
            length == lower@.len(),
            forall|i: int| 0 <= i < index ==> lowered(#[trigger] name@[i]) == lower@[i],
        decreases length - index,
    {
        let c: char = name.get_char(index);
        let low: char = if 'A' <= c && c <= 'Z' {
            (c as u8 + 32) as char
        } else {
            c
        };
        if low != lower.get_char(index) {
            return false;
        }
        index = index + 1;
    }
    true
}

fn part_begins(value: &Vec<u8>, place: usize) -> (begins: bool)
    requires
        place <= value@.len(),
    ensures
        begins == begins_part(value@, place as int),
{
    let mut at: usize = place;
    while at > 0
        invariant
            at <= place <= value@.len(),
            begins_part(value@, place as int) == begins_part(value@, at as int),
        decreases at,
    {
        let byte: u8 = value[at - 1];
        if byte == 44 || byte == 59 {
            return true;
        }
        if !(byte == 32 || byte == 9) {
            return false;
        }
        at = at - 1;
    }
    true
}

fn part_ends(value: &Vec<u8>, place: usize) -> (ends: bool)
    requires
        place <= value@.len(),
    ensures
        ends == ends_part(value@, place as int),
{
    let mut at: usize = place;
    while at < value.len()
        invariant
            place <= at <= value@.len(),
            ends_part(value@, place as int) == ends_part(value@, at as int),
        decreases value.len() - at,
    {
        let byte: u8 = value[at];
        if byte == 44 || byte == 59 {
            return true;
        }
        if !(byte == 32 || byte == 9) {
            return false;
        }
        at = at + 1;
    }
    true
}

fn quote_host_at(value: &Vec<u8>, place: usize) -> (found: bool)
    requires
        place + 6 <= value@.len(),
    ensures
        found == is_quote_host(value@, place as int),
{
    let length: usize = value.len();
    (value[place] == 104 || value[place] == 72) && (value[place + 1] == 111 || value[place + 1]
        == 79) && (value[place + 2] == 115 || value[place + 2] == 83) && (value[place + 3] == 116
        || value[place + 3] == 84) && value[place + 4] == 61 && value[place + 5] == 34
}

/// Whether the value of a `forwarded` header has a host that is a single quotation mark.
pub fn names_lone_quote_host(value: &Vec<u8>) -> (found: bool)
    ensures
        found == has_lone_quote_host(value@),
{
    let mut place: usize = 0;
    while place < value.len() && value.len() - place >= 6
        invariant
            place <= value@.len(),
            forall|i: int|
                0 <= i < place ==> !(#[trigger] is_quote_host(value@, i) && begins_part(value@, i)
                    && ends_part(value@, i + 6)),
        decreases value.len() - place,
    {
        if quote_host_at(value, place) && part_begins(value, place) && part_ends(value, place + 6) {
            return true;
        }
        place = place + 1;
    }
    false
}

fn copied(bytes: &Vec<u8>) -> (copy: Vec<u8>)
    ensures
        copy@ == bytes@,
{
    let mut copy: Vec<u8> = Vec::new();
    let mut index: usize = 0;
    while index < bytes.len()
        invariant
            index <= bytes@.len(),
            copy@ == bytes@.take(index as int),
        decreases bytes.len() - index,
    {
        copy.push(bytes[index]);
        proof {
            assert(bytes@.take(index + 1) =~= bytes@.take(index as int).push(bytes@[index as int]));
        }
        index = index + 1;
    }
    proof {
        assert(copy@ =~= bytes@);
    }
    copy
}

/// The headers as they are read.
pub fn readable_headers(headers: &Vec<RequestHeader>) -> (read: Vec<RequestHeader>)
    ensures
        headers_view(read@) == readable(headers_view(headers@)),
{
    let mut read: Vec<RequestHeader> = Vec::new();
    let mut index: usize = 0;
    while index < headers.len()
        invariant
            index <= headers@.len(),
            read@.len() == index,
            forall|i: int|
                0 <= i < index ==> ((#[trigger] read@[i]).name@, read@[i].value@)
                    == readable_header((headers@[i].name@, headers@[i].value@)),
        decreases headers.len() - index,
    {
        let header: &RequestHeader = &headers[index];
        let unreadable: bool = has_name(header.name.as_str(), "forwarded") && names_lone_quote_host(
            &header.value,
        );
        let value: Vec<u8> = if unreadable {
            Vec::new()
        } else {
            copied(&header.value)
        };
        proof {
            assert(unreadable ==> value@ =~= Seq::<u8>::empty());
        }
        read.push(RequestHeader { name: header.name.clone(), value });
        index = index + 1;
    }
    proof {
        assert(headers_view(read@) =~= readable(headers_view(headers@)));
    }
    read
}

/// The address on which limits count for a client that connects itself: that of the peer, of an
/// IPv6 address its first 56 bits.
pub open spec fn counted_address(peer: ClientIp) -> ClientIp {
    match peer {
        ClientIp::V4(bits) => ClientIp::V4(bits),
        ClientIp::V6(bits) => ClientIp::V6((bits - bits % 0x100_0000_0000_0000_0000) as u128),
    }
}

/// A finder of client addresses, which holds the networks of the proxies that it trusts.
#[verifier::external_type_specification]
#[verifier::external_body]
pub struct ExSmartIp(axum_governor::extractor::SmartIp);

/// The networks that a finder trusts.
pub uninterp spec fn trusted_networks(finder: SmartIp) -> Seq<ProxyNetwork>;

/// The number of leading bits of an IPv6 address that a finder keeps.
pub uninterp spec fn kept_ipv6_bits(finder: SmartIp) -> u8;

/// [`axum_governor::extractor::SmartIp::new`]: a finder that trusts no network and keeps 56 bits of
/// an IPv6 address.
#[verifier::external_body]
pub(crate) fn empty_finder() -> (finder: SmartIp)
    ensures
        trusted_networks(finder) == Seq::<ProxyNetwork>::empty(),
        kept_ipv6_bits(finder) == 56,
{
    SmartIp::new()
}

/// [`axum_governor::extractor::SmartIp::with_trusted_proxies`] with one network: the finder trusts
/// it, too.
#[verifier::external_body]
pub(crate) fn trusting(finder: SmartIp, network: ProxyNetwork) -> (after: SmartIp)
    requires
        is_network(network),
    ensures
        trusted_networks(after) == trusted_networks(finder).push(network),
        kept_ipv6_bits(after) == kept_ipv6_bits(finder),
{
    let network = match network.address {
        ClientIp::V4(bits) => IpNet::new(bits.to_be_bytes().into(), network.prefix_len),
        ClientIp::V6(bits) => IpNet::new(bits.to_be_bytes().into(), network.prefix_len),
    };
    finder.with_trusted_proxies(network)
}

/// The address that a finder, which trusts the networks and keeps 56 bits of an IPv6 address, finds
/// for a request with the headers that came from the peer.
pub uninterp spec fn smart_ip(
    trusted: Seq<ProxyNetwork>,
    headers: Seq<(Seq<char>, Seq<u8>)>,
    peer: ClientIp,
) -> Option<ClientIp>;

/// `extract` of [`axum_governor::extractor::SmartIp`] on a request with the headers that came from
/// the peer: the address that is found. With headers of the right form, of which none is a
/// forwarding header, or without trusted networks, that is the peer's own; without trusted networks
/// no other is ever found. None is found where forwarding headers come from a peer that is not
/// trusted, or where a header is of the wrong form or there are too many. It panics on a
/// `forwarded` header with a host that is a single quotation mark, which is left out.
#[verifier::external_body]
pub(crate) fn find_client_ip(
    finder: &SmartIp,
    headers: &Vec<RequestHeader>,
    peer: ClientIp,
) -> (address: Option<ClientIp>)
    requires
        kept_ipv6_bits(*finder) == 56,
        are_readable(headers_view(headers@)),
    ensures
        address == smart_ip(trusted_networks(*finder), headers_view(headers@), peer),
        are_headers(headers_view(headers@)) && (trusted_networks(*finder).len() == 0
            || nothing_is_forwarded(headers_view(headers@))) ==> address == Some(
            counted_address(peer),
        ),
        trusted_networks(*finder).len() == 0 ==> address is None || address == Some(
            counted_address(peer),
        ),
{
    let mut request = Request::builder();
    for header in headers {
        request = request.header(&header.name, header.value.as_slice());
    }
    let peer: <TcpListener as Listener>::Addr = match peer {
        ClientIp::V4(bits) => (bits.to_be_bytes(), 0).into(),
        ClientIp::V6(bits) => (bits.to_be_bytes(), 0).into(),
    };
    let parts = request.extension(ConnectInfo(peer)).body(()).ok()?.into_parts().0;
    match finder.extract(&parts).ok()?.key.into() {
        IpNet::V4(found) => Some(ClientIp::V4(found.addr().into())),
        IpNet::V6(found) => Some(ClientIp::V6(found.addr().into())),
    }
}

/// Makes a finder that trusts the networks.
pub fn client_ip_extractor(trusted: &Vec<ProxyNetwork>) -> (finder: SmartIp)
    requires
        all_networks(trusted@),
    ensures
        trusted_networks(finder) == trusted@,
        kept_ipv6_bits(finder) == 56,
{
    let mut finder: SmartIp = empty_finder();
    let mut index: usize = 0;
    proof {
        assert(trusted@.take(0) =~= Seq::<ProxyNetwork>::empty());
    }
    while index < trusted.len()
        invariant
            index <= trusted@.len(),
            all_networks(trusted@),
            trusted_networks(finder) == trusted@.take(index as int),
            kept_ipv6_bits(finder) == 56,
        decreases trusted.len() - index,
    {
        finder = trusting(finder, trusted[index]);
        proof {
            assert(trusted@.take(index + 1) =~= trusted@.take(index as int).push(
                trusted@[index as int],
            ));
        }
        index = index + 1;
    }
    proof {
        assert(trusted@.take(index as int) =~= trusted@);
    }
    finder
}

/// Takes in the address that was found. Not to know it is a fault of the service.
pub fn client_ip_or_fault(found: Option<ClientIp>) -> (outcome: Result<ClientIp, StatusCode>)
    ensures
        outcome == match found {
            Some(address) => Ok(address),
            None => Err(StatusCode::InternalServerError),
        },
{
    match found {
        Some(address) => Ok(address),
        None => Err(StatusCode::InternalServerError),
    }
}

/// The address on which the limits of a client count. Forwarding headers matter only where proxies
/// are trusted.
pub fn extract_client_ip(
    trusted: &Vec<ProxyNetwork>,
    headers: &Vec<RequestHeader>,
    peer: ClientIp,
) -> (outcome: Result<ClientIp, StatusCode>)
    requires
        all_networks(trusted@),
    ensures
        outcome == match smart_ip(trusted@, readable(headers_view(headers@)), peer) {
            Some(address) => Ok(address),
            None => Err(StatusCode::InternalServerError),
        },
        are_headers(headers_view(headers@)) && (trusted@.len() == 0 || nothing_is_forwarded(
            headers_view(headers@),
        )) ==> outcome == Ok::<ClientIp, StatusCode>(counted_address(peer)),
        trusted@.len() == 0 ==> (outcome matches Ok(address) ==> address == counted_address(peer)),
{
    let finder: SmartIp = client_ip_extractor(trusted);
    let read: Vec<RequestHeader> = readable_headers(headers);
    proof {
        readable_headers_stay(headers_view(headers@));
    }
    client_ip_or_fault(find_client_ip(&finder, &read, peer))
}

/// An address counts as it is where it has 32 bits; of one with 128 bits, the first 56 count and the
/// others are zero.
pub proof fn addresses_count_by_their_network(v4: u32, v6: u128)
    ensures
        counted_address(ClientIp::V4(v4)) == ClientIp::V4(v4),
        counted_address(ClientIp::V6(v6)) is V6,
        counted_address(ClientIp::V6(v6))->V6_0 as int / 0x100_0000_0000_0000_0000 == v6 as int
            / 0x100_0000_0000_0000_0000,
        counted_address(ClientIp::V6(v6))->V6_0 as int % 0x100_0000_0000_0000_0000 == 0,
{
    let size: int = 0x100_0000_0000_0000_0000;
    let bits = v6 as int;
    vstd::arithmetic::div_mod::lemma_fundamental_div_mod(bits, size);
    let high = bits / size;
    assert(bits - bits % size == size * high);
    vstd::arithmetic::div_mod::lemma_div_multiples_vanish(high, size);
    vstd::arithmetic::div_mod::lemma_mod_multiples_basic(high, size);
}

/// Reading the headers leaves them as they are, in number, order, names and values, but for the
/// values of `forwarded` headers in which a quotation mark stands alone; those are read as empty.
pub proof fn headers_are_read_as_they_are(headers: Seq<(Seq<char>, Seq<u8>)>, i: int)
    requires
        0 <= i < headers.len(),
    ensures
        readable(headers).len() == headers.len(),
        readable(headers)[i].0 == headers[i].0,
        readable(headers)[i].1 == headers[i].1 || readable(headers)[i].1.len() == 0,
        !is_named(headers[i].0, "forwarded"@) ==> readable(headers)[i] == headers[i],
        !headers[i].1.contains(34u8) ==> readable(headers)[i] == headers[i],
        readable(headers)[i] != headers[i] ==> is_named(headers[i].0, "forwarded"@)
            && has_lone_quote_host(headers[i].1),
{
    if has_lone_quote_host(headers[i].1) {
        let value = headers[i].1;
        let place = choose|place: int| #[trigger]
            is_quote_host(value, place) && begins_part(value, place) && ends_part(value, place + 6);
        assert(value[place + 5] == 34u8);
        assert(value.contains(34u8));
    }
}

/// Whether all the bytes are spaces and tabs.
pub open spec fn all_blank(bytes: Seq<u8>) -> bool {
    forall|i: int| 0 <= i < bytes.len() ==> (#[trigger] bytes[i] == 32 || bytes[i] == 9)
}

/// Whether a value is made of what stands before a part, blanks, `host="`, blanks, and what stands
/// behind the part.
pub open spec fn is_made_of(
    value: Seq<u8>,
    before: Seq<u8>,
    blanks: Seq<u8>,
    host: Seq<u8>,
    more_blanks: Seq<u8>,
    after: Seq<u8>,
) -> bool {
    &&& value == before + blanks + host + more_blanks + after
    &&& all_blank(blanks)
    &&& all_blank(more_blanks)
    &&& before.len() == 0 || before.last() == 44 || before.last() == 59
    &&& after.len() == 0 || after.first() == 44 || after.first() == 59
}

/// A value in which a part between commas and semicolons is `host="`, with blanks around it or
/// without, has a host that is a single quotation mark.
pub proof fn lone_quotes_are_seen(
    value: Seq<u8>,
    before: Seq<u8>,
    blanks: Seq<u8>,
    more_blanks: Seq<u8>,
    after: Seq<u8>,
)
    requires
        is_made_of(
            value,
            before,
            blanks,
            seq![104u8, 111, 115, 116, 61, 34],
            more_blanks,
            after,
        ),
    ensures
        has_lone_quote_host(value),
{
    let place = (before.len() + blanks.len()) as int;
    assert(is_quote_host(value, place));
    blanks_begin_a_part(value, before.len() as int, place);
    blanks_end_a_part(value, place + 6, place + 6 + more_blanks.len());
}

proof fn blanks_begin_a_part(value: Seq<u8>, start: int, place: int)
    requires
        0 <= start <= place <= value.len(),
        start == 0 || value[start - 1] == 44 || value[start - 1] == 59,
        forall|i: int| start <= i < place ==> (#[trigger] value[i] == 32 || value[i] == 9),
    ensures
        begins_part(value, place),
    decreases place - start,
{
    if place > start {
        blanks_begin_a_part(value, start, place - 1);
    }
}

proof fn blanks_end_a_part(value: Seq<u8>, place: int, end: int)
    requires
        0 <= place <= end <= value.len(),
        end == value.len() || value[end] == 44 || value[end] == 59,
        forall|i: int| place <= i < end ==> (#[trigger] value[i] == 32 || value[i] == 9),
    ensures
        ends_part(value, place),
    decreases end - place,
{
    if place < end {
        blanks_end_a_part(value, place + 1, end);
    }
}

/// Names are compared letter by letter, capital letters counting as small ones.
pub proof fn names_ignore_case(name: Seq<char>, lower: Seq<char>)
    ensures
        is_named(name, lower) <==> name.len() == lower.len() && forall|i: int|
            0 <= i < name.len() ==> #[trigger] name[i] == lower[i] && !('A' <= name[i] <= 'Z') || (
            'A' <= name[i] <= 'Z' && lower[i] as int == name[i] as int + 32),
{
    assert forall|i: int| 0 <= i < name.len() && name.len() == lower.len() implies (lowered(
        #[trigger] name[i],
    ) == lower[i] <==> (name[i] == lower[i] && !('A' <= name[i] <= 'Z') || ('A' <= name[i] <= 'Z'
        && lower[i] as int == name[i] as int + 32))) by {
    }
}

/// Where a value has a host that is a single quotation mark, it is made of what ends in a comma or a
/// semicolon or is empty, blanks, `host="` in whatever case, blanks, and what begins with a comma or
/// a semicolon or is empty.
pub proof fn lone_quotes_stand_in_parts(value: Seq<u8>)
    requires
        has_lone_quote_host(value),
    ensures
        exists|start: int, place: int, end: int| #[trigger] is_lone_part(value, start, place, end),
{
    let place = choose|place: int| #[trigger]
        is_quote_host(value, place) && begins_part(value, place) && ends_part(value, place + 6);
    let start = part_start(value, place);
    let end = part_end(value, place + 6);
    assert(is_lone_part(value, start, place, end));
}

/// Whether a part of a value goes from `start` to `end`, between commas and semicolons or the ends
/// of the value, and holds nothing but `host="` at `place` and blanks.
pub open spec fn is_lone_part(value: Seq<u8>, start: int, place: int, end: int) -> bool {
    &&& 0 <= start <= place
    &&& place + 6 <= end <= value.len()
    &&& start == 0 || value[start - 1] == 44 || value[start - 1] == 59
    &&& end == value.len() || value[end] == 44 || value[end] == 59
    &&& all_blank(value.subrange(start, place))
    &&& all_blank(value.subrange(place + 6, end))
    &&& value[place] == 104 || value[place] == 72
    &&& value[place + 1] == 111 || value[place + 1] == 79
    &&& value[place + 2] == 115 || value[place + 2] == 83
    &&& value[place + 3] == 116 || value[place + 3] == 84
    &&& value[place + 4] == 61
    &&& value[place + 5] == 34
}

proof fn part_start(value: Seq<u8>, place: int) -> (start: int)
    requires
        0 <= place <= value.len(),
        begins_part(value, place),
    ensures
        0 <= start <= place,
        start == 0 || value[start - 1] == 44 || value[start - 1] == 59,
        all_blank(value.subrange(start, place)),
    decreases place,
{
    if place == 0 || is_parting(value[place - 1]) {
        place
    } else {
        let start = part_start(value, place - 1);
        assert(value.subrange(start, place) =~= value.subrange(start, place - 1).push(
            value[place - 1],
        ));
        start
    }
}

proof fn part_end(value: Seq<u8>, place: int) -> (end: int)
    requires
        0 <= place <= value.len(),
        ends_part(value, place),
    ensures
        place <= end <= value.len(),
        end == value.len() || value[end] == 44 || value[end] == 59,
        all_blank(value.subrange(place, end)),
    decreases value.len() - place,
{
    if place == value.len() || is_parting(value[place]) {
        place
    } else {
        let end = part_end(value, place + 1);
        let rest = value.subrange(place + 1, end);
        assert forall|i: int| 0 <= i < value.subrange(place, end).len() implies (#[trigger]
        value.subrange(place, end)[i] == 32 || value.subrange(place, end)[i] == 9) by {
            if i > 0 {
                assert(rest[i - 1] == value.subrange(place, end)[i]);
            }
        }
        end
    }
}

/// The name of a header is made of visible ASCII characters but for the delimiters; its value holds
/// no control character but the tab.
pub proof fn headers_hold_what_may_be_sent(c: char, byte: u8)
    ensures
        is_name_char(c) <==> '!' <= c <= '~' && c != '"' && c != '(' && c != ')' && c != ',' && c
            != '/' && c != ':' && c != ';' && c != '<' && c != '=' && c != '>' && c != '?' && c
            != '@' && c != '[' && c != '\\' && c != ']' && c != '{' && c != '}',
        !is_value_byte(byte) <==> byte == 127 || (byte < 32 && byte != 9),
{
}

/// A row of headers is in order if there are at most a thousand of them, each with a name of one to
/// 65535 characters that may stand in a name and a value of bytes that may stand in a value.
pub proof fn headers_are_in_order(headers: Seq<(Seq<char>, Seq<u8>)>)
    ensures
        are_headers(headers) ==> headers.len() <= 1_000 && forall|i: int|
            0 <= i < headers.len() ==> 1 <= (#[trigger] headers[i]).0.len() <= 65_535,
        are_headers(headers) ==> forall|i: int, j: int|
            0 <= i < headers.len() && 0 <= j < headers[i].0.len() ==> is_name_char(
                #[trigger] headers[i].0[j],
            ),
        are_headers(headers) ==> forall|i: int, j: int|
            0 <= i < headers.len() && 0 <= j < headers[i].1.len() ==> is_value_byte(
                #[trigger] headers[i].1[j],
            ),
        headers.len() <= 1_000 && !are_headers(headers) ==> exists|i: int|
            0 <= i < headers.len() && has_header_fault(#[trigger] headers[i]),
{
    if headers.len() <= 1_000 && !are_headers(headers) {
        let i = choose|i: int| 0 <= i < headers.len() && !is_header(#[trigger] headers[i]);
        assert(has_header_fault(headers[i]));
    }
    assert forall|i: int, j: int|
        are_headers(headers) && 0 <= i < headers.len() && 0 <= j
            < headers[i].0.len() implies is_name_char(#[trigger] headers[i].0[j]) by {
        assert(is_header(headers[i]));
    }
    assert forall|i: int, j: int|
        are_headers(headers) && 0 <= i < headers.len() && 0 <= j
            < headers[i].1.len() implies is_value_byte(#[trigger] headers[i].1[j]) by {
        assert(is_header(headers[i]));
    }
}

/// Whether a header has no name, one that is too long, or a character that may not be sent.
pub open spec fn has_header_fault(header: (Seq<char>, Seq<u8>)) -> bool {
    ||| header.0.len() == 0
    ||| header.0.len() >= 65_536
    ||| exists|j: int| 0 <= j < header.0.len() && !is_name_char(#[trigger] header.0[j])
    ||| exists|j: int| 0 <= j < header.1.len() && !is_value_byte(#[trigger] header.1[j])
}

/// Three headers tell of addresses, in whatever case their names are written, and no other does.
pub proof fn three_headers_forward(headers: Seq<(Seq<char>, Seq<u8>)>, i: int)
    requires
        0 <= i < headers.len(),
    ensures
        is_named(headers[i].0, "x-forwarded-for"@) ==> !nothing_is_forwarded(headers),
        is_named(headers[i].0, "x-real-ip"@) ==> !nothing_is_forwarded(headers),
        is_named(headers[i].0, "forwarded"@) ==> !nothing_is_forwarded(headers),
        is_forwarding(headers[i]) ==> is_named(headers[i].0, "x-forwarded-for"@) || is_named(
            headers[i].0,
            "x-real-ip"@,
        ) || is_named(headers[i].0, "forwarded"@),
        !nothing_is_forwarded(headers) ==> exists|j: int|
            0 <= j < headers.len() && is_forwarding(#[trigger] headers[j]),
{
    if is_named(headers[i].0, "x-forwarded-for"@) || is_named(headers[i].0, "x-real-ip"@)
        || is_named(headers[i].0, "forwarded"@) {
        assert(is_forwarding(headers[i]));
    }
}

} // verus!
