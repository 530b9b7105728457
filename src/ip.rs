use vstd::prelude::*;

use crate::common::Config;

verus! {

/// The character of a decimal digit.
pub open spec fn digit_char(d: int) -> char {
    ('0' as int + d) as char
}

/// The decimal representation of `n`, without leading zeros.
pub open spec fn decimal(n: nat) -> Seq<char>
    decreases n,
{
    if n < 10 {
        seq![digit_char(n as int)]
    } else {
        decimal(n / 10).push(digit_char((n % 10) as int))
    }
}

/// The fields that describe host record `number` of the DNS provider's
/// `setHosts` command: an `A` record for `sub_domain` pointing at `ip`, with
/// a time to live of 1800 seconds.
pub open spec fn record_fields(number: nat, sub_domain: Seq<char>, ip: Seq<char>) -> Seq<
    (Seq<char>, Seq<char>),
> {
    let n = decimal(number);
    seq![
        ("HostName"@ + n, sub_domain),
        ("RecordType"@ + n, "A"@),
        ("Address"@ + n, ip),
        ("TTL"@ + n, "1800"@),
    ]
}

/// The form fields of the `setHosts` command for this account: the
/// credentials and domain, then the records `@` and `www` pointing at the
/// server's address and `vpn` pointing at the new address.
pub open spec fn request_fields(server_ip: Seq<char>, new_ip: Seq<char>, api_key: Seq<char>) -> Seq<
    (Seq<char>, Seq<char>),
> {
    seq![
        ("apiUser"@, "elijahobara"@),
        ("apiKey"@, api_key),
        ("ClientIp"@, server_ip),
        ("username"@, "elijahobara"@),
        ("hostName"@, "home.elijahobara.com"@),
        ("Command"@, "namecheap.domains.dns.setHosts"@),
        ("SLD"@, "elijahtech"@),
        ("TLD"@, "com"@),
    ] + record_fields(1, "@"@, server_ip) + record_fields(2, "www"@, server_ip) + record_fields(
        3,
        "vpn"@,
        new_ip,
    )
}

fn digit_str(d: usize) -> (r: &'static str)
    requires
        d < 10,
    ensures
        r@ == seq![digit_char(d as int)],
{
    proof {
        reveal_strlit("0");
        reveal_strlit("1");
        reveal_strlit("2");
        reveal_strlit("3");
        reveal_strlit("4");
        reveal_strlit("5");
        reveal_strlit("6");
        reveal_strlit("7");
        reveal_strlit("8");
        reveal_strlit("9");
    }
    match d {
        0 => "0",
        1 => "1",
        2 => "2",
        3 => "3",
        4 => "4",
        5 => "5",
        6 => "6",
        7 => "7",
        8 => "8",
        _ => "9",
    }
}

/// `n` written in decimal.
pub fn decimal_string(n: usize) -> (r: String)
    ensures
        r@ == decimal(n as nat),
    decreases n,
{
    if n < 10 {
        String::from_str(digit_str(n))
    } else {
        let mut s = decimal_string(n / 10);
        s.append(digit_str(n % 10));
        s
    }
}

fn field(label: &str, number: &String, value: &str) -> (r: (String, String))
    ensures
        r.0@ == label@ + number@,
        r.1@ == value@,
{
    let mut key = String::from_str(label);
    key.append(number.as_str());
    (key, String::from_str(value))
}

fn pair(key: &str, value: &str) -> (r: (String, String))
    ensures
        r.0@ == key@,
        r.1@ == value@,
{
    (String::from_str(key), String::from_str(value))
}

/// The form fields of host record `number`.
pub fn record(number: usize, sub_domain: &str, ip: &str) -> (r: Vec<(String, String)>)
    ensures
        r.deep_view() == record_fields(number as nat, sub_domain@, ip@),
{
    let n = decimal_string(number);
    let r = vec![
        field("HostName", &n, sub_domain),
        field("RecordType", &n, "A"),
        field("Address", &n, ip),
        field("TTL", &n, "1800"),
    ];
    assert(r.deep_view() =~= record_fields(number as nat, sub_domain@, ip@));
    r
}

/// The form fields of the `setHosts` command that points the account's hosts
/// at `server_ip` and, for `vpn`, at `new_ip`.
pub fn create_request(server_ip: &str, new_ip: &str, nc_api_key: &str) -> (r: Vec<(String, String)>)
    ensures
        r.deep_view() == request_fields(server_ip@, new_ip@, nc_api_key@),
{
    let mut params = vec![
        pair("apiUser", "elijahobara"),
        pair("apiKey", nc_api_key),
        pair("ClientIp", server_ip),
        pair("username", "elijahobara"),
        pair("hostName", "home.elijahobara.com"),
        pair("Command", "namecheap.domains.dns.setHosts"),
        pair("SLD", "elijahtech"),
        pair("TLD", "com"),
    ];
    let ghost base = params@;
    let mut first = record(1, "@", server_ip);
    let mut second = record(2, "www", server_ip);
    let mut third = record(3, "vpn", new_ip);
    let ghost (a, b, c) = (first@, second@, third@);
    params.append(&mut first);
    params.append(&mut second);
    params.append(&mut third);
    assert(params@ == base + a + b + c);
    assert(params.deep_view() =~= request_fields(server_ip@, new_ip@, nc_api_key@));
    params
}

/// A plain-text HTTP answer.
#[derive(Clone, Debug)]
pub struct Reply {
    pub status: u16,
    pub body: String,
}

/// The next step of an address update: answer at once, or send these form
/// fields to the DNS provider.
#[derive(Debug)]
pub enum IpUpdateStep {
    Answer(Reply),
    Send(Vec<(String, String)>),
}

/// Decides what a request to point the hosts at `new_ip` calls for, given
/// the address set last (empty when none is known): nothing when it is
/// unchanged, else the provider's `setHosts` command.
pub fn plan_ip_update(old_ip: &String, new_ip: &String, config: &Config) -> (r: IpUpdateStep)
    ensures
        if old_ip@ == new_ip@ {
            r matches IpUpdateStep::Answer(a) && a.status == 200 && a.body@ == "IP has not changed"@
        } else {
            r matches IpUpdateStep::Send(fields) && fields.deep_view() == request_fields(
                config.server_ip@,
                new_ip@,
                config.nc_api_key@,
            )
        },
{
    if old_ip.eq(new_ip) {
        return IpUpdateStep::Answer(
            Reply { status: 200, body: String::from_str("IP has not changed") },
        );
    }
    IpUpdateStep::Send(
        create_request(config.server_ip.as_str(), new_ip.as_str(), config.nc_api_key.as_str()),
    )
}

/// The answer once the provider was called: success names the new address,
/// a failed call is an internal server error.
pub fn update_reply(new_ip: &str, sent: bool) -> (r: Reply)
    ensures
        sent ==> r.status == 200 && r.body@ == "Updated IP to "@ + new_ip@,
        !sent ==> r.status == 500 && r.body@ == "Failed to update IP"@,
{
    if sent {
        let mut body = String::from_str("Updated IP to ");
        body.append(new_ip);
        Reply { status: 200, body }
    } else {
        Reply { status: 500, body: String::from_str("Failed to update IP") }
    }
}

} // verus!
