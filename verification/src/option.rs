//! `OPTIONS (KEY 'value', ...)` of source readers and sink writers, and
//! the typed options that are read from them.
use vstd::prelude::*;
use vstd::string::*;

use crate::error::{OptionError, SpringError};

verus! {

/// The value stored for `key`: that of the first pair with that key.
pub open spec fn lookup(pairs: Seq<(Seq<char>, Seq<char>)>, key: Seq<char>) -> Option<Seq<char>>
    decreases pairs.len(),
{
    if pairs.len() == 0 {
        None
    } else if pairs[0].0 == key {
        Some(pairs[0].1)
    } else {
        lookup(pairs.drop_first(), key)
    }
}

/// Options given to a source reader or a sink writer, as key-value pairs.
#[derive(Debug, PartialEq, Eq)]
pub struct Options {
    pairs: Vec<(String, String)>,
}

impl View for Options {
    type V = Seq<(Seq<char>, Seq<char>)>;

    closed spec fn view(&self) -> Seq<(Seq<char>, Seq<char>)> {
        self.pairs@.map_values(|p: (String, String)| (p.0@, p.1@))
    }
}

impl Options {
    /// The value of `key`, if the options hold one.
    pub open spec fn spec_get(&self, key: Seq<char>) -> Option<Seq<char>> {
        lookup(self@, key)
    }

    /// Options without any pair.
    pub fn new() -> (r: Options)
        ensures
            forall|k: Seq<char>| r.spec_get(k) is None,
    {
        let r = Options { pairs: Vec::new() };
        assert(r@ =~= Seq::<(Seq<char>, Seq<char>)>::empty());
        r
    }

    /// Sets `key` to `value`: a later value for the same key replaces the
    /// earlier one.
    pub fn add(&mut self, key: String, value: String)
        ensures
            final(self).spec_get(key@) == Some(value@),
            forall|k: Seq<char>| k != key@ ==> final(self).spec_get(k) == old(self).spec_get(k),
    {
        let ghost old_view = self@;
        let n = self.pairs.len();
        let mut i: usize = 0;
        while i < n
            invariant
                n == self.pairs@.len(),
                self@ == old_view,
                old(self)@ == old_view,
                i <= n,
                forall|j: int| 0 <= j < i ==> self@[j].0 != key@,
            decreases n - i,
        {
            if self.pairs[i].0 == key {
                let ghost before = self@;
                let ghost kv = (key@, value@);
                self.pairs.set(i, (key, value));
                proof {
                    assert(self@ =~= before.update(i as int, kv));
                    assert forall|k: Seq<char>| k != kv.0 implies lookup(self@, k) == lookup(
                        before,
                        k,
                    ) by {
                        lemma_lookup_update(before, i as int, kv.0, kv.1, k);
                    }
                    lemma_lookup_update(before, i as int, kv.0, kv.1, kv.0);
                }
                return;
            }
            i = i + 1;
        }
        let ghost before = self@;
        let ghost kv = (key@, value@);
        self.pairs.push((key, value));
        proof {
            assert(self@ =~= before.push(kv));
            assert forall|k: Seq<char>| k != kv.0 implies lookup(self@, k) == lookup(before, k) by {
                lemma_lookup_push(before, kv.0, kv.1, k);
            }
            lemma_lookup_push(before, kv.0, kv.1, kv.0);
        }
    }

    /// The value of `key`; an `InvalidOption` error where the options hold
    /// none.
    pub fn get(&self, key: &str) -> (r: Result<&String, SpringError>)
        ensures
            match r {
                Ok(v) => spec_get_value(*self, key@) == Ok::<Seq<char>, OptionErrorView>(v@),
                Err(e) => e is InvalidOption && spec_get_value(*self, key@) == Err::<
                    Seq<char>,
                    OptionErrorView,
                >(option_error_of(e)),
            },
    {
        let key_string = key.to_owned();
        let n = self.pairs.len();
        let mut i: usize = 0;
        while i < n
            invariant
                n == self.pairs@.len(),
                key_string@ == key@,
                i <= n,
                forall|j: int| 0 <= j < i ==> self@[j].0 != key@,
            decreases n - i,
        {
            if self.pairs[i].0 == key_string {
                proof {
                    lemma_lookup_first(self@, i as int, key@);
                }
                return Ok(&self.pairs[i].1);
            }
            i = i + 1;
        }
        proof {
            lemma_lookup_absent(self@, key@);
        }
        Err(
            SpringError::InvalidOption {
                key: key_string,
                value: String::new(),
                cause: OptionError::NotFound,
            },
        )
    }
}

proof fn lemma_lookup_first(pairs: Seq<(Seq<char>, Seq<char>)>, i: int, key: Seq<char>)
    requires
        0 <= i < pairs.len(),
        pairs[i].0 == key,
        forall|j: int| 0 <= j < i ==> pairs[j].0 != key,
    ensures
        lookup(pairs, key) == Some(pairs[i].1),
    decreases i,
{
    if i > 0 {
        lemma_lookup_first(pairs.drop_first(), i - 1, key);
    }
}

proof fn lemma_lookup_absent(pairs: Seq<(Seq<char>, Seq<char>)>, key: Seq<char>)
    requires
        forall|j: int| 0 <= j < pairs.len() ==> pairs[j].0 != key,
    ensures
        lookup(pairs, key) is None,
    decreases pairs.len(),
{
    if pairs.len() > 0 {
        lemma_lookup_absent(pairs.drop_first(), key);
    }
}

proof fn lemma_lookup_push(
    pairs: Seq<(Seq<char>, Seq<char>)>,
    key: Seq<char>,
    value: Seq<char>,
    k: Seq<char>,
)
    requires
        forall|j: int| 0 <= j < pairs.len() ==> pairs[j].0 != key,
    ensures
        lookup(pairs.push((key, value)), key) == Some(value),
        k != key ==> lookup(pairs.push((key, value)), k) == lookup(pairs, k),
    decreases pairs.len(),
{
    reveal_with_fuel(lookup, 2);
    if pairs.len() > 0 {
        lemma_lookup_push(pairs.drop_first(), key, value, k);
        assert(pairs.push((key, value)).drop_first() =~= pairs.drop_first().push((key, value)));
    }
}

proof fn lemma_lookup_update(
    pairs: Seq<(Seq<char>, Seq<char>)>,
    i: int,
    key: Seq<char>,
    value: Seq<char>,
    k: Seq<char>,
)
    requires
        0 <= i < pairs.len(),
        pairs[i].0 == key,
        forall|j: int| 0 <= j < i ==> pairs[j].0 != key,
    ensures
        lookup(pairs.update(i, (key, value)), key) == Some(value),
        k != key ==> lookup(pairs.update(i, (key, value)), k) == lookup(pairs, k),
    decreases i,
{
    reveal_with_fuel(lookup, 2);
    if i > 0 {
        lemma_lookup_update(pairs.drop_first(), i - 1, key, value, k);
        assert(pairs.update(i, (key, value)).drop_first() =~= pairs.drop_first().update(
            i - 1,
            (key, value),
        ));
    } else {
        assert(pairs.update(i, (key, value)).drop_first() =~= pairs.drop_first());
    }
}

/// The view of an option error: the key, the refused value and why.
pub struct OptionErrorView {
    pub key: Seq<char>,
    pub value: Seq<char>,
    pub cause: OptionError,
}

/// The option error that an engine error carries.
pub open spec fn option_error_of(e: SpringError) -> OptionErrorView {
    match e {
        SpringError::InvalidOption { key, value, cause } => OptionErrorView {
            key: key@,
            value: value@,
            cause,
        },
        _ => OptionErrorView { key: Seq::empty(), value: Seq::empty(), cause: OptionError::NotFound },
    }
}

/// The error of a missing key.
pub open spec fn not_found(key: Seq<char>) -> OptionErrorView {
    OptionErrorView { key, value: Seq::empty(), cause: OptionError::NotFound }
}

/// The value of `key`, or the error of a missing key.
pub open spec fn spec_get_value(o: Options, key: Seq<char>) -> Result<Seq<char>, OptionErrorView> {
    match o.spec_get(key) {
        Some(v) => Ok(v),
        None => Err(not_found(key)),
    }
}

/// The queue name of in-memory queue options.
pub open spec fn spec_in_memory_queue_options(o: Options) -> Result<Seq<char>, OptionErrorView> {
    spec_get_value(o, "NAME"@)
}

/// Options of an in-memory queue sink writer.
#[derive(Debug, PartialEq, Eq)]
pub struct InMemoryQueueOptions {
    pub queue_name: String,
}

impl Clone for InMemoryQueueOptions {
    fn clone(&self) -> (r: Self)
        ensures
            r == *self,
    {
        InMemoryQueueOptions { queue_name: self.queue_name.clone() }
    }
}

impl InMemoryQueueOptions {
    /// Reads `NAME`, the name of the queue.
    pub fn try_from(options: &Options) -> (r: Result<InMemoryQueueOptions, SpringError>)
        ensures
            match r {
                Ok(o) => spec_in_memory_queue_options(*options) == Ok::<Seq<char>, OptionErrorView>(
                    o.queue_name@,
                ),
                Err(e) => e is InvalidOption && spec_in_memory_queue_options(*options) == Err::<
                    Seq<char>,
                    OptionErrorView,
                >(option_error_of(e)),
            },
    {
        let name = options.get("NAME")?;
        Ok(InMemoryQueueOptions { queue_name: name.clone() })
    }
}

/// The network protocol of a network source or sink.
#[derive(Debug, Clone, Copy, PartialEq, Eq)]
pub enum NetProtocol {
    Tcp,
}

/// The decimal value of a sequence of ASCII digits.
pub open spec fn digits_value(s: Seq<char>) -> int
    decreases s.len(),
{
    if s.len() == 0 {
        0
    } else {
        digits_value(s.drop_last()) * 10 + (s.last() as int - '0' as int)
    }
}

pub open spec fn is_digit(c: char) -> bool {
    '0' <= c <= '9'
}

/// What follows an optional leading `+`.
pub open spec fn unsigned_digits(s: Seq<char>) -> Seq<char> {
    if s.len() > 0 && s[0] == '+' {
        s.drop_first()
    } else {
        s
    }
}

/// `s` as an unsigned 16-bit decimal number: an optional `+` and then one
/// or more digits, with a value that fits.
pub open spec fn spec_parse_u16(s: Seq<char>) -> Option<u16> {
    let d = unsigned_digits(s);
    if d.len() > 0 && (forall|i: int| 0 <= i < d.len() ==> is_digit(#[trigger] d[i]))
        && digits_value(d) <= 0xffff {
        Some(digits_value(d) as u16)
    } else {
        None
    }
}

proof fn lemma_digits_value_nonneg(s: Seq<char>)
    requires
        forall|i: int| 0 <= i < s.len() ==> is_digit(#[trigger] s[i]),
    ensures
        digits_value(s) >= 0,
    decreases s.len(),
{
    if s.len() > 0 {
        lemma_digits_value_nonneg(s.drop_last());
    }
}

proof fn lemma_digits_value_mono(s: Seq<char>, k: int)
    requires
        0 <= k <= s.len(),
        forall|i: int| 0 <= i < s.len() ==> is_digit(#[trigger] s[i]),
    ensures
        digits_value(s.subrange(0, k)) <= digits_value(s),
    decreases s.len() - k,
{
    if k < s.len() {
        lemma_digits_value_mono(s, k + 1);
        assert(s.subrange(0, k + 1).drop_last() =~= s.subrange(0, k));
        lemma_digits_value_nonneg(s.subrange(0, k));
    } else {
        assert(s.subrange(0, k) =~= s);
    }
}

/// Parses a port number, as `u16`'s `FromStr` does.
pub fn parse_u16(s: &String) -> (r: Option<u16>)
    ensures
        r == spec_parse_u16(s@),
{
    let st = s.as_str();
    let n = st.unicode_len();
    let mut start: usize = 0;
    if n > 0 && st.get_char(0) == '+' {
        start = 1;
    }
    let ghost d = unsigned_digits(s@);
    assert(d =~= s@.subrange(start as int, n as int));
    if start == n {
        return None;
    }
    let mut value: u32 = 0;
    let mut i: usize = start;
    while i < n
        invariant
            st@ == s@,
            n == s@.len(),
            start <= i <= n,
            d =~= s@.subrange(start as int, n as int),
            d == unsigned_digits(s@),
            forall|j: int| start <= j < i ==> is_digit(#[trigger] s@[j]),
            value == digits_value(s@.subrange(start as int, i as int)),
            value <= 0xffff,
        decreases n - i,
    {
        let c = st.get_char(i);
        if !('0' <= c && c <= '9') {
            proof {
                assert(d[i - start] == c);
                assert(!is_digit(d[i - start]));
            }
            return None;
        }
        let digit = (c as u32) - ('0' as u32);
        assert(s@.subrange(start as int, i + 1).drop_last() =~= s@.subrange(start as int, i as int));
        let next = value * 10 + digit;
        assert(next == digits_value(s@.subrange(start as int, i + 1)));
        if next > 0xffff {
            proof {
                // a later non-digit fails the parse as well as the overflow does
                if forall|j: int| 0 <= j < d.len() ==> is_digit(#[trigger] d[j]) {
                    lemma_digits_value_mono(d, i + 1 - start);
                    assert(d.subrange(0, i + 1 - start) =~= s@.subrange(start as int, i + 1));
                }
            }
            return None;
        }
        value = next;
        i = i + 1;
    }
    assert forall|j: int| 0 <= j < d.len() implies is_digit(#[trigger] d[j]) by {
        assert(d[j] == s@[j + start]);
    }
    Some(value as u16)
}

/// An IP address: version 4 by its 32 bits, version 6 by its 128 bits, the
/// first octet of the textual form being the most significant.
#[derive(Debug, Clone, Copy, PartialEq, Eq)]
pub enum IpAddress {
    V4(u32),
    V6(u128),
}

/// The IP address that the text `s` denotes, in the forms that the standard
/// library reads (dotted decimal for version 4, colon-separated hexadecimal
/// groups for version 6); `None` where `s` is not one.
pub uninterp spec fn parsed_ip_address(s: Seq<char>) -> Option<IpAddress>;

/// Reads `s` with the `FromStr` of `core::net::IpAddr`. Trusted: the result
/// depends on `s` alone and is named by `parsed_ip_address`; which texts are
/// addresses is not written out here.
#[verifier::external_body]
fn parse_ip_address(s: &String) -> (r: Option<IpAddress>)
    ensures
        r == parsed_ip_address(s@),
{
    match s.parse::<core::net::IpAddr>() {
        Ok(core::net::IpAddr::V4(a)) => Some(IpAddress::V4(u32::from(a))),
        Ok(core::net::IpAddr::V6(a)) => Some(IpAddress::V6(u128::from(a))),
        Err(_) => None,
    }
}

/// Options of a network source reader or sink writer: the remote end it
/// connects to.
#[derive(Debug, PartialEq, Eq)]
pub struct NetServerOptions {
    pub protocol: NetProtocol,
    pub remote_host: IpAddress,
    pub remote_port: u16,
}

/// The view of network options.
pub struct NetServerOptionsView {
    pub protocol: NetProtocol,
    pub remote_host: IpAddress,
    pub remote_port: u16,
}

impl View for NetServerOptions {
    type V = NetServerOptionsView;

    open spec fn view(&self) -> NetServerOptionsView {
        NetServerOptionsView {
            protocol: self.protocol,
            remote_host: self.remote_host,
            remote_port: self.remote_port,
        }
    }
}

/// Network options read from `PROTOCOL` (which must be `TCP`),
/// `REMOTE_HOST` (an IP address; `host` stands for what reading its value
/// as one gave) and `REMOTE_PORT` (a `u16`), in this order; the first that
/// is missing or invalid gives the error.
pub open spec fn net_server_options_with_host(o: Options, host: Option<IpAddress>) -> Result<
    NetServerOptionsView,
    OptionErrorView,
> {
    match spec_get_value(o, "PROTOCOL"@) {
        Err(e) => Err(e),
        Ok(protocol) => if protocol != "TCP"@ {
            Err(
                OptionErrorView {
                    key: "PROTOCOL"@,
                    value: protocol,
                    cause: OptionError::UnsupportedProtocol,
                },
            )
        } else {
            match spec_get_value(o, "REMOTE_HOST"@) {
                Err(e) => Err(e),
                Ok(host_str) => match host {
                    None => Err(
                        OptionErrorView {
                            key: "REMOTE_HOST"@,
                            value: host_str,
                            cause: OptionError::InvalidRemoteHost,
                        },
                    ),
                    Some(addr) => match spec_get_value(o, "REMOTE_PORT"@) {
                        Err(e) => Err(e),
                        Ok(port) => match spec_parse_u16(port) {
                            None => Err(
                                OptionErrorView {
                                    key: "REMOTE_PORT"@,
                                    value: port,
                                    cause: OptionError::InvalidPort,
                                },
                            ),
                            Some(p) => Ok(
                                NetServerOptionsView {
                                    protocol: NetProtocol::Tcp,
                                    remote_host: addr,
                                    remote_port: p,
                                },
                            ),
                        },
                    },
                },
            }
        },
    }
}

/// Network options read from `options`, the value of `REMOTE_HOST` read as
/// an IP address.
pub open spec fn spec_net_server_options(o: Options) -> Result<NetServerOptionsView, OptionErrorView> {
    net_server_options_with_host(
        o,
        match o.spec_get("REMOTE_HOST"@) {
            Some(h) => parsed_ip_address(h),
            None => None,
        },
    )
}

impl Clone for NetServerOptions {
    fn clone(&self) -> (r: Self)
        ensures
            r == *self,
    {
        NetServerOptions {
            protocol: self.protocol,
            remote_host: self.remote_host,
            remote_port: self.remote_port,
        }
    }
}

impl NetServerOptions {
    /// Reads `PROTOCOL` (which must be `TCP`), `REMOTE_HOST` (an IP
    /// address) and `REMOTE_PORT` (a `u16`), in this order; the first that
    /// is missing or invalid gives the error.
    pub fn try_from(options: &Options) -> (r: Result<NetServerOptions, SpringError>)
        ensures
            match r {
                Ok(o) => spec_net_server_options(*options) == Ok::<
                    NetServerOptionsView,
                    OptionErrorView,
                >(o@),
                Err(e) => e is InvalidOption && spec_net_server_options(*options) == Err::<
                    NetServerOptionsView,
                    OptionErrorView,
                >(option_error_of(e)),
            },
    {
        let host = match options.get("REMOTE_HOST") {
            Ok(host_str) => parse_ip_address(host_str),
            Err(_) => None,
        };
        NetServerOptions::try_from_with_host(options, host)
    }

    /// Reads the options as `try_from` does, with `host` taken as what
    /// reading the value of `REMOTE_HOST` as an IP address gave.
    pub fn try_from_with_host(options: &Options, host: Option<IpAddress>) -> (r: Result<
        NetServerOptions,
        SpringError,
    >)
        ensures
            match r {
                Ok(o) => net_server_options_with_host(*options, host) == Ok::<
                    NetServerOptionsView,
                    OptionErrorView,
                >(o@),
                Err(e) => e is InvalidOption && net_server_options_with_host(*options, host)
                    == Err::<NetServerOptionsView, OptionErrorView>(option_error_of(e)),
            },
    {
        proof {
            reveal_strlit("TCP");
        }
        let protocol_str = options.get("PROTOCOL")?;
        let tcp = "TCP".to_owned();
        if *protocol_str != tcp {
            return Err(
                SpringError::InvalidOption {
                    key: "PROTOCOL".to_owned(),
                    value: protocol_str.clone(),
                    cause: OptionError::UnsupportedProtocol,
                },
            );
        }
        let remote_host_str = options.get("REMOTE_HOST")?;
        let remote_host = match host {
            Some(addr) => addr,
            None => {
                return Err(
                    SpringError::InvalidOption {
                        key: "REMOTE_HOST".to_owned(),
                        value: remote_host_str.clone(),
                        cause: OptionError::InvalidRemoteHost,
                    },
                );
            },
        };
        let remote_port_str = options.get("REMOTE_PORT")?;
        match parse_u16(remote_port_str) {
            Some(remote_port) => Ok(
                NetServerOptions { protocol: NetProtocol::Tcp, remote_host, remote_port },
            ),
            None => Err(
                SpringError::InvalidOption {
                    key: "REMOTE_PORT".to_owned(),
                    value: remote_port_str.clone(),
                    cause: OptionError::InvalidPort,
                },
            ),
        }
    }
}

} // verus!
