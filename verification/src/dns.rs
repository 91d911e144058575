use vstd::prelude::*;
use vstd::arithmetic::div_mod::lemma_div_denominator;

use crate::errors::ControllerError;
use crate::errors::ControllerErrorV;

verus! {

// ---------------------------------------------------------------------------
// IPv4 addresses
//
// Address resolution yields IPv4 addresses; the endpoint objects carry them
// in dotted-decimal notation.  The address is held as its four octets so
// that rendering is ordinary verified code.
// ---------------------------------------------------------------------------

/// An IPv4 address, as its four octets in network order.
#[derive(Clone, Copy, Debug, PartialEq, Eq, Structural)]
pub struct Ipv4Address {
    pub o1: u8,
    pub o2: u8,
    pub o3: u8,
    pub o4: u8,
}

impl DeepView for Ipv4Address {
    type V = Ipv4Address;

    open spec fn deep_view(&self) -> Ipv4Address {
        *self
    }
}

/// The character for a single decimal digit.
pub open spec fn digit_char(d: int) -> char {
    ((48 + d) as u8) as char
}

/// The decimal rendering of `n`, without leading zeroes.
pub open spec fn dec_digits(n: int) -> Seq<char>
    decreases n,
{
    if n < 10 {
        seq![digit_char(n)]
    } else {
        dec_digits(n / 10).push(digit_char(n % 10))
    }
}

/// The dotted-decimal rendering of an IPv4 address.
pub open spec fn dotted_of(ip: Ipv4Address) -> Seq<char> {
    dec_digits(ip.o1 as int) + seq!['.'] + dec_digits(ip.o2 as int) + seq!['.']
        + dec_digits(ip.o3 as int) + seq!['.'] + dec_digits(ip.o4 as int)
}

fn push_digit(s: &mut String, d: u8)
    requires
        d < 10,
    ensures
        final(s)@ == old(s)@.push(digit_char(d as int)),
{
    let t: &str = match d {
        0 => "0",
        1 => "1",
        2 => "2",
        3 => "3",
        4 => "4",
        5 => "5",
        6 => "6",
        7 => "7",
        8 => "8",
        _ => "9",
    };
    proof {
        reveal_strlit("0");
        reveal_strlit("1");
        reveal_strlit("2");
        reveal_strlit("3");
        reveal_strlit("4");
        reveal_strlit("5");
        reveal_strlit("6");
        reveal_strlit("7");
        reveal_strlit("8");
        reveal_strlit("9");
        assert(t@ =~= seq![digit_char(d as int)]);
    }
    s.append(t);
    proof {
        assert(s@ =~= old(s)@.push(digit_char(d as int)));
    }
}

fn append_dec(s: &mut String, n: u8)
    ensures
        final(s)@ == old(s)@ + dec_digits(n as int),
{
    let ghost m = n as int;
    if n >= 100 {
        proof {
            lemma_div_denominator(m, 10, 10);
            assert(dec_digits(m) == dec_digits(m / 10).push(digit_char(m % 10)));
            assert(dec_digits(m / 10) == dec_digits(m / 10 / 10).push(digit_char(m / 10 % 10)));
            assert(dec_digits(m / 100) == seq![digit_char(m / 100)]);
        }
        push_digit(s, n / 100);
        push_digit(s, (n / 10) % 10);
        push_digit(s, n % 10);
        proof {
            assert(s@ =~= old(s)@ + dec_digits(m));
        }
    } else if n >= 10 {
        proof {
            assert(dec_digits(m) == dec_digits(m / 10).push(digit_char(m % 10)));
            assert(dec_digits(m / 10) == seq![digit_char(m / 10)]);
        }
        push_digit(s, n / 10);
        push_digit(s, n % 10);
        proof {
            assert(s@ =~= old(s)@ + dec_digits(m));
        }
    } else {
        push_digit(s, n);
        proof {
            assert(s@ =~= old(s)@ + dec_digits(m));
        }
    }
}

impl Ipv4Address {
    /// Renders the address in dotted-decimal notation.
    pub fn to_dotted(&self) -> (r: String)
        ensures
            r@ == dotted_of(*self),
    {
        let mut s: String = String::new();
        append_dec(&mut s, self.o1);
        s.append(".");
        append_dec(&mut s, self.o2);
        s.append(".");
        append_dec(&mut s, self.o3);
        s.append(".");
        append_dec(&mut s, self.o4);
        proof {
            reveal_strlit(".");
            assert(s@ =~= dotted_of(*self));
        }
        s
    }
}

// ---------------------------------------------------------------------------
// Record model
//
// One `SrvRecord` per target of the SRV answer, in the order the resolver
// returned them; priority and weight are preserved verbatim, never locally
// re-sorted.  `ipv4_addr` is `None` until (or unless) address resolution for
// the target's hostname has succeeded, and an empty vector when it succeeded
// with zero answers: the two states are distinct and never conflated.
// ---------------------------------------------------------------------------

/// One target of an SRV answer, with the IPv4 addresses its hostname
/// resolved to, once address resolution has run.
#[derive(Clone, Debug, PartialEq, Eq)]
pub struct SrvRecord {
    pub port: u16,
    pub priority: u16,
    pub weight: u16,
    pub hostname: String,
    pub ipv4_addr: Option<Vec<Ipv4Address>>,
}

/// Mathematical image of a `SrvRecord`.
pub struct SrvRecordV {
    pub port: u16,
    pub priority: u16,
    pub weight: u16,
    pub hostname: Seq<char>,
    pub ipv4_addr: Option<Seq<Ipv4Address>>,
}

impl DeepView for SrvRecord {
    type V = SrvRecordV;

    open spec fn deep_view(&self) -> SrvRecordV {
        SrvRecordV {
            port: self.port,
            priority: self.priority,
            weight: self.weight,
            hostname: self.hostname.deep_view(),
            ipv4_addr: self.ipv4_addr.deep_view(),
        }
    }
}

impl SrvRecord {
    /// A record fresh from an SRV answer: address resolution has not run.
    pub fn new(port: u16, priority: u16, weight: u16, hostname: String) -> (r: SrvRecord)
        ensures
            r.deep_view() == (SrvRecordV {
                port,
                priority,
                weight,
                hostname: hostname@,
                ipv4_addr: None,
            }),
    {
        SrvRecord { port, priority, weight, hostname, ipv4_addr: None }
    }
}

/// The outcome of one SRV resolution: the queried name, the labels parsed
/// from it (`None` where the name is not SRV-shaped, which is tolerated),
/// and one record per target, `None` until the SRV query has been answered.
#[derive(Clone, Debug, PartialEq, Eq)]
pub struct SrvResult {
    pub protocol: Option<String>,
    pub service: Option<String>,
    pub srv_hostname: String,
    pub srv_records: Option<Vec<SrvRecord>>,
}

/// Mathematical image of a `SrvResult`.
pub struct SrvResultV {
    pub protocol: Option<Seq<char>>,
    pub service: Option<Seq<char>>,
    pub srv_hostname: Seq<char>,
    pub srv_records: Option<Seq<SrvRecordV>>,
}

impl DeepView for SrvResult {
    type V = SrvResultV;

    open spec fn deep_view(&self) -> SrvResultV {
        SrvResultV {
            protocol: self.protocol.deep_view(),
            service: self.service.deep_view(),
            srv_hostname: self.srv_hostname.deep_view(),
            srv_records: self.srv_records.deep_view(),
        }
    }
}

// ---------------------------------------------------------------------------
// Name parsing
//
// An SRV name has the shape `_service._protocol.rest.of.domain`: the service
// is the first dot-separated label with its leading underscore stripped, the
// protocol the second.  A name that does not follow the convention yields
// `None` for the corresponding label; it is never an error.
// ---------------------------------------------------------------------------

/// Index of the first `'.'` in `s`, or `s.len()` if there is none.
pub open spec fn first_dot(s: Seq<char>) -> int
    decreases s.len(),
{
    if s.len() == 0 {
        0
    } else if s[0] == '.' {
        0
    } else {
        1 + first_dot(s.skip(1))
    }
}

/// `first_dot(s)` is the unique position with no dot before it that is either
/// the end of the string or a dot.
pub proof fn lemma_first_dot_at(s: Seq<char>, n: int)
    requires
        0 <= n <= s.len(),
        forall|j: int| 0 <= j < n ==> s[j] != '.',
        n == s.len() || s[n] == '.',
    ensures
        first_dot(s) == n,
    decreases n,
{
    if n == 0 {
        if s.len() != 0 {
            assert(s[0] == '.');
        }
    } else {
        assert(s[0] != '.');
        lemma_first_dot_at(s.skip(1), n - 1);
    }
}

/// The first dot-separated label of `s`.
pub open spec fn service_label(s: Seq<char>) -> Seq<char> {
    s.subrange(0, first_dot(s))
}

/// The service named by an SRV name: its first label with the leading
/// underscore stripped, or `None` if that label does not start with one.
pub open spec fn service_of(s: Seq<char>) -> Option<Seq<char>> {
    let l = service_label(s);
    if l.len() > 0 && l[0] == '_' {
        Some(l.skip(1))
    } else {
        None
    }
}

/// The second dot-separated label of `s` (meaningful only when `s` has a dot).
pub open spec fn protocol_label(s: Seq<char>) -> Seq<char> {
    let rest = s.skip(first_dot(s) + 1);
    rest.subrange(0, first_dot(rest))
}

/// The protocol named by an SRV name: its second label with the leading
/// underscore stripped, or `None` if there is no second label or it does not
/// start with an underscore.
pub open spec fn protocol_of(s: Seq<char>) -> Option<Seq<char>> {
    if first_dot(s) == s.len() {
        None
    } else {
        let l = protocol_label(s);
        if l.len() > 0 && l[0] == '_' {
            Some(l.skip(1))
        } else {
            None
        }
    }
}

/// First position at or after `from` holding a `'.'`, or the length of `s`.
fn find_dot_from(s: &str, from: usize) -> (r: usize)
    requires
        from <= s@.len(),
    ensures
        from <= r <= s@.len(),
        forall|j: int| from <= j < r ==> s@[j] != '.',
        r < s@.len() ==> s@[r as int] == '.',
{
    let len: usize = s.unicode_len();
    let mut i: usize = from;
    while i < len
        invariant
            from <= i <= len,
            len == s@.len(),
            forall|j: int| from <= j < i ==> s@[j] != '.',
        decreases len - i,
    {
        if s.get_char(i) == '.' {
            return i;
        }
        i = i + 1;
    }
    i
}

/// Parses the SRV name to extract the service it advertises: the first
/// dot-separated label with its leading underscore stripped.  Returns `None`
/// when the first label does not start with an underscore.
pub fn parse_service(dn: &str) -> (r: Option<String>)
    ensures
        r.deep_view() == service_of(dn@),
{
    let d: usize = find_dot_from(dn, 0);
    proof {
        lemma_first_dot_at(dn@, d as int);
    }
    if d > 0 && dn.get_char(0) == '_' {
        let sub: &str = dn.substring_char(1, d);
        proof {
            assert(service_label(dn@).skip(1) =~= dn@.subrange(1, d as int));
        }
        Some(sub.to_owned())
    } else {
        None
    }
}

/// Parses the SRV name to extract the protocol it advertises: the second
/// dot-separated label with its leading underscore stripped.  Returns `None`
/// when there is no second label or it does not start with an underscore;
/// in particular a name without any dot yields `None`.
pub fn parse_protocol(dn: &str) -> (r: Option<String>)
    ensures
        r.deep_view() == protocol_of(dn@),
{
    let len: usize = dn.unicode_len();
    let d: usize = find_dot_from(dn, 0);
    proof {
        lemma_first_dot_at(dn@, d as int);
    }
    if d == len {
        return None;
    }
    let e: usize = find_dot_from(dn, d + 1);
    proof {
        let rest = dn@.skip(d + 1);
        assert(forall|j: int|
            0 <= j < e - (d + 1) ==> rest[j] == dn@[j + d + 1] && rest[j] != '.');
        lemma_first_dot_at(rest, e - (d + 1));
        assert(protocol_label(dn@) =~= dn@.subrange(d + 1, e as int));
    }
    if e > d + 1 && dn.get_char(d + 1) == '_' {
        let sub: &str = dn.substring_char(d + 2, e);
        proof {
            assert(protocol_label(dn@).skip(1) =~= dn@.subrange(d + 2, e as int));
        }
        Some(sub.to_owned())
    } else {
        None
    }
}

/// Splits an SRV-style name into its `(service, protocol)` labels.
/// A label that is absent or not underscore-prefixed comes back as `None`;
/// a name with no dots yields `(None, None)` rather than failing.
pub fn parse_labels(dn: &str) -> (r: (Option<String>, Option<String>))
    ensures
        r.0.deep_view() == service_of(dn@),
        r.1.deep_view() == protocol_of(dn@),
{
    (parse_service(dn), parse_protocol(dn))
}

// ---------------------------------------------------------------------------
// Resolution engine
//
// The queries themselves are a capability of the caller: it performs one SRV
// query for the domain and, when that was answered, one A query per target,
// and hands every outcome in.  The engine assembles them into one
// `SrvResult` under the two-tier failure policy: a failed SRV query fails
// the whole resolution (there is nothing to assemble), while a failed
// per-target address lookup degrades that one record and never aborts the
// batch.
// ---------------------------------------------------------------------------

/// A record with one target's address-resolution outcome applied: a
/// successful lookup replaces the address list (an empty answer is a
/// success with zero addresses), a failed one leaves the record as it was.
pub open spec fn apply_outcome(r: SrvRecordV, o: Option<Seq<Ipv4Address>>) -> SrvRecordV {
    match o {
        Some(addrs) => SrvRecordV { ipv4_addr: Some(addrs), ..r },
        None => r,
    }
}

/// All targets with their address-resolution outcomes applied, pointwise.
pub open spec fn apply_outcomes(
    targets: Seq<SrvRecordV>,
    outcomes: Seq<Option<Seq<Ipv4Address>>>,
) -> Seq<SrvRecordV>
    recommends
        outcomes.len() == targets.len(),
{
    Seq::new(targets.len(), |i: int| apply_outcome(targets[i], outcomes[i]))
}

/// Partial-failure isolation: an answered SRV query yields exactly one
/// record per target however many per-target address lookups failed; a
/// failed lookup leaves only its own record without addresses and every
/// other record carries exactly its own outcome.
pub proof fn lemma_partial_failure_isolation(
    targets: Seq<SrvRecordV>,
    outcomes: Seq<Option<Seq<Ipv4Address>>>,
    i: int,
)
    requires
        outcomes.len() == targets.len(),
        0 <= i < targets.len(),
    ensures
        apply_outcomes(targets, outcomes).len() == targets.len(),
        outcomes[i] is None ==> apply_outcomes(targets, outcomes)[i] == targets[i],
        outcomes[i] matches Some(addrs) ==> apply_outcomes(targets, outcomes)[i]
            == (SrvRecordV { ipv4_addr: Some(addrs), ..targets[i] }),
{
}

/// Applies one target's address-resolution outcome to its record: a
/// successful lookup (even one with zero answers) replaces the address
/// list, a failed one leaves the record untouched.
pub fn update_ip_addresses_for_record(rec: &mut SrvRecord, outcome: Option<Vec<Ipv4Address>>)
    ensures
        final(rec).deep_view() == apply_outcome(old(rec).deep_view(), outcome.deep_view()),
{
    match outcome {
        Some(addrs) => {
            rec.ipv4_addr = Some(addrs);
        },
        None => {
        },
    }
}

/// Assembles one SRV resolution from the caller's query outcomes.
///
/// `srv_query` is the outcome of the one SRV query for `dn`: the targets in
/// the order the resolver returned them, or the cause of its failure.
/// `addr_outcomes` holds the outcome of the one A query per target, in the
/// same order (`None`: the query failed; `Some`: its addresses, possibly
/// none).
///
/// Fails exactly when the SRV query itself failed; a failed address lookup
/// only leaves that one record without addresses.
pub fn resolve_srv(
    dn: &str,
    srv_query: Result<Vec<SrvRecord>, String>,
    addr_outcomes: Vec<Option<Vec<Ipv4Address>>>,
) -> (r: Result<SrvResult, ControllerError>)
    requires
        srv_query matches Ok(targets) ==> addr_outcomes@.len() == targets@.len(),
    ensures
        (srv_query matches Err(cause) ==> r matches Err(e) && e.deep_view()
            == (ControllerErrorV::Resolution { hostname: dn@, cause: cause@ })),
        (srv_query matches Ok(targets) ==> r matches Ok(res) && res.deep_view()
            == (SrvResultV {
                protocol: protocol_of(dn@),
                service: service_of(dn@),
                srv_hostname: dn@,
                srv_records: Some(
                    apply_outcomes(targets.deep_view(), addr_outcomes.deep_view()),
                ),
            })),
{
    match srv_query {
        Err(cause) => Err(ControllerError::Resolution { hostname: dn.to_owned(), cause }),
        Ok(targets) => {
            let ghost t0 = targets.deep_view();
            let ghost o0 = addr_outcomes.deep_view();
            let (service, protocol) = parse_labels(dn);
            let mut rest = targets;
            let mut outs = addr_outcomes;
            let mut records: Vec<SrvRecord> = Vec::new();
            let ghost n = t0.len();
            proof {
                assert(rest.deep_view() =~= t0.skip(0));
                assert(outs.deep_view() =~= o0.skip(0));
                assert(records.deep_view() =~= apply_outcomes(t0, o0).take(0));
            }
            while rest.len() > 0
                invariant
                    rest@.len() == outs@.len(),
                    rest@.len() <= n,
                    n == t0.len(),
                    o0.len() == n,
                    rest.deep_view() == t0.skip(n - rest@.len()),
                    outs.deep_view() == o0.skip(n - rest@.len()),
                    records.deep_view() == apply_outcomes(t0, o0).take(n - rest@.len()),
                decreases rest@.len(),
            {
                let ghost k = n - rest@.len();
                let ghost pre_rest = rest.deep_view();
                let ghost pre_outs = outs.deep_view();
                let ghost pre_rest_raw = rest@;
                let ghost pre_outs_raw = outs@;
                let mut rec = rest.remove(0);
                let o = outs.remove(0);
                proof {
                    assert(rec.deep_view() == pre_rest[0]);
                    assert(pre_rest[0] == t0.skip(k)[0]);
                    assert(o.deep_view() == pre_outs[0]);
                    assert(pre_outs[0] == o0.skip(k)[0]);
                    assert(rec.deep_view() == t0[k]);
                    assert(o.deep_view() == o0[k]);
                    assert forall|i: int| 0 <= i < rest@.len() implies rest.deep_view()[i] == t0.skip(
                        k + 1,
                    )[i] by {
                        assert(rest@[i] == pre_rest_raw[i + 1]);
                        assert(rest.deep_view()[i] == pre_rest[i + 1]);
                        assert(pre_rest[i + 1] == t0.skip(k)[i + 1]);
                    }
                    assert(rest.deep_view() =~= t0.skip(k + 1));
                    assert forall|i: int| 0 <= i < outs@.len() implies outs.deep_view()[i] == o0.skip(
                        k + 1,
                    )[i] by {
                        assert(outs@[i] == pre_outs_raw[i + 1]);
                        assert(outs.deep_view()[i] == pre_outs[i + 1]);
                        assert(pre_outs[i + 1] == o0.skip(k)[i + 1]);
                    }
                    assert(outs.deep_view() =~= o0.skip(k + 1));
                }
                update_ip_addresses_for_record(&mut rec, o);
                proof {
                    assert(rec.deep_view() == apply_outcome(t0[k], o0[k]));
                }
                let ghost pre_records = records.deep_view();
                let ghost pre_records_raw = records@;
                let ghost rec_view = rec.deep_view();
                let ghost rec_snap = rec;
                records.push(rec);
                proof {
                    assert(records@ == pre_records_raw.push(rec_snap));
                    assert(apply_outcomes(t0, o0).len() == n);
                    assert(apply_outcomes(t0, o0).take(k).len() == k);
                    assert(pre_records.len() == k);
                    assert(pre_records_raw.len() == k);
                    assert forall|i: int| 0 <= i < records@.len() implies records.deep_view()[i]
                        == apply_outcomes(t0, o0).take(k + 1)[i] by {
                        assert(records.deep_view()[i] == records@[i].deep_view());
                        if i < k {
                            assert(pre_records_raw.push(rec_snap)[i] == pre_records_raw[i]);
                            assert(pre_records_raw[i].deep_view() == pre_records[i]);
                            assert(pre_records[i] == apply_outcomes(t0, o0).take(k)[i]);
                            assert(apply_outcomes(t0, o0).take(k)[i] == apply_outcomes(t0, o0)[i]);
                            assert(apply_outcomes(t0, o0).take(k + 1)[i] == apply_outcomes(
                                t0,
                                o0,
                            )[i]);
                        } else {
                            assert(i == k);
                            assert(pre_records_raw.push(rec_snap)[i] == rec_snap);
                            assert(rec_snap.deep_view() == rec_view);
                            assert(apply_outcomes(t0, o0).take(k + 1)[i] == apply_outcomes(
                                t0,
                                o0,
                            )[k]);
                            assert(apply_outcomes(t0, o0)[k] == apply_outcome(t0[k], o0[k]));
                        }
                    }
                    assert(records.deep_view() =~= apply_outcomes(t0, o0).take(k + 1));
                }
            }
            let res = SrvResult {
                protocol,
                service,
                srv_hostname: dn.to_owned(),
                srv_records: Some(records),
            };
            proof {
                assert(records.deep_view() =~= apply_outcomes(t0, o0));
            }
            Ok(res)
        },
    }
}

} // verus!
