//! Upstream service health and model inventory: classifying the outcome of
//! a version probe into exactly one of four statuses, merging discovered
//! model identifiers set-like into the inventory, and reading the
//! configured port.

use vstd::prelude::*;
use vstd::string::StringExecFns;
use vstd::string::StrSliceExecFns;

verus! {

/// What the version endpoint told us, one of exactly four states; a probe
/// always overwrites the previous value, never leaves it stale.
#[derive(Clone)]
pub enum ServiceStatus {
    /// The service did not answer, or answered with a failure status.
    Offline,
    /// The service answered and named its version.
    Online(String),
    /// The service answered but its reply named no version.
    OnlineUnknownVersion,
    /// The service answered but its reply could not be parsed.
    OnlineParseError,
}

/// The outcome of one health probe of the version endpoint, as plain
/// values: how far the request got and what the reply held.
#[derive(Clone)]
pub enum VersionProbeOutcome {
    /// The request itself failed: connection refused, timeout, and the like.
    RequestFailed,
    /// The service answered with a non-success status code.
    HttpFailure,
    /// The reply body was not a well-formed document.
    BodyUnparsable,
    /// The reply held a version string.
    ParsedVersion(String),
    /// The reply parsed but held no version string.
    ParsedNoVersion,
}

/// The status a probe outcome maps to.
pub open spec fn spec_classify(outcome: VersionProbeOutcome) -> ServiceStatus {
    match outcome {
        VersionProbeOutcome::RequestFailed => ServiceStatus::Offline,
        VersionProbeOutcome::HttpFailure => ServiceStatus::Offline,
        VersionProbeOutcome::BodyUnparsable => ServiceStatus::OnlineParseError,
        VersionProbeOutcome::ParsedVersion(v) => ServiceStatus::Online(v),
        VersionProbeOutcome::ParsedNoVersion => ServiceStatus::OnlineUnknownVersion,
    }
}

/// Classifies one probe outcome: every outcome maps to exactly one of the
/// four statuses, and failures map to `Offline`, never to a stale value.
pub fn classify_version_probe(outcome: VersionProbeOutcome) -> (r: ServiceStatus)
    ensures
        r == spec_classify(outcome),
{
    match outcome {
        VersionProbeOutcome::RequestFailed => ServiceStatus::Offline,
        VersionProbeOutcome::HttpFailure => ServiceStatus::Offline,
        VersionProbeOutcome::BodyUnparsable => ServiceStatus::OnlineParseError,
        VersionProbeOutcome::ParsedVersion(v) => ServiceStatus::Online(v),
        VersionProbeOutcome::ParsedNoVersion => ServiceStatus::OnlineUnknownVersion,
    }
}

/// The user-visible text of a status.
pub open spec fn spec_status_text(s: ServiceStatus) -> Seq<char> {
    match s {
        ServiceStatus::Offline => "Offline"@,
        ServiceStatus::Online(v) => "Online (v"@ + v@ + ")"@,
        ServiceStatus::OnlineUnknownVersion => "Online (unknown version)"@,
        ServiceStatus::OnlineParseError => "Online (version parse error)"@,
    }
}

impl ServiceStatus {
    /// The user-visible text of this status.
    pub fn as_text(&self) -> (r: String)
        ensures
            r@ == spec_status_text(*self),
    {
        match self {
            ServiceStatus::Offline => "Offline".to_owned(),
            ServiceStatus::Online(v) => {
                let mut r = "Online (v".to_owned();
                r.append(v.as_str());
                r.append(")");
                proof {
                    assert(r@ =~= spec_status_text(*self));
                }
                r
            },
            ServiceStatus::OnlineUnknownVersion => "Online (unknown version)".to_owned(),
            ServiceStatus::OnlineParseError => "Online (version parse error)".to_owned(),
        }
    }
}

/// Whether `c` is a decimal digit.
pub open spec fn is_digit(c: char) -> bool {
    48 <= c as u32 <= 57
}

/// The digit characters of a candidate port: an optional leading `+` sign
/// is skipped, as the standard integer parser does.
pub open spec fn port_digits(s: Seq<char>) -> Seq<char> {
    if s.len() > 0 && s[0] == '+' {
        s.drop_first()
    } else {
        s
    }
}

/// The number the digit string denotes, most significant digit first.
pub open spec fn decimal_value(d: Seq<char>) -> nat
    decreases d.len(),
{
    if d.len() == 0 {
        0
    } else {
        decimal_value(d.drop_last()) * 10 + (d.last() as u32 - 48) as nat
    }
}

/// Whether every character of `d` is a decimal digit.
pub open spec fn all_digits(d: Seq<char>) -> bool {
    forall|i: int| 0 <= i < d.len() ==> is_digit(#[trigger] d[i])
}

/// Whether `s` denotes a port: at least one digit after the optional sign,
/// digits only, and a value that fits in sixteen bits.
pub open spec fn is_port_number(s: Seq<char>) -> bool {
    &&& port_digits(s).len() > 0
    &&& all_digits(port_digits(s))
    &&& decimal_value(port_digits(s)) <= 65535
}

/// The port `s` denotes, or the default service port when `s` does not
/// denote one.
pub open spec fn spec_port_value(s: Seq<char>) -> nat {
    if is_port_number(s) {
        decimal_value(port_digits(s))
    } else {
        11434
    }
}

/// A value never shrinks when digits are appended to its right.
proof fn lemma_decimal_prefix_le(d: Seq<char>, k: int)
    requires
        0 <= k <= d.len(),
        all_digits(d),
    ensures
        decimal_value(d.take(k)) <= decimal_value(d),
    decreases d.len() - k,
{
    if k == d.len() {
        assert(d.take(k) =~= d);
    } else {
        assert(d.take(k + 1).drop_last() =~= d.take(k));
        lemma_decimal_prefix_le(d, k + 1);
    }
}

/// Reads a configured port, falling back to the default service port on
/// anything that does not denote one.
pub fn convert_port_to_u16(port: String) -> (r: u16)
    ensures
        r as nat == spec_port_value(port@),
{
    let s: &str = port.as_str();
    let n: usize = s.unicode_len();
    let start: usize = if n > 0 && s.get_char(0) == '+' {
        1
    } else {
        0
    };
    let ghost d = port_digits(port@);
    proof {
        assert(d =~= port@.skip(start as int));
    }
    if n == start {
        assert(!is_port_number(port@));
        return 11434;
    }
    let mut value: u32 = 0;
    let mut i: usize = start;
    while i < n
        invariant
            start <= i <= n,
            n == port@.len(),
            s@ == port@,
            d == port_digits(port@),
            d == port@.skip(start as int),
            forall|j: int| 0 <= j < i - start ==> is_digit(#[trigger] d[j]),
            value == decimal_value(d.take(i - start)),
            value <= 65535,
        decreases n - i,
    {
        let c: char = s.get_char(i);
        let cv: u32 = c as u32;
        proof {
            assert(d[i - start] == port@[i as int]);
        }
        if cv < 48 || cv > 57 {
            proof {
                assert(!is_digit(d[i - start]));
                assert(!all_digits(d));
                assert(!is_port_number(port@));
            }
            return 11434;
        }
        proof {
            assert(d.take(i - start + 1).drop_last() =~= d.take(i - start));
            assert(d.take(i - start + 1).last() == d[i - start]);
        }
        value = value * 10 + (cv - 48);
        i += 1;
        if value > 65535 {
            proof {
                assert(value == decimal_value(d.take(i - start)));
                if is_port_number(port@) {
                    lemma_decimal_prefix_le(d, i - start);
                    assert(false);
                }
            }
            return 11434;
        }
    }
    proof {
        assert(d.take(n - start) =~= d);
        assert(all_digits(d));
        assert(is_port_number(port@));
    }
    value as u16
}

/// The inventory after offering one identifier: unchanged if already
/// present, else the identifier joins at the end.
pub open spec fn spec_merge_one(inv: Seq<Seq<char>>, name: Seq<char>) -> Seq<Seq<char>> {
    if inv.contains(name) {
        inv
    } else {
        inv.push(name)
    }
}

/// The inventory after offering each discovered identifier in order.
pub open spec fn spec_merge(inv: Seq<Seq<char>>, found: Seq<Seq<char>>) -> Seq<Seq<char>>
    decreases found.len(),
{
    if found.len() == 0 {
        inv
    } else {
        spec_merge(spec_merge_one(inv, found[0]), found.drop_first())
    }
}

/// Whether `list` holds a string whose characters are `name`'s.
fn contains_model(list: &Vec<String>, name: &String) -> (r: bool)
    ensures
        r == list.deep_view().contains(name@),
{
    let mut i: usize = 0;
    while i < list.len()
        invariant
            i <= list.len(),
            forall|j: int| 0 <= j < i ==> list.deep_view()[j] != name@,
        decreases list.len() - i,
    {
        if list[i].eq(name) {
            proof {
                assert(list.deep_view()[i as int] == name@);
            }
            return true;
        }
        i += 1;
    }
    proof {
        if list.deep_view().contains(name@) {
            let j = choose|j: int|
                0 <= j < list.deep_view().len() && list.deep_view()[j] == name@;
            assert(false);
        }
    }
    false
}

/// Merging a batch identifier-by-identifier is the same as offering the
/// whole batch and then one more.
proof fn lemma_merge_snoc(inv: Seq<Seq<char>>, found: Seq<Seq<char>>, name: Seq<char>)
    ensures
        spec_merge(inv, found.push(name)) == spec_merge_one(spec_merge(inv, found), name),
    decreases found.len(),
{
    if found.len() == 0 {
        assert(found.push(name).drop_first() =~= found);
        assert(spec_merge(inv, found.push(name)) == spec_merge(
            spec_merge_one(inv, name),
            found,
        ));
    } else {
        assert(found.push(name).drop_first() =~= found.drop_first().push(name));
        lemma_merge_snoc(spec_merge_one(inv, found[0]), found.drop_first(), name);
    }
}

/// Merges newly discovered model identifiers into the inventory: set-like
/// de-duplication by identifier, with insertion order preserved.
pub fn merge_models(bots_list: &mut Vec<String>, found: &Vec<String>)
    ensures
        final(bots_list).deep_view() == spec_merge(old(bots_list).deep_view(), found.deep_view()),
{
    let ghost found_v = found.deep_view();
    let mut i: usize = 0;
    while i < found.len()
        invariant
            i <= found.len(),
            found_v == found.deep_view(),
            bots_list.deep_view() == spec_merge(old(bots_list).deep_view(), found_v.take(i as int)),
        decreases found.len() - i,
    {
        proof {
            assert(found_v.take(i as int + 1) =~= found_v.take(i as int).push(found_v[i as int]));
            lemma_merge_snoc(old(bots_list).deep_view(), found_v.take(i as int), found_v[i as int]);
        }
        if !contains_model(bots_list, &found[i]) {
            bots_list.push(found[i].clone());
            proof {
                assert(bots_list.deep_view() =~= spec_merge(
                    old(bots_list).deep_view(),
                    found_v.take(i as int + 1),
                ));
            }
        }
        i += 1;
    }
    proof {
        assert(found_v.take(found.len() as int) =~= found_v);
    }
}

/// Merging never forgets and never invents: the merged inventory holds an
/// identifier if and only if it was already held or was just discovered.
pub proof fn lemma_merge_membership(inv: Seq<Seq<char>>, found: Seq<Seq<char>>, name: Seq<char>)
    ensures
        spec_merge(inv, found).contains(name) <==> inv.contains(name) || found.contains(name),
    decreases found.len(),
{
    if found.len() > 0 {
        lemma_merge_membership(spec_merge_one(inv, found[0]), found.drop_first(), name);
        if found.contains(name) {
            let j = choose|j: int| 0 <= j < found.len() && found[j] == name;
            if j > 0 {
                assert(found.drop_first()[j - 1] == name);
            }
        }
        if found.drop_first().contains(name) {
            let j = choose|j: int|
                0 <= j < found.drop_first().len() && found.drop_first()[j] == name;
            assert(found[j + 1] == name);
        }
        if !inv.contains(found[0]) {
            let pushed = inv.push(found[0]);
            if pushed.contains(name) {
                let j = choose|j: int| 0 <= j < pushed.len() && pushed[j] == name;
                if j < inv.len() {
                    assert(inv[j] == name);
                }
            }
            if inv.contains(name) {
                let j = choose|j: int| 0 <= j < inv.len() && inv[j] == name;
                assert(pushed[j] == name);
            }
            assert(pushed[inv.len() as int] == found[0]);
        }
    }
}

/// Merging keeps the existing inventory as a prefix: every identifier
/// already held keeps its position, so first-seen order is preserved.
pub proof fn lemma_merge_preserves_prefix(inv: Seq<Seq<char>>, found: Seq<Seq<char>>)
    ensures
        spec_merge(inv, found).len() >= inv.len(),
        forall|i: int| 0 <= i < inv.len() ==> #[trigger] spec_merge(inv, found)[i] == inv[i],
    decreases found.len(),
{
    if found.len() > 0 {
        lemma_merge_preserves_prefix(spec_merge_one(inv, found[0]), found.drop_first());
    }
}

/// Merging adds no duplicate: an inventory without duplicates still has
/// none after any batch is merged in, so each identifier occurs at most
/// once however often it is discovered.
pub proof fn lemma_merge_no_duplicates(inv: Seq<Seq<char>>, found: Seq<Seq<char>>)
    requires
        inv.no_duplicates(),
    ensures
        spec_merge(inv, found).no_duplicates(),
    decreases found.len(),
{
    if found.len() > 0 {
        if !inv.contains(found[0]) {
            assert(inv.push(found[0]).no_duplicates()) by {
                assert(forall|i: int, j: int|
                    0 <= i < inv.push(found[0]).len() && 0 <= j < inv.push(found[0]).len() && i != j
                        ==> inv.push(found[0])[i] != inv.push(found[0])[j]);
            }
        }
        lemma_merge_no_duplicates(spec_merge_one(inv, found[0]), found.drop_first());
    }
}

/// Merging a batch whose identifiers are all already held changes nothing.
pub proof fn lemma_merge_absorbed(inv: Seq<Seq<char>>, found: Seq<Seq<char>>)
    requires
        forall|i: int| 0 <= i < found.len() ==> inv.contains(#[trigger] found[i]),
    ensures
        spec_merge(inv, found) == inv,
    decreases found.len(),
{
    if found.len() > 0 {
        assert(inv.contains(found[0]));
        lemma_merge_absorbed(inv, found.drop_first());
    }
}

/// Feeding the same batch across two probe cycles is the same as feeding
/// it once: the second merge changes nothing, so an identifier discovered
/// twice still occurs exactly once, in first-seen order.
pub proof fn lemma_merge_idempotent(inv: Seq<Seq<char>>, found: Seq<Seq<char>>)
    ensures
        spec_merge(spec_merge(inv, found), found) == spec_merge(inv, found),
{
    let merged = spec_merge(inv, found);
    assert forall|i: int| 0 <= i < found.len() implies merged.contains(#[trigger] found[i]) by {
        lemma_merge_membership(inv, found, found[i]);
    }
    lemma_merge_absorbed(merged, found);
}

} // verus!
