use vstd::prelude::*;

verus! {

/// The multicast group that discovery traffic is sent to.
pub const MULTICAST_GROUP: &'static str = "239.255.255.250";

/// The port of discovery traffic.
pub const DISCOVERY_PORT: u16 = 1900;

/// The search target used when none is given.
pub const DEFAULT_TARGET: &'static str = "ssdp:all";

/// The number of probes sent when none is given.
pub const DEFAULT_ATTEMPTS: u16 = 3;

/// The text of a search probe before its target.
pub const PROBE_HEAD: &'static str = "M-SEARCH * HTTP/1.1\r\nHOST: 239.255.255.250:1900\r\nMAIN: \"ssdp:discover\"\r\nST: ";

/// The text of a search probe after its target.
pub const PROBE_TAIL: &'static str = "\r\nUSER-AGENT: Linux/2.2 UPnP/1.1 ssdp/0.1.0\r\n\r\n";

/// The search probe for `target`.
pub open spec fn probe_spec(target: Seq<char>) -> Seq<char> {
    PROBE_HEAD@ + target + PROBE_TAIL@
}

/// The `M-SEARCH` request that asks every service matching `target` to
/// answer, addressed to the discovery multicast group.
pub fn msearch_packet(target: &str) -> (r: String)
    ensures
        r@ == probe_spec(target@),
{
    let mut p = PROBE_HEAD.to_owned();
    p.append(target);
    p.append(PROBE_TAIL);
    p
}

/// The probes that a search sends, in order: `attempts` copies (three by
/// default) of the probe for `target` (`ssdp:all` by default).
pub fn search_packets(target: Option<String>, attempts: Option<u16>) -> (r: Vec<String>)
    ensures
        r@.len() == (match attempts {
            Some(n) => n,
            None => DEFAULT_ATTEMPTS,
        }),
        forall|i: int|
            0 <= i < r@.len() ==> (#[trigger] r@[i])@ == probe_spec(
                match target {
                    Some(t) => t@,
                    None => DEFAULT_TARGET@,
                },
            ),
{
    let remaining: u16 = match attempts {
        Some(n) => n,
        None => DEFAULT_ATTEMPTS,
    };
    let st = match target {
        Some(t) => t,
        None => DEFAULT_TARGET.to_owned(),
    };
    let mut out: Vec<String> = Vec::new();
    let mut k: u16 = 0;
    while k < remaining
        invariant
            k <= remaining,
            out@.len() == k,
            forall|i: int| 0 <= i < k ==> (#[trigger] out@[i])@ == probe_spec(st@),
        decreases remaining - k,
    {
        out.push(msearch_packet(st.as_str()));
        k = k + 1;
    }
    out
}

} // verus!
