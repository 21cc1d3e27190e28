//! Agent profiles: which client an HTTP/2 connection presents itself as, the
//! order in which that client sends the pseudo-headers, its default stream
//! priority, and the header that selects it.

use crate::frame::{StreamDependency, StreamId};
use vstd::prelude::*;
use vstd::utf8::{decode_utf8, encode_utf8, encode_utf8_decode_utf8};

verus! {

/// The four request pseudo-headers.
#[derive(Clone, Copy, Debug, PartialEq, Eq, Hash, Structural)]
pub enum PseudoType {
    Method,
    Scheme,
    Authority,
    Path,
}

/// A client whose connection fingerprint is reproduced.
#[derive(Clone, Copy, Debug, PartialEq, Eq, Hash, Structural)]
pub enum AgentProfile {
    Chrome,
    Firefox,
    Safari,
    Edge,
    OkHttp,
}

/// The header that selects a profile; it never leaves the process.
pub const CLIENT_PROFILE_HEADER: &'static str = "x-client-profile";

/// The order in which the client of profile `p` sends the pseudo-headers.
pub open spec fn pseudo_order(p: AgentProfile) -> Seq<PseudoType> {
    match p {
        AgentProfile::Chrome | AgentProfile::Edge => seq![
            PseudoType::Method,
            PseudoType::Authority,
            PseudoType::Scheme,
            PseudoType::Path,
        ],
        AgentProfile::OkHttp | AgentProfile::Firefox => seq![
            PseudoType::Method,
            PseudoType::Path,
            PseudoType::Authority,
            PseudoType::Scheme,
        ],
        AgentProfile::Safari => seq![
            PseudoType::Method,
            PseudoType::Scheme,
            PseudoType::Path,
            PseudoType::Authority,
        ],
    }
}

/// The weight byte of the default dependency of profile `p`.
pub open spec fn default_weight(p: AgentProfile) -> u8 {
    if p is Safari {
        254
    } else {
        255
    }
}

/// Whether the default dependency of profile `p` is exclusive.
pub open spec fn default_exclusive(p: AgentProfile) -> bool {
    !(p is Safari)
}

/// The lowercase token that names profile `p`.
pub open spec fn token_of(p: AgentProfile) -> Seq<char> {
    match p {
        AgentProfile::Chrome => "chrome"@,
        AgentProfile::Firefox => "firefox"@,
        AgentProfile::Safari => "safari"@,
        AgentProfile::Edge => "edge"@,
        AgentProfile::OkHttp => "okhttp"@,
    }
}

/// The profile that token `t` names; any other text names Chrome.
pub open spec fn profile_of_token(t: Seq<char>) -> AgentProfile {
    if t == "firefox"@ {
        AgentProfile::Firefox
    } else if t == "safari"@ {
        AgentProfile::Safari
    } else if t == "edge"@ {
        AgentProfile::Edge
    } else if t == "okhttp"@ {
        AgentProfile::OkHttp
    } else {
        AgentProfile::Chrome
    }
}

/// Whether two strings hold the same characters, compared by their bytes.
fn str_eq(a: &str, b: &str) -> (r: bool)
    ensures
        r == (a@ == b@),
{
    let x = a.as_bytes();
    let y = b.as_bytes();
    proof {
        encode_utf8_decode_utf8(a@);
        encode_utf8_decode_utf8(b@);
    }
    if x.len() != y.len() {
        return false;
    }
    let mut i: usize = 0;
    while i < x.len()
        invariant
            x@ == encode_utf8(a@),
            y@ == encode_utf8(b@),
            decode_utf8(x@) == a@,
            decode_utf8(y@) == b@,
            x@.len() == y@.len(),
            0 <= i <= x@.len(),
            forall|j: int| 0 <= j < i ==> x@[j] == y@[j],
        decreases x@.len() - i,
    {
        if x[i] != y[i] {
            return false;
        }
        i += 1;
    }
    assert(x@ =~= y@);
    true
}

/// The byte `b` with an ASCII capital letter made small.
pub open spec fn ascii_lower(b: u8) -> u8 {
    if 0x41 <= b <= 0x5a {
        (b + 0x20) as u8
    } else {
        b
    }
}

/// Whether the header name held in `name` is the profile header, ignoring
/// ASCII case.
pub open spec fn is_profile_header_name(name: Seq<u8>) -> bool {
    let target = encode_utf8(CLIENT_PROFILE_HEADER@);
    &&& name.len() == target.len()
    &&& forall|i: int| 0 <= i < name.len() ==> ascii_lower(#[trigger] name[i]) == target[i]
}

/// Whether header `h`, a name and a value, is the profile header.
pub open spec fn is_profile_header(h: (String, String)) -> bool {
    is_profile_header_name(encode_utf8(h.0@))
}

/// The headers other than the profile header, in their order.
pub open spec fn strip_profile_header(hs: Seq<(String, String)>) -> Seq<(String, String)> {
    hs.filter(other_header())
}

/// Holds of every header but the profile header.
pub open spec fn other_header() -> spec_fn((String, String)) -> bool {
    |h: (String, String)| !is_profile_header(h)
}

/// The value of the first profile header in `hs`, if any.
pub open spec fn first_profile_value(hs: Seq<(String, String)>) -> Option<Seq<char>>
    decreases hs.len(),
{
    if hs.len() == 0 {
        None
    } else {
        match first_profile_value(hs.drop_last()) {
            Some(v) => Some(v),
            None => if is_profile_header(hs.last()) {
                Some(hs.last().1@)
            } else {
                None
            },
        }
    }
}

/// The profile that a header set selects: the one its first profile header
/// names, else Chrome.
pub open spec fn profile_of_headers(hs: Seq<(String, String)>) -> AgentProfile {
    match first_profile_value(hs) {
        Some(v) => profile_of_token(v),
        None => AgentProfile::Chrome,
    }
}

fn to_ascii_lower(b: u8) -> (r: u8)
    ensures
        r == ascii_lower(b),
{
    if 0x41 <= b && b <= 0x5a {
        b + 0x20
    } else {
        b
    }
}

/// Whether `name` is the profile header, ignoring ASCII case.
fn is_profile_header_str(name: &str) -> (r: bool)
    ensures
        r == is_profile_header_name(encode_utf8(name@)),
{
    let x = name.as_bytes();
    let target = CLIENT_PROFILE_HEADER.as_bytes();
    if x.len() != target.len() {
        return false;
    }
    let mut i: usize = 0;
    while i < x.len()
        invariant
            x@ == encode_utf8(name@),
            target@ == encode_utf8(CLIENT_PROFILE_HEADER@),
            x@.len() == target@.len(),
            0 <= i <= x@.len(),
            forall|j: int| 0 <= j < i ==> ascii_lower(#[trigger] x@[j]) == target@[j],
        decreases x@.len() - i,
    {
        if to_ascii_lower(x[i]) != target[i] {
            return false;
        }
        i += 1;
    }
    true
}

impl AgentProfile {
    /// The pseudo-headers in the order this client sends them.
    pub fn to_pseudo(&self) -> (r: [PseudoType; 4])
        ensures
            r@ == pseudo_order(*self),
    {
        let r = match self {
            AgentProfile::Chrome | AgentProfile::Edge => [
                PseudoType::Method,
                PseudoType::Authority,
                PseudoType::Scheme,
                PseudoType::Path,
            ],
            AgentProfile::OkHttp | AgentProfile::Firefox => [
                PseudoType::Method,
                PseudoType::Path,
                PseudoType::Authority,
                PseudoType::Scheme,
            ],
            AgentProfile::Safari => [
                PseudoType::Method,
                PseudoType::Scheme,
                PseudoType::Path,
                PseudoType::Authority,
            ],
        };
        assert(r@ =~= pseudo_order(*self));
        r
    }

    /// The priority this client gives its streams: a dependency on the
    /// connection, exclusive with weight 255, but for Safari's 254, not exclusive.
    pub fn to_stream_dependency(&self) -> (r: StreamDependency)
        ensures
            r.spec_dependency_id().spec_value() == 0,
            r.spec_weight() == default_weight(*self),
            r.spec_is_exclusive() == default_exclusive(*self),
    {
        match self {
            AgentProfile::Safari => StreamDependency::new(StreamId::zero(), 254, false),
            _ => StreamDependency::new(StreamId::zero(), 255, true),
        }
    }

    /// The token that names this profile.
    fn token(&self) -> (r: &'static str)
        ensures
            r@ == token_of(*self),
    {
        match self {
            AgentProfile::Chrome => "chrome",
            AgentProfile::Firefox => "firefox",
            AgentProfile::Safari => "safari",
            AgentProfile::Edge => "edge",
            AgentProfile::OkHttp => "okhttp",
        }
    }

    /// The header that selects this profile.
    pub fn to_header(&self) -> (r: (&'static str, String))
        ensures
            r.0@ == CLIENT_PROFILE_HEADER@,
            r.1@ == token_of(*self),
    {
        (CLIENT_PROFILE_HEADER, self.token().to_owned())
    }

    /// Takes the profile out of a header set: the profile that the first
    /// profile header names (Chrome where there is none), with every profile
    /// header removed and the other headers kept in their order.
    pub fn from_headers(headers: &mut Vec<(String, String)>) -> (r: AgentProfile)
        ensures
            r == profile_of_headers(old(headers)@),
            final(headers)@ == strip_profile_header(old(headers)@),
    {
        let mut kept: Vec<(String, String)> = Vec::new();
        let mut found: Option<AgentProfile> = None;
        let n = headers.len();
        let mut i: usize = 0;
        while i < n
            invariant
                n == headers@.len(),
                headers@ == old(headers)@,
                0 <= i <= n,
                kept@ == headers@.take(i as int).filter(other_header()),
                found == match first_profile_value(headers@.take(i as int)) {
                    Some(v) => Some(profile_of_token(v)),
                    None => None::<AgentProfile>,
                },
            decreases n - i,
        {
            let ghost before = headers@.take(i as int);
            proof {
                assert(headers@.take(i + 1) =~= before.push(headers@[i as int]));
                assert(before.push(headers@[i as int]).drop_last() =~= before);
                before.lemma_filter_push(headers@[i as int], other_header());
            }
            if is_profile_header_str(headers[i].0.as_str()) {
                if found.is_none() {
                    found = Some(AgentProfile::from_token(headers[i].1.as_str()));
                }
            } else {
                let h = (headers[i].0.clone(), headers[i].1.clone());
                kept.push(h);
            }
            i += 1;
        }
        proof {
            assert(headers@.take(n as int) =~= headers@);
        }
        *headers = kept;
        match found {
            Some(p) => p,
            None => AgentProfile::Chrome,
        }
    }

    /// The profile that `token` names; any other text gives Chrome.
    fn from_token(token: &str) -> (r: AgentProfile)
        ensures
            r == profile_of_token(token@),
    {
        if str_eq(token, "firefox") {
            AgentProfile::Firefox
        } else if str_eq(token, "safari") {
            AgentProfile::Safari
        } else if str_eq(token, "edge") {
            AgentProfile::Edge
        } else if str_eq(token, "okhttp") {
            AgentProfile::OkHttp
        } else {
            AgentProfile::Chrome
        }
    }
}

/// Chrome.
impl Default for AgentProfile {
    fn default() -> (r: AgentProfile)
        ensures
            r == AgentProfile::Chrome,
    {
        AgentProfile::Chrome
    }
}

/// Reads a profile token; text that names no profile gives Chrome.
impl<'a> From<&'a str> for AgentProfile {
    fn from(s: &'a str) -> (r: AgentProfile) {
        AgentProfile::from_token(s)
    }
}

impl<'a> vstd::std_specs::convert::FromSpecImpl<&'a str> for AgentProfile {
    open spec fn obeys_from_spec() -> bool {
        true
    }

    open spec fn from_spec(v: &'a str) -> AgentProfile {
        profile_of_token(v@)
    }
}

// ===== Laws of the profiles =====

/// A profile's own token reads back as that profile.
pub proof fn lemma_token_round_trip(p: AgentProfile)
    ensures
        profile_of_token(token_of(p)) == p,
{
    reveal_strlit("chrome");
    reveal_strlit("firefox");
    reveal_strlit("safari");
    reveal_strlit("edge");
    reveal_strlit("okhttp");
    assert("chrome"@[0] == 'c' && "firefox"@[0] == 'f' && "safari"@[0] == 's' && "edge"@[0]
        == 'e' && "okhttp"@[0] == 'o');
}

/// Reading a token never fails: text that is no profile's token reads as Chrome.
pub proof fn lemma_unknown_token_is_chrome(t: Seq<char>)
    requires
        forall|p: AgentProfile| t != #[trigger] token_of(p),
    ensures
        profile_of_token(t) == AgentProfile::Chrome,
{
    assert(t != token_of(AgentProfile::Firefox));
    assert(t != token_of(AgentProfile::Safari));
    assert(t != token_of(AgentProfile::Edge));
    assert(t != token_of(AgentProfile::OkHttp));
}

/// A header set without the profile header is left as it is and selects Chrome.
proof fn lemma_no_profile_header(hs: Seq<(String, String)>)
    requires
        forall|i: int| 0 <= i < hs.len() ==> !is_profile_header(#[trigger] hs[i]),
    ensures
        strip_profile_header(hs) == hs,
        first_profile_value(hs) is None,
    decreases hs.len(),
{
    if hs.len() > 0 {
        let rest = hs.drop_last();
        assert(forall|i: int| 0 <= i < rest.len() ==> rest[i] == hs[i]);
        lemma_no_profile_header(rest);
        assert(rest.push(hs.last()) =~= hs);
        rest.lemma_filter_push(hs.last(), other_header());
    }
}

/// Taking the profile out of a header set removes every profile header and
/// nothing else, keeping the order of the rest; taking it out again finds none
/// and changes nothing; and a set without the profile header is left as it is
/// and selects Chrome.
pub proof fn lemma_strip_profile_header(hs: Seq<(String, String)>)
    ensures
        forall|i: int|
            0 <= i < strip_profile_header(hs).len() ==> !is_profile_header(
                #[trigger] strip_profile_header(hs)[i],
            ),
        strip_profile_header(strip_profile_header(hs)) == strip_profile_header(hs),
        profile_of_headers(strip_profile_header(hs)) == AgentProfile::Chrome,
        (forall|i: int| 0 <= i < hs.len() ==> !is_profile_header(#[trigger] hs[i])) ==> (
        strip_profile_header(hs) == hs && profile_of_headers(hs) == AgentProfile::Chrome),
{
    let s = strip_profile_header(hs);
    assert forall|i: int| 0 <= i < s.len() implies !is_profile_header(#[trigger] s[i]) by {
        hs.lemma_filter_pred(other_header(), i);
    }
    lemma_no_profile_header(s);
    if forall|i: int| 0 <= i < hs.len() ==> !is_profile_header(#[trigger] hs[i]) {
        lemma_no_profile_header(hs);
    }
}

} // verus!
