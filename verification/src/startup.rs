//! Rules of startup: which addresses may be bound, which key files are valid,
//! which origins are allowed, and what every response carries.

use vstd::prelude::*;
use vstd::string::*;
use vstd::utf8::*;

use crate::headers::{first_value, header_views, HeaderEntry, HeaderView};
use crate::outside::{accepts_header_value, is_field_value};
use crate::text::{copy_bytes, same_text, texts};

verus! {

// ---------------------------------------------------------------------------
// Transport guard
// ---------------------------------------------------------------------------

/// An IP address.
#[derive(Debug, Clone, Copy)]
pub enum IpAddress {
    V4 { octets: [u8; 4] },
    V6 { segments: [u16; 8] },
}

/// Whether these segments are those of ::1.
pub open spec fn is_one(segments: Seq<u16>) -> bool {
    segments == seq![0u16, 0, 0, 0, 0, 0, 0, 1]
}

/// Whether an address is in 127.0.0.0/8 or is ::1.
pub open spec fn loopback(ip: IpAddress) -> bool {
    match ip {
        IpAddress::V4 { octets } => octets@[0] == 127,
        IpAddress::V6 { segments } => is_one(segments@),
    }
}

fn one(segments: &[u16; 8]) -> (yes: bool)
    ensures
        yes == is_one(segments@),
{
    let mut i: usize = 0;
    while i < 7
        invariant
            i <= 7,
            forall|j: int| 0 <= j < i ==> #[trigger] segments@[j] == 0,
        decreases 7 - i,
    {
        if segments[i] != 0 {
            return false;
        }
        i += 1;
    }
    assert(segments@[7] == 1 ==> segments@ =~= seq![0u16, 0, 0, 0, 0, 0, 0, 1]);
    segments[7] == 1
}

/// Whether an address is in 127.0.0.0/8 or is ::1.
pub fn is_loopback(ip: IpAddress) -> (yes: bool)
    ensures
        yes == loopback(ip),
{
    match ip {
        IpAddress::V4 { octets } => octets[0] == 127,
        IpAddress::V6 { segments } => one(&segments),
    }
}

// ---------------------------------------------------------------------------
// Session key
// ---------------------------------------------------------------------------

/// Why a key file is refused.
#[derive(Debug, Clone, Copy, PartialEq, Eq, Structural)]
pub enum KeyError {
    WrongLength,
    AllZero,
}

impl KeyError {
    /// What is said of the key file.
    pub open spec fn spec_message(self) -> Seq<char> {
        match self {
            KeyError::WrongLength => "session key file must be exactly 32 bytes"@,
            KeyError::AllZero => "session key file is all-zero (invalid)"@,
        }
    }

    /// What is said of the key file.
    pub fn message(self) -> (message: &'static str)
        ensures
            message@ == self.spec_message(),
    {
        match self {
            KeyError::WrongLength => "session key file must be exactly 32 bytes",
            KeyError::AllZero => "session key file is all-zero (invalid)",
        }
    }
}

/// The key that a file's bytes are: exactly thirty-two, and not all zero.
pub open spec fn session_key(bytes: Seq<u8>) -> Result<Seq<u8>, KeyError> {
    if bytes.len() != 32 {
        Err(KeyError::WrongLength)
    } else if forall|i: int| 0 <= i < bytes.len() ==> #[trigger] bytes[i] == 0 {
        Err(KeyError::AllZero)
    } else {
        Ok(bytes)
    }
}

/// Reads the key from a file's bytes.
pub fn read_key(bytes: &[u8]) -> (key: Result<[u8; 32], KeyError>)
    ensures
        match key {
            Ok(key) => session_key(bytes@) == Ok::<Seq<u8>, KeyError>(key@),
            Err(error) => session_key(bytes@) == Err::<Seq<u8>, KeyError>(error),
        },
{
    if bytes.len() != 32 {
        return Err(KeyError::WrongLength);
    }
    let mut key: [u8; 32] = [0; 32];
    let mut zero = true;
    let mut i: usize = 0;
    while i < 32
        invariant
            i <= 32,
            bytes@.len() == 32,
            forall|j: int| 0 <= j < i ==> key@[j] == bytes@[j],
            zero == (forall|j: int| 0 <= j < i ==> #[trigger] bytes@[j] == 0),
        decreases 32 - i,
    {
        key[i] = bytes[i];
        if bytes[i] != 0 {
            zero = false;
        }
        i += 1;
    }
    assert(key@ =~= bytes@);
    if zero {
        Err(KeyError::AllZero)
    } else {
        Ok(key)
    }
}

// ---------------------------------------------------------------------------
// Cross-origin policy, response headers, login concurrency
// ---------------------------------------------------------------------------

/// The cross-origin policy: exact origins only, and credentials only with an
/// explicit list of them.
#[derive(Debug)]
pub struct CorsPolicy {
    pub origins: Vec<String>,
    pub allow_credentials: bool,
    pub methods: Vec<&'static str>,
    pub headers: Vec<&'static str>,
}

/// A policy as contracts see it.
pub struct CorsView {
    pub origins: Seq<Seq<char>>,
    pub allow_credentials: bool,
    pub methods: Seq<Seq<char>>,
    pub headers: Seq<Seq<char>>,
}

/// The characters of each string.
pub open spec fn literals(strings: Seq<&'static str>) -> Seq<Seq<char>> {
    strings.map_values(|text: &'static str| text@)
}

impl View for CorsPolicy {
    type V = CorsView;

    open spec fn view(&self) -> CorsView {
        CorsView {
            origins: texts(self.origins@),
            allow_credentials: self.allow_credentials,
            methods: literals(self.methods@),
            headers: literals(self.headers@),
        }
    }
}

/// The methods that other origins may use.
pub open spec fn cors_methods() -> Seq<Seq<char>> {
    seq!["GET"@, "POST"@, "PUT"@]
}

/// The request headers that other origins may send.
pub open spec fn cors_headers() -> Seq<Seq<char>> {
    seq![
        "authorization"@,
        "content-type"@,
        "x-wyrtloom-client"@,
        "x-wyrtloom-timestamp"@,
        "x-wyrtloom-nonce"@,
        "x-wyrtloom-signature"@,
    ]
}

/// The position of the first origin that cannot be a header value; the length
/// if there is none.
pub open spec fn first_invalid(origins: Seq<Seq<char>>) -> nat
    decreases origins.len(),
{
    if origins.len() == 0 || !is_field_value(origins[0]) {
        0
    } else {
        first_invalid(origins.drop_first()) + 1
    }
}

/// The policy for these origins, or the message for the first that is invalid.
pub open spec fn cors_policy(origins: Seq<Seq<char>>) -> Result<CorsView, Seq<char>> {
    let invalid = first_invalid(origins);
    if invalid < origins.len() {
        Err("invalid --cors-origin '"@ + origins[invalid as int] + "'"@)
    } else {
        Ok(
            CorsView {
                origins,
                allow_credentials: origins.len() > 0,
                methods: cors_methods(),
                headers: cors_headers(),
            },
        )
    }
}

/// Whether no origin is the wildcard, which is no exact origin.
pub open spec fn exact_origins(origins: Seq<Seq<char>>) -> bool {
    !origins.contains("*"@)
}

/// Whether a policy can be decided for these origins: they are exact, or one of
/// them is invalid, which is reported whatever the others are.
pub open spec fn decidable_origins(origins: Seq<Seq<char>>) -> bool {
    exact_origins(origins) || first_invalid(origins) < origins.len()
}

proof fn first_invalid_is(origins: Seq<Seq<char>>, at: nat)
    requires
        at <= origins.len(),
        forall|i: int| 0 <= i < at ==> is_field_value(#[trigger] origins[i]),
        at < origins.len() ==> !is_field_value(origins[at as int]),
    ensures
        first_invalid(origins) == at,
    decreases origins.len(),
{
    if at > 0 {
        let rest = origins.drop_first();
        assert forall|i: int| 0 <= i < at - 1 implies is_field_value(#[trigger] rest[i]) by {
            assert(rest[i] == origins[i + 1]);
        }
        assert(is_field_value(origins[0]));
        first_invalid_is(rest, (at - 1) as nat);
    }
}

/// Builds the policy for these origins. With none, no cross-origin access is
/// allowed.
pub fn build_cors(origins: &Vec<String>) -> (policy: Result<CorsPolicy, String>)
    requires
        decidable_origins(texts(origins@)),
    ensures
        match policy {
            Ok(policy) => cors_policy(texts(origins@)) == Ok::<CorsView, Seq<char>>(policy@),
            Err(message) => cors_policy(texts(origins@)) == Err::<CorsView, Seq<char>>(message@),
        },
{
    let ghost wanted = texts(origins@);
    let mut accepted: Vec<String> = Vec::new();
    let mut i: usize = 0;
    assert(texts(accepted@) =~= wanted.take(0));
    while i < origins.len()
        invariant
            i <= origins@.len(),
            wanted == texts(origins@),
            texts(accepted@) == wanted.take(i as int),
            forall|j: int| 0 <= j < i ==> is_field_value(#[trigger] wanted[j]),
        decreases origins@.len() - i,
    {
        assert(wanted[i as int] == origins@[i as int]@);
        if !accepts_header_value(origins[i].as_str()) {
            let mut message = "invalid --cors-origin '".to_owned();
            message.append(origins[i].as_str());
            message.append("'");
            proof {
                first_invalid_is(wanted, i as nat);
            }
            return Err(message);
        }
        let ghost before = accepted@;
        accepted.push(origins[i].clone());
        assert(texts(accepted@) =~= texts(before).push(wanted[i as int]));
        assert(wanted.take(i + 1) =~= wanted.take(i as int).push(wanted[i as int]));
        i += 1;
    }
    proof {
        first_invalid_is(wanted, i as nat);
    }
    assert(wanted.take(i as int) =~= wanted);
    let methods: Vec<&'static str> = vec!["GET", "POST", "PUT"];
    let headers: Vec<&'static str> = vec![
        "authorization",
        "content-type",
        "x-wyrtloom-client",
        "x-wyrtloom-timestamp",
        "x-wyrtloom-nonce",
        "x-wyrtloom-signature",
    ];
    assert(literals(methods@) =~= cors_methods());
    assert(literals(headers@) =~= cors_headers());
    let allow_credentials = accepted.len() > 0;
    Ok(CorsPolicy { origins: accepted, allow_credentials, methods, headers })
}

/// Tells whether a policy can be decided for these origins.
pub fn can_decide_origins(origins: &Vec<String>) -> (decidable: bool)
    ensures
        decidable == decidable_origins(texts(origins@)),
{
    let ghost wanted = texts(origins@);
    let mut wildcard = false;
    let mut i: usize = 0;
    while i < origins.len()
        invariant
            i <= origins@.len(),
            wanted == texts(origins@),
            wildcard == wanted.take(i as int).contains("*"@),
            forall|j: int| 0 <= j < i ==> is_field_value(#[trigger] wanted[j]),
        decreases origins@.len() - i,
    {
        assert(wanted[i as int] == origins@[i as int]@);
        if !accepts_header_value(origins[i].as_str()) {
            proof {
                first_invalid_is(wanted, i as nat);
            }
            return true;
        }
        let ghost seen = wanted.take(i as int);
        assert(wanted.take(i + 1) =~= seen.push(wanted[i as int]));
        proof {
            pushed_contains(seen, wanted[i as int], "*"@);
        }
        if same_text(origins[i].as_str(), "*") {
            wildcard = true;
        }
        i += 1;
    }
    proof {
        first_invalid_is(wanted, i as nat);
        assert(wanted.take(i as int) =~= wanted);
    }
    !wildcard
}

proof fn pushed_contains(seen: Seq<Seq<char>>, next: Seq<char>, wanted: Seq<char>)
    ensures
        seen.push(next).contains(wanted) <==> seen.contains(wanted) || next == wanted,
{
    let all = seen.push(next);
    if all.contains(wanted) {
        let k = choose|k: int| 0 <= k < all.len() && all[k] == wanted;
        if k < seen.len() {
            assert(seen[k] == wanted);
        }
    }
    if seen.contains(wanted) {
        let k = choose|k: int| 0 <= k < seen.len() && seen[k] == wanted;
        assert(all[k] == wanted);
    }
    assert(all[seen.len() as int] == next);
}

/// What responses let a browser load, and who may frame them.
pub const CONTENT_SECURITY_POLICY: &'static str = "default-src 'self'; script-src 'self'; object-src 'none'; base-uri 'none'; frame-ancestors 'none'";

/// A response header.
#[derive(Debug, Clone, Copy)]
pub struct ResponseHeader {
    pub name: &'static str,
    pub value: &'static str,
}

impl View for ResponseHeader {
    type V = HeaderView;

    open spec fn view(&self) -> HeaderView {
        HeaderView { name: self.name@, value: encode_utf8(self.value@) }
    }
}

/// The headers that every response carries.
pub open spec fn security_header_views() -> Seq<HeaderView> {
    seq![
        HeaderView {
            name: "content-security-policy"@,
            value: encode_utf8(CONTENT_SECURITY_POLICY@),
        },
        HeaderView { name: "x-content-type-options"@, value: encode_utf8("nosniff"@) },
        HeaderView { name: "referrer-policy"@, value: encode_utf8("no-referrer"@) },
    ]
}

/// The headers that every response carries.
pub fn security_headers() -> (headers: [ResponseHeader; 3])
    ensures
        headers@.map_values(|header: ResponseHeader| header@) == security_header_views(),
        headers@[0].value@ == CONTENT_SECURITY_POLICY@,
        headers@[1].value@ == "nosniff"@,
        headers@[2].value@ == "no-referrer"@,
{
    let headers = [
        ResponseHeader { name: "content-security-policy", value: CONTENT_SECURITY_POLICY },
        ResponseHeader { name: "x-content-type-options", value: "nosniff" },
        ResponseHeader { name: "referrer-policy", value: "no-referrer" },
    ];
    assert(headers@.map_values(|header: ResponseHeader| header@) =~= security_header_views());
    headers
}

/// Whether a header is one of those that every response carries.
pub open spec fn is_security_name(name: Seq<char>) -> bool {
    name == "content-security-policy"@ || name == "x-content-type-options"@ || name
        == "referrer-policy"@
}

/// The headers that are none of those that every response carries.
pub open spec fn other_headers(headers: Seq<HeaderView>) -> Seq<HeaderView>
    decreases headers.len(),
{
    if headers.len() == 0 {
        Seq::empty()
    } else {
        let rest = other_headers(headers.drop_first());
        if is_security_name(headers[0].name) {
            rest
        } else {
            seq![headers[0]] + rest
        }
    }
}

/// The headers of a response as it is sent, given those that were set on it:
/// what it must carry overrides what was set.
pub open spec fn secured(headers: Seq<HeaderView>) -> Seq<HeaderView> {
    other_headers(headers) + security_header_views()
}

/// Sets the headers that every response carries.
pub fn secure_response(headers: &Vec<HeaderEntry>) -> (sent: Vec<HeaderEntry>)
    ensures
        header_views(sent@) == secured(header_views(headers@)),
{
    let ghost given = header_views(headers@);
    let mut sent: Vec<HeaderEntry> = Vec::new();
    let mut i: usize = 0;
    assert(given.skip(0) =~= given);
    assert(header_views(sent@) + other_headers(given.skip(0)) =~= other_headers(given));
    while i < headers.len()
        invariant
            i <= headers@.len(),
            given == header_views(headers@),
            header_views(sent@) + other_headers(given.skip(i as int)) == other_headers(given),
        decreases headers@.len() - i,
    {
        let entry = &headers[i];
        let ghost before = header_views(sent@);
        let ghost rest = given.skip(i as int);
        assert(rest[0] == entry@ && rest.drop_first() =~= given.skip(i + 1));
        let name = entry.name.as_str();
        let overridden = same_text(name, "content-security-policy") || same_text(
            name,
            "x-content-type-options",
        ) || same_text(name, "referrer-policy");
        if !overridden {
            sent.push(
                HeaderEntry { name: entry.name.clone(), value: copy_bytes(&entry.value) },
            );
            assert(header_views(sent@) =~= before.push(entry@));
            assert(before + other_headers(rest) =~= header_views(sent@) + other_headers(
                given.skip(i + 1),
            ));
        }
        i += 1;
    }
    assert(header_views(sent@) =~= other_headers(given));
    let added = security_headers();
    let mut k: usize = 0;
    assert(other_headers(given) + security_header_views().take(0) =~= other_headers(given));
    while k < 3
        invariant
            k <= 3,
            added@.map_values(|header: ResponseHeader| header@) == security_header_views(),
            header_views(sent@) == other_headers(given) + security_header_views().take(k as int),
        decreases 3 - k,
    {
        let ghost before = header_views(sent@);
        let mut value: Vec<u8> = Vec::new();
        value.extend_from_slice(added[k].value.as_bytes());
        assert(value@ =~= encode_utf8(added@[k as int].value@));
        sent.push(HeaderEntry { name: added[k].name.to_owned(), value });
        assert(security_header_views()[k as int] == added@[k as int]@);
        assert(header_views(sent@) =~= before.push(added@[k as int]@));
        assert(security_header_views().take(k + 1) =~= security_header_views().take(
            k as int,
        ).push(added@[k as int]@));
        k += 1;
    }
    assert(security_header_views().take(3) =~= security_header_views());
    sent
}

proof fn security_names_differ()
    ensures
        "content-security-policy"@ != "x-content-type-options"@,
        "content-security-policy"@ != "referrer-policy"@,
        "x-content-type-options"@ != "referrer-policy"@,
{
    reveal_strlit("content-security-policy");
    reveal_strlit("x-content-type-options");
    reveal_strlit("referrer-policy");
    assert("content-security-policy"@.len() == 23);
    assert("x-content-type-options"@.len() == 22);
    assert("referrer-policy"@.len() == 15);
}

proof fn first_among(left: Seq<HeaderView>, right: Seq<HeaderView>, name: Seq<char>)
    ensures
        first_value(left + right, name) == (match first_value(left, name) {
            Some(value) => Some(value),
            None => first_value(right, name),
        }),
    decreases left.len(),
{
    if left.len() == 0 {
        assert(left + right =~= right);
    } else {
        assert((left + right).drop_first() =~= left.drop_first() + right);
        first_among(left.drop_first(), right, name);
    }
}

proof fn first_of_others(headers: Seq<HeaderView>, name: Seq<char>)
    ensures
        first_value(other_headers(headers), name) == (if is_security_name(name) {
            None
        } else {
            first_value(headers, name)
        }),
        forall|i: int|
            0 <= i < other_headers(headers).len() ==> !is_security_name(
                (#[trigger] other_headers(headers)[i]).name,
            ),
    decreases headers.len(),
{
    if headers.len() > 0 {
        let rest = other_headers(headers.drop_first());
        first_of_others(headers.drop_first(), name);
        if !is_security_name(headers[0].name) {
            let all = seq![headers[0]] + rest;
            assert(all.drop_first() =~= rest);
            assert forall|i: int| 0 <= i < all.len() implies !is_security_name(
                (#[trigger] all[i]).name,
            ) by {
                if i > 0 {
                    assert(all[i] == rest[i - 1]);
                }
            }
        }
    }
}

/// Every response carries the three headers with exactly their values, once
/// each, whatever was set on it; any other header reads as it was set.
pub proof fn every_response_is_secured(headers: Seq<HeaderView>, name: Seq<char>)
    ensures
        first_value(secured(headers), "content-security-policy"@) == Some(
            encode_utf8(CONTENT_SECURITY_POLICY@),
        ),
        first_value(secured(headers), "x-content-type-options"@) == Some(encode_utf8("nosniff"@)),
        first_value(secured(headers), "referrer-policy"@) == Some(encode_utf8("no-referrer"@)),
        forall|i: int|
            0 <= i < secured(headers).len() - 3 ==> !is_security_name(
                (#[trigger] secured(headers)[i]).name,
            ),
        !is_security_name(name) ==> first_value(secured(headers), name) == first_value(
            headers,
            name,
        ),
{
    security_names_differ();
    let kept = other_headers(headers);
    let added = security_header_views();
    assert(added.drop_first().drop_first() =~= seq![added[2]]);
    assert(added.drop_first()[0] == added[1] && added.drop_first().drop_first()[0] == added[2]);
    assert(added.drop_first().drop_first().drop_first() =~= Seq::<HeaderView>::empty());
    reveal_with_fuel(first_value, 4);
    first_among(kept, added, "content-security-policy"@);
    first_among(kept, added, "x-content-type-options"@);
    first_among(kept, added, "referrer-policy"@);
    first_among(kept, added, name);
    first_of_others(headers, "content-security-policy"@);
    first_of_others(headers, "x-content-type-options"@);
    first_of_others(headers, "referrer-policy"@);
    first_of_others(headers, name);
    assert forall|i: int| 0 <= i < secured(headers).len() - 3 implies !is_security_name(
        (#[trigger] secured(headers)[i]).name,
    ) by {
        assert(secured(headers)[i] == kept[i]);
    }
}

/// How many password checks may run at once: the parallelism of the machine,
/// and at least one.
pub fn num_cpus(available: Option<usize>) -> (slots: usize)
    ensures
        slots == (match available {
            Some(count) => if count > 1 {
                count
            } else {
                1
            },
            None => 1,
        }),
{
    match available {
        Some(count) => if count > 1 {
            count
        } else {
            1
        },
        None => 1,
    }
}

/// A policy can be decided unless the wildcard is listed among origins that are
/// all valid.
pub proof fn only_the_wildcard_is_undecidable(origins: Seq<Seq<char>>, at: int)
    ensures
        !origins.contains("*"@) ==> decidable_origins(origins),
        0 <= at < origins.len() && !is_field_value(origins[at]) ==> decidable_origins(origins),
        origins.contains("*"@) && (forall|i: int|
            0 <= i < origins.len() ==> is_field_value(#[trigger] origins[i]))
            ==> !decidable_origins(origins),
{
    if 0 <= at < origins.len() && !is_field_value(origins[at]) {
        some_origin_is_invalid(origins, at);
    }
    if forall|i: int| 0 <= i < origins.len() ==> is_field_value(#[trigger] origins[i]) {
        first_invalid_is(origins, origins.len());
    }
}

proof fn some_origin_is_invalid(origins: Seq<Seq<char>>, at: int)
    requires
        0 <= at < origins.len(),
        !is_field_value(origins[at]),
    ensures
        first_invalid(origins) < origins.len(),
    decreases origins.len(),
{
    if is_field_value(origins[0]) {
        some_origin_is_invalid(origins.drop_first(), at - 1);
    }
}

/// Whether a name is that of one of the three headers.
pub open spec fn is_one_of_three(name: Seq<char>) -> bool {
    name == "content-security-policy"@ || name == "x-content-type-options"@ || name
        == "referrer-policy"@
}

/// Every header that is none of the three is sent, in the order in which it was
/// set, however often; and none of the three is sent as it was set.
pub proof fn other_headers_are_sent_as_they_were_set(
    before: Seq<HeaderView>,
    header: HeaderView,
    behind: Seq<HeaderView>,
)
    ensures
        ({
            let added = secured(seq![]);
            &&& is_one_of_three(header.name) ==> secured(before + seq![header] + behind) == secured(
                before + behind,
            )
            &&& !is_one_of_three(header.name) ==> secured(seq![header]) == seq![header] + added
            &&& secured(before + behind) == secured(before).take(
                secured(before).len() - added.len(),
            ) + secured(behind)
            &&& added.len() == 3
            &&& added[0].name == "content-security-policy"@ && added[0].value == encode_utf8(
                "default-src 'self'; script-src 'self'; object-src 'none'; base-uri 'none'; frame-ancestors 'none'"@,
            )
            &&& added[1].name == "x-content-type-options"@ && added[1].value == encode_utf8(
                "nosniff"@,
            )
            &&& added[2].name == "referrer-policy"@ && added[2].value == encode_utf8(
                "no-referrer"@,
            )
        }),
{
    others_of_both(before, behind);
    others_of_both(before + seq![header], behind);
    others_of_both(before, seq![header]);
    reveal_with_fuel(other_headers, 2);
    assert(other_headers(seq![]) =~= seq![]);
    assert(seq![header].drop_first() =~= seq![]);
    if is_one_of_three(header.name) {
        assert(other_headers(seq![header]) =~= seq![]);
        assert(other_headers(before + seq![header]) =~= other_headers(before));
    } else {
        assert(other_headers(seq![header]) =~= seq![header]);
        assert(secured(seq![header]) =~= seq![header] + secured(seq![]));
    }
    assert(secured(seq![]) =~= security_header_views());
    assert(secured(before).take(secured(before).len() - 3) =~= other_headers(before));
    assert(secured(before + behind) =~= other_headers(before) + secured(behind));
}

proof fn others_of_both(before: Seq<HeaderView>, behind: Seq<HeaderView>)
    ensures
        other_headers(before + behind) == other_headers(before) + other_headers(behind),
    decreases before.len(),
{
    if before.len() == 0 {
        assert(before + behind =~= behind);
        assert(other_headers(before) + other_headers(behind) =~= other_headers(behind));
    } else {
        others_of_both(before.drop_first(), behind);
        assert((before + behind).drop_first() =~= before.drop_first() + behind);
        assert(other_headers(before + behind) =~= other_headers(before) + other_headers(behind));
    }
}

} // verus!
