//! CORS policy: which cross-origin headers a response carries, computed from
//! the allow-list and the request's declared origin.
//!
//! With a wildcard entry in the allow-list every response allows any origin;
//! otherwise a request origin that matches an allow-list entry byte-for-byte
//! is echoed back, and any other request gets no allow-origin header at all.
//! Three fixed headers (exposed headers, allowed headers, allowed methods)
//! are always present.

use vstd::prelude::*;
use vstd::string::StringSliceAdditionalSpecFns;
use vstd::string::StrSliceExecFns;
use vstd::string::StringExecFns;
use crate::headers::{Header, headers_view, spec_find_header, find_header};
use crate::headers::bytes_eq;

verus! {

/// The wildcard allow-list entry.
pub open spec fn wildcard() -> Seq<u8> {
    "*".spec_bytes()
}

/// Name of the allow-origin response header.
pub open spec fn allow_origin_name() -> Seq<char> {
    "Access-Control-Allow-Origin"@
}

/// The byte strings a list of origins stands for.
pub open spec fn origins_view(os: Seq<Vec<u8>>) -> Seq<Seq<u8>> {
    os.map_values(|o: Vec<u8>| o@)
}

/// The allow-origin part of the CORS headers: the wildcard when the
/// allow-list holds one, the echoed request origin when it is allowed,
/// nothing otherwise.
pub open spec fn spec_allow_origin(
    req: Seq<(Seq<char>, Seq<u8>)>,
    origins: Seq<Seq<u8>>,
) -> Seq<(Seq<char>, Seq<u8>)> {
    if origins.contains(wildcard()) {
        seq![(allow_origin_name(), wildcard())]
    } else {
        match spec_find_header(req, "Origin"@) {
            Some(v) => if origins.contains(v) {
                seq![(allow_origin_name(), v)]
            } else {
                seq![]
            },
            None => seq![],
        }
    }
}

/// The three CORS headers every response carries.
pub open spec fn spec_cors_fixed() -> Seq<(Seq<char>, Seq<u8>)> {
    seq![
        ("Access-Control-Expose-Headers"@, "Invoke-Status".spec_bytes()),
        ("Access-Control-Allow-Headers"@, "*".spec_bytes()),
        ("Access-Control-Allow-Methods"@, "POST, OPTIONS".spec_bytes()),
    ]
}

/// The full CORS header set for a request under an allow-list.
pub open spec fn spec_cors(
    req: Seq<(Seq<char>, Seq<u8>)>,
    origins: Seq<Seq<u8>>,
) -> Seq<(Seq<char>, Seq<u8>)> {
    spec_allow_origin(req, origins) + spec_cors_fixed()
}

/// Does the allow-list contain this exact byte string?
pub fn origins_contain(origins: &Vec<Vec<u8>>, v: &[u8]) -> (r: bool)
    ensures
        r == origins_view(origins@).contains(v@),
{
    let mut i: usize = 0;
    while i < origins.len()
        invariant
            i <= origins@.len(),
            forall|j: int| 0 <= j < i ==> origins@[j]@ != v@,
        decreases origins@.len() - i,
    {
        if bytes_eq(origins[i].as_slice(), v) {
            proof {
                assert(origins_view(origins@)[i as int] == v@);
            }
            return true;
        }
        i += 1;
    }
    proof {
        assert(forall|j: int|
            0 <= j < origins_view(origins@).len() ==> origins_view(origins@)[j] != v@);
    }
    false
}

/// Builds a header from a name and a literal value.
fn header_lit(name: &str, value: &str) -> (h: Header)
    ensures
        h@ == (name@, value.spec_bytes()),
{
    Header { name: String::from_str(name), value: value.as_bytes_vec() }
}

/// Computes the CORS headers for a request under an allow-list.
pub fn cors_headers(req_headers: &Vec<Header>, origins: &Vec<Vec<u8>>) -> (r: Vec<Header>)
    ensures
        headers_view(r@) == spec_cors(headers_view(req_headers@), origins_view(origins@)),
{
    let mut r: Vec<Header> = Vec::new();
    let star = "*";
    if origins_contain(origins, star.as_bytes()) {
        r.push(Header { name: String::from_str("Access-Control-Allow-Origin"), value: star.as_bytes_vec() });
    } else {
        match find_header(req_headers, "Origin") {
            Some(v) => {
                if origins_contain(origins, v.as_slice()) {
                    r.push(Header { name: String::from_str("Access-Control-Allow-Origin"), value: v });
                }
            },
            None => {},
        }
    }
    r.push(header_lit("Access-Control-Expose-Headers", "Invoke-Status"));
    r.push(header_lit("Access-Control-Allow-Headers", "*"));
    r.push(header_lit("Access-Control-Allow-Methods", "POST, OPTIONS"));
    proof {
        assert(headers_view(r@) =~= spec_cors(headers_view(req_headers@), origins_view(origins@)));
    }
    r
}

} // verus!
