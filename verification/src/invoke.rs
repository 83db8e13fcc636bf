//! The bridge's configuration: the origin allow-list and the loopback port
//! the listener binds, picked unused at construction, plus the script a
//! hosted page runs to reach the bridge. The script's text embeds the
//! chosen port.

use vstd::prelude::*;
use vstd::string::StringSliceAdditionalSpecFns;
use vstd::string::StrSliceExecFns;
use vstd::string::StringExecFns;
use vstd::utf8::encode_utf8;
use crate::cors::origins_view;
use crate::numparse::{dec_chars, dec_string};

verus! {

/// Relies on `portpicker::pick_unused_port`: probes the machine for a free
/// TCP port. The result depends on transient system state, so nothing is
/// promised of it.
#[verifier::external_body]
fn pick_port() -> (r: Option<u16>) {
    portpicker::pick_unused_port()
}

/// The part of the page script before the port number.
pub open spec fn script_head() -> Seq<char> {
    "(function () {\n  var invokePort = "@
}

/// The part of the page script after the port number.
pub open spec fn script_tail() -> Seq<char> {
    ";\n  window.__INVOKE__ = function (windowLabel, cmd, payload, headers) {\n    return new Promise(function (resolve, reject) {\n      var xhr = new XMLHttpRequest();\n      xhr.open('POST', 'http://127.0.0.1:' + invokePort + '/' + windowLabel + '/' + cmd, true);\n      for (var name in headers) {\n        xhr.setRequestHeader(name, headers[name]);\n      }\n      xhr.onload = function () {\n        if (xhr.getResponseHeader('Invoke-Status') === 'ok') {\n          resolve(xhr.responseText);\n        } else {\n          reject(xhr.responseText);\n        }\n      };\n      xhr.onerror = reject;\n      xhr.send(payload);\n    });\n  };\n})();\n"@
}

/// The page script with the bridge's port written into it.
pub open spec fn spec_init_script(port: u16) -> Seq<char> {
    script_head() + dec_chars(port as int) + script_tail()
}

/// The bridge's configuration: allow-list and listening port.
pub struct Invoke {
    /// Origins allowed to read responses; a `*` entry allows every origin.
    pub allowed_origins: Vec<String>,
    /// The loopback port the listener binds.
    pub port: u16,
}

impl Invoke {
    /// Builds a bridge configuration on a given port.
    pub fn with_port(allowed_origins: Vec<String>, port: u16) -> (r: Invoke)
        ensures
            r.allowed_origins == allowed_origins,
            r.port == port,
    {
        Invoke { allowed_origins, port }
    }

    /// Builds a bridge configuration on a freshly picked unused port;
    /// yields nothing when the machine has no port to give.
    pub fn new(allowed_origins: Vec<String>) -> (r: Option<Invoke>)
        ensures
            match r {
                Some(v) => v.allowed_origins == allowed_origins,
                None => true,
            },
    {
        match pick_port() {
            Some(port) => Some(Invoke { allowed_origins, port }),
            None => None,
        }
    }

    /// The port the listener binds.
    pub fn port(&self) -> (r: u16)
        ensures
            r == self.port,
    {
        self.port
    }

    /// The allow-list as byte strings, as the CORS policy consumes it.
    pub fn allowed_origin_bytes(&self) -> (r: Vec<Vec<u8>>)
        ensures
            origins_view(r@) == self.allowed_origins@.map_values(|s: String| encode_utf8(s@)),
    {
        let mut r: Vec<Vec<u8>> = Vec::new();
        let mut i: usize = 0;
        while i < self.allowed_origins.len()
            invariant
                i <= self.allowed_origins@.len(),
                r@.len() == i,
                forall|j: int| 0 <= j < i ==> r@[j]@ == encode_utf8(self.allowed_origins@[j]@),
            decreases self.allowed_origins@.len() - i,
        {
            r.push(self.allowed_origins[i].as_str().as_bytes_vec());
            i += 1;
        }
        proof {
            assert(origins_view(r@) =~= self.allowed_origins@.map_values(
                |s: String| encode_utf8(s@),
            ));
        }
        r
    }

    /// The script a hosted page runs to reach the bridge: the page script
    /// with this bridge's port written into it.
    pub fn initialization_script(&self) -> (r: String)
        ensures
            r@ == spec_init_script(self.port),
    {
        let mut s = String::from_str("(function () {\n  var invokePort = ");
        let p = dec_string(self.port as u64);
        s.append(p.as_str());
        s.append(
            ";\n  window.__INVOKE__ = function (windowLabel, cmd, payload, headers) {\n    return new Promise(function (resolve, reject) {\n      var xhr = new XMLHttpRequest();\n      xhr.open('POST', 'http://127.0.0.1:' + invokePort + '/' + windowLabel + '/' + cmd, true);\n      for (var name in headers) {\n        xhr.setRequestHeader(name, headers[name]);\n      }\n      xhr.onload = function () {\n        if (xhr.getResponseHeader('Invoke-Status') === 'ok') {\n          resolve(xhr.responseText);\n        } else {\n          reject(xhr.responseText);\n        }\n      };\n      xhr.onerror = reject;\n      xhr.send(payload);\n    });\n  };\n})();\n",
        );
        s
    }
}

} // verus!
