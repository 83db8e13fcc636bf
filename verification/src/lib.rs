//! A loopback HTTP-to-invocation bridge: the request pipeline that turns an
//! inbound HTTP request into a structured invocation for a host window and
//! turns the invocation's outcome back into an HTTP response with CORS
//! headers, together with a correlation registry for in-flight requests.

pub mod cors;
pub mod headers;
pub mod invoke;
pub mod laws;
pub mod numparse;
pub mod pipeline;
pub mod registry;
pub mod request;
pub mod response;
pub mod route;
