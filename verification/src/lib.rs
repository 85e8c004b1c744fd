//! Resource-lifecycle and error-classification logic for a binding to a
//! native ray-tracing kernel.
//!
//! The native kernel is driven through a foreign-function boundary that this
//! library never touches directly: an unverified shell makes the raw calls and
//! reports back plain observations (whether a returned handle was null, the
//! raw device error value polled right after a call, the identifier an
//! attachment produced, the record a ray query filled in). Every decision the
//! binding makes on those observations lives here, with a contract:
//!
//! - [`error`] classifies each observation into a typed success or failure,
//!   following the policy that the device error state is polled immediately
//!   after every fallible native call;
//! - [`scene`] holds the scene configuration defaults, the decision of which
//!   configuration calls to make, and the bookkeeping that correlates
//!   attachment identifiers back to the geometry that produced them;
//! - [`sphere`] lays out the vertex buffer of a sphere primitive;
//! - [`ray`] holds the ray and hit records and tells a missed query apart
//!   from a failed one;
//! - [`callback`] models the single-slot callback registration that the
//!   native kernel offers (install replaces, a scope's end clears).

pub mod callback;
pub mod error;
pub mod ray;
pub mod scene;
pub mod sphere;
