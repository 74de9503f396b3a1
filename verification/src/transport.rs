//! Trusted boundary to the transport crate.
//!
//! The endpoint descriptor, the live connection handle and the transport
//! error are opaque values of the transport crate; selection and
//! construction logic never looks inside them.  The one call made here is
//! the descriptor parser.

use vstd::prelude::*;

verus! {

/// The transport crate's endpoint descriptor: one dialable target, carried
/// through selection as an opaque value.
#[verifier::external_type_specification]
#[verifier::external_body]
pub struct ExEndpoint(tonic::transport::Endpoint);

/// The transport crate's error, carried opaquely inside this crate's
/// descriptor-parse error.
#[verifier::external_type_specification]
#[verifier::external_body]
pub struct ExTransportError(tonic::transport::Error);

/// The transport crate's live connection handle, passed through the
/// is-broken check untouched.
#[verifier::external_type_specification]
#[verifier::external_body]
pub struct ExChannel(tonic::transport::Channel);

/// Whether an address string is a well-formed endpoint descriptor, that is,
/// whether the transport crate's parser accepts it.  The answer depends on
/// the characters of the string alone.
pub uninterp spec fn uri_well_formed(s: Seq<char>) -> bool;

/// The endpoint descriptor the transport crate's parser yields for an
/// address string.  The descriptor depends on the characters of the string
/// alone; it is meaningful where `uri_well_formed` holds of the string.
pub uninterp spec fn endpoint_of(s: Seq<char>) -> tonic::transport::Endpoint;

/// Relies on `tonic::transport::Endpoint::from_shared`: parses an address
/// string into an endpoint descriptor, returning `Err` exactly on a
/// malformed address, before any network activity; on success the
/// descriptor is the parse of this address.
#[verifier::external_body]
pub(crate) fn endpoint_from_shared(uri: &str) -> (r: Result<
    tonic::transport::Endpoint,
    tonic::transport::Error,
>)
    ensures
        r is Ok <==> uri_well_formed(uri@),
        r matches Ok(e) ==> e == endpoint_of(uri@),
{
    tonic::transport::Endpoint::from_shared(String::from(uri))
}

} // verus!
