//! Declarations of the outside types the library carries, and the calls it
//! makes into outside crates.

use vstd::prelude::*;

verus! {

/// libp2p's multiaddress, carried opaquely from parsing to dialing.
#[verifier::external_type_specification]
#[verifier::external_body]
pub struct ExMultiaddr(libp2p::Multiaddr);

/// The error multiaddr's parser reports for malformed text.
#[verifier::external_type_specification]
#[verifier::external_body]
pub struct ExMultiaddrError(libp2p::multiaddr::Error);

/// The sending half of futures' unbounded channel.
#[verifier::external_type_specification]
#[verifier::external_body]
#[verifier::reject_recursive_types(T)]
pub struct ExUnboundedSender<T>(futures::channel::mpsc::UnboundedSender<T>);

/// Whether multiaddr's parser accepts the text: a leading `/`, then known
/// protocol names each followed by a valid value. Depends on the text alone.
pub uninterp spec fn is_multiaddr(s: Seq<char>) -> bool;

/// Relies on `<libp2p::Multiaddr as FromStr>::from_str`: it succeeds exactly on
/// the texts it accepts, and never panics.
#[verifier::external_body]
pub(crate) fn parse_multiaddr(s: &str) -> (r: Result<libp2p::Multiaddr, libp2p::multiaddr::Error>)
    ensures
        r is Ok <==> is_multiaddr(s@),
{
    s.parse::<libp2p::Multiaddr>()
}

/// Relies on the `Display` impl of multiaddr's `Error`: a human-readable
/// description of why the text was refused.
#[verifier::external_body]
pub(crate) fn parse_error_text(e: &libp2p::multiaddr::Error) -> (r: String) {
    e.to_string()
}

} // verus!
