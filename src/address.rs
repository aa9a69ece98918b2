use vstd::prelude::*;

verus! {

#[verifier::external_type_specification]
#[verifier::external_body]
pub struct ExMultiaddr(libp2p::multiaddr::Multiaddr);

#[verifier::external_type_specification]
#[verifier::external_body]
pub struct ExMultiaddrError(libp2p::multiaddr::Error);

/// Whether a text is accepted as a network address by libp2p's parser.
pub uninterp spec fn multiaddr_text_ok(text: Seq<char>) -> bool;

/// Relies on `<libp2p::multiaddr::Multiaddr as FromStr>::from_str`: whether
/// it succeeds depends on the text alone, and a non-empty text that does not
/// begin with `/` is refused at once.
#[verifier::external_body]
fn parse_multiaddr(text: &str) -> (r: Result<libp2p::multiaddr::Multiaddr, libp2p::multiaddr::Error>)
    ensures
        r.is_ok() == multiaddr_text_ok(text@),
        text@.len() > 0 && text@[0] != '/' ==> r.is_err(),
{
    text.parse::<libp2p::multiaddr::Multiaddr>()
}

/// Why a dial request was refused before any connection attempt.
#[derive(Debug, Clone, Copy, PartialEq, Eq, Structural)]
pub enum AddressError {
    /// The text is not a well-formed network address.
    Malformed,
}

/// Parses the text of a dial request into a network address. Nothing is
/// dialled here: a refusal happens before any network activity.
pub fn parse_address(text: &str) -> (r: Result<libp2p::multiaddr::Multiaddr, AddressError>)
    ensures
        r.is_ok() == multiaddr_text_ok(text@),
        text@.len() > 0 && text@[0] != '/' ==> r == Err::<libp2p::multiaddr::Multiaddr, AddressError>(
            AddressError::Malformed,
        ),
{
    match parse_multiaddr(text) {
        Ok(a) => Ok(a),
        Err(_) => Err(AddressError::Malformed),
    }
}

} // verus!
