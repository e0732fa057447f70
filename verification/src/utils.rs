//! Reading an identity from what the operator typed.

use vstd::prelude::*;
use vstd::string::StringExecFns;
use nostr_sdk::nips::nip19::Nip19Profile;
use nostr_sdk::FromBech32;

verus! {

/// A public key of the protocol library. Nothing inside it is visible here.
#[verifier::external_type_specification]
#[verifier::external_body]
pub struct ExPublicKey(nostr_sdk::PublicKey);

/// The protocol library's error for shareable identifiers. Nothing inside it
/// is visible here.
#[verifier::external_type_specification]
#[verifier::external_body]
pub struct ExIdentifierError(nostr_sdk::nips::nip19::Error);

/// Whether `nostr_sdk::PublicKey::parse` reads a public key from `text`.
pub uninterp spec fn public_key_parses(text: Seq<char>) -> bool;

/// Whether `text` decodes as a profile identifier (`nprofile`).
pub uninterp spec fn profile_decodes(text: Seq<char>) -> bool;

/// `nostr_sdk::PublicKey::parse` reads a public key in hex, in its `npub`
/// form, or as a `nostr:` address. Whether it succeeds depends on the text
/// alone, which is all that is claimed.
pub assume_specification[ nostr_sdk::PublicKey::parse ](public_key: &str) -> (parsed: Result<
    nostr_sdk::PublicKey,
    nostr_sdk::key::Error,
>)
    ensures
        parsed is Ok <==> public_key_parses(public_key@),
;

/// Decodes a profile identifier with `Nip19Profile::from_bech32` and hands
/// out the public key it carries. Whether it succeeds depends on the text
/// alone, which is all that is claimed.
#[verifier::external_body]
fn profile_public_key(text: &str) -> (decoded: Result<
    nostr_sdk::PublicKey,
    nostr_sdk::nips::nip19::Error,
>)
    ensures
        decoded is Ok <==> profile_decodes(text@),
{
    let profile = Nip19Profile::from_bech32(text)?;
    Ok(profile.public_key)
}

/// No identity can be read from the text.
#[derive(Debug)]
pub struct InvalidPubkey {
    pub input: String,
}

impl InvalidPubkey {
    /// The error in words.
    pub fn message(&self) -> (text: String)
        ensures
            text@ == "Invalid pubkey, npub, or nprofile: "@ + self.input@,
    {
        let mut text = "Invalid pubkey, npub, or nprofile: ".to_owned();
        text.append(self.input.as_str());
        text
    }
}

/// Whether an identity can be read from `text`: as a public key, or else as
/// a profile identifier.
pub open spec fn names_identity(text: Seq<char>) -> bool {
    public_key_parses(text) || profile_decodes(text)
}

/// Reads an identity: a public key in hex or `npub` form, or else the key of
/// a profile identifier.
pub fn resolve_pubkey(input: &str) -> (resolved: Result<nostr_sdk::PublicKey, InvalidPubkey>)
    ensures
        resolved is Ok <==> names_identity(input@),
        resolved is Err ==> resolved->Err_0.input@ == input@,
{
    match nostr_sdk::PublicKey::parse(input) {
        Ok(key) => Ok(key),
        Err(_) => match profile_public_key(input) {
            Ok(key) => Ok(key),
            Err(_) => Err(InvalidPubkey { input: input.to_owned() }),
        },
    }
}

} // verus!
