use vstd::prelude::*;

verus! {

/// `nostr_types::Error`, why a text is no address.
#[verifier::external_type_specification]
#[verifier::external_body]
pub struct ExNostrError(nostr_types::Error);

/// The address that a text stands for, as `nostr_types` writes it out,
/// where it takes the text for the address of a host on the internet.
pub uninterp spec fn checked_url(text: Seq<char>) -> Option<Seq<char>>;

/// `nostr_types::Url::try_from_unchecked_url`: the checked address of a
/// text, or why the text is none.
#[verifier::external_body]
pub(crate) fn check_url(text: &str) -> (r: Result<String, nostr_types::Error>)
    ensures
        r is Ok <==> checked_url(text@) is Some,
        r matches Ok(url) ==> checked_url(text@) == Some(url@),
{
    match nostr_types::Url::try_from_unchecked_url(&nostr_types::UncheckedUrl(text.to_string())) {
        Ok(url) => Ok(url.0),
        Err(e) => Err(e),
    }
}

} // verus!
