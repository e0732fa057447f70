//! Paying an author: where the payment request is fetched from, and whether
//! an amount can be sent.

use vstd::prelude::*;
use vstd::string::StringExecFns;
use crate::text::opt_str_text;
use crate::text::pieces;
use crate::text::split;
use crate::text::starts_with;

verus! {

/// Why a payment cannot be made.
#[derive(Debug, Clone, Copy, PartialEq, Eq)]
pub enum ZapError {
    /// The author's payment address is of a form that is not decoded here.
    UnsupportedAddress,
    /// The author has published no payment address.
    NoAddress,
    /// The author's payment service takes no payments of this protocol.
    NotSupported,
    /// The amount is below the least the service takes, given in whole units.
    TooSmall { minimum: u64 },
    /// The amount is above the most the service takes, given in whole units.
    TooLarge { maximum: u64 },
}

/// Where the payment request of an author is fetched from.
///
/// An address of the form `user@domain`, with one `@`, names the well-known
/// location of `user` at `domain`. Failing that, a second address that
/// begins with `http` is the location itself; any other second address is
/// not supported; and with neither there is no address.
pub open spec fn payment_endpoint(lud16: Option<Seq<char>>, lud06: Option<Seq<char>>) -> Result<
    Seq<char>,
    ZapError,
> {
    if lud16 is Some && pieces(lud16->0, '@').len() == 2 {
        Ok(
            "https://"@ + pieces(lud16->0, '@')[1] + "/.well-known/lnurlp/"@ + pieces(
                lud16->0,
                '@',
            )[0],
        )
    } else {
        match lud06 {
            Some(address) => if "http"@.is_prefix_of(address) {
                Ok(address)
            } else {
                Err(ZapError::UnsupportedAddress)
            },
            None => Err(ZapError::NoAddress),
        }
    }
}

/// Finds where the payment request of an author is fetched from, given the
/// two payment addresses of the author's metadata.
pub fn resolve_lnurl(lud16: Option<&str>, lud06: Option<&str>) -> (endpoint: Result<
    String,
    ZapError,
>)
    ensures
        match endpoint {
            Ok(url) => payment_endpoint(opt_str_text(lud16), opt_str_text(lud06)) == Ok::<
                Seq<char>,
                ZapError,
            >(url@),
            Err(error) => payment_endpoint(opt_str_text(lud16), opt_str_text(lud06)) == Err::<
                Seq<char>,
                ZapError,
            >(error),
        },
{
    match lud16 {
        Some(address) => {
            let parts = split(address, '@');
            if parts.len() == 2 {
                assert(pieces(address@, '@')[1] == parts@[1]@);
                assert(pieces(address@, '@')[0] == parts@[0]@);
                let mut url = "https://".to_owned();
                url.append(parts[1].as_str());
                url.append("/.well-known/lnurlp/");
                url.append(parts[0].as_str());
                return Ok(url);
            }
        },
        None => {},
    }
    match lud06 {
        Some(address) => {
            if starts_with(address, "http") {
                Ok(address.to_owned())
            } else {
                Err(ZapError::UnsupportedAddress)
            }
        },
        None => Err(ZapError::NoAddress),
    }
}

/// The thousandths in `amount` whole units.
pub open spec fn in_thousandths(amount: u64) -> int {
    amount * 1000
}

/// What sending `amount` whole units to a service comes to: the amount in
/// thousandths, or why it cannot be sent. The service must take payments of
/// this protocol, and the amount in thousandths must lie within the
/// service's bounds where it names any.
pub open spec fn sendable(
    amount: u64,
    allows_nostr: Option<bool>,
    min_sendable: Option<u64>,
    max_sendable: Option<u64>,
) -> Result<u64, ZapError> {
    if allows_nostr != Some(true) {
        Err(ZapError::NotSupported)
    } else if min_sendable is Some && in_thousandths(amount) < min_sendable->0 {
        Err(ZapError::TooSmall { minimum: min_sendable->0 / 1000 })
    } else if max_sendable is Some && in_thousandths(amount) > max_sendable->0 {
        Err(ZapError::TooLarge { maximum: max_sendable->0 / 1000 })
    } else {
        Ok((amount * 1000) as u64)
    }
}

/// Whether `amount` whole units can be counted in thousandths.
pub fn fits_in_thousandths(amount: u64) -> (fits: bool)
    ensures
        fits == (in_thousandths(amount) <= u64::MAX),
{
    amount <= u64::MAX / 1000
}

/// Checks an amount against what the payment service says of itself.
pub fn check_amount(
    amount: u64,
    allows_nostr: Option<bool>,
    min_sendable: Option<u64>,
    max_sendable: Option<u64>,
) -> (checked: Result<u64, ZapError>)
    requires
        in_thousandths(amount) <= u64::MAX,
    ensures
        checked == sendable(amount, allows_nostr, min_sendable, max_sendable),
{
    match allows_nostr {
        Some(true) => {},
        _ => {
            return Err(ZapError::NotSupported);
        },
    }
    let thousandths: u64 = amount * 1000;
    match min_sendable {
        Some(minimum) => {
            if thousandths < minimum {
                return Err(ZapError::TooSmall { minimum: minimum / 1000 });
            }
        },
        None => {},
    }
    match max_sendable {
        Some(maximum) => {
            if thousandths > maximum {
                return Err(ZapError::TooLarge { maximum: maximum / 1000 });
            }
        },
        None => {},
    }
    Ok(thousandths)
}

} // verus!
