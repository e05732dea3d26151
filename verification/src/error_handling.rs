use vstd::prelude::*;

verus! {

/// Why a URL could not be formed from a base address and a path.
#[derive(Clone, Copy, Debug, PartialEq, Eq, Structural)]
pub enum UrlErrorKind {
    EmptyHost,
    IdnaError,
    InvalidPort,
    InvalidIpv4Address,
    InvalidIpv6Address,
    InvalidDomainCharacter,
    RelativeUrlWithoutBase,
    RelativeUrlWithCannotBeABaseBase,
    SetHostOnCannotBeABaseUrl,
    /// The address, the path and the parameters together are longer than this
    /// library is willing to put into one URL.
    Overflow,
    /// A failure the URL parser reports that has no name here.
    Other,
}

/// Why no usable access token came back from the issuer.
#[derive(Clone, Copy, Debug, PartialEq, Eq, Structural)]
pub enum AuthError {
    /// The token endpoint could not be reached, or answered with a failure.
    TransportFailure,
    /// The token endpoint answered, but not with the expected JSON document.
    MalformedResponse,
    /// The issuer handed out a token that is already within the safety margin
    /// of its expiry.
    ExpiredToken,
}

/// A combination of search filters that the remote service is known to
/// refuse, found before anything is sent.
#[derive(Clone, Copy, Debug, PartialEq, Eq, Structural)]
pub enum Rejection {
    IdentifiersWithSkuFilter,
    BothSkuFilters,
    TooManyIdentifiers,
    PageTooLarge,
}

impl Rejection {
    /// The rule that was broken, in words.
    pub open spec fn text(self) -> Seq<char> {
        match self {
            Rejection::IdentifiersWithSkuFilter =>
                "Cannot use identifiers with variationParentSku or packageHierarchySku"@,
            Rejection::BothSkuFilters =>
                "Cannot use both variationParentSku and packageHierarchySku"@,
            Rejection::TooManyIdentifiers => "Maximum 20 identifiers allowed"@,
            Rejection::PageTooLarge => "Maximum page size is 20"@,
        }
    }

    pub fn message(&self) -> (r: &'static str)
        ensures
            r@ == self.text(),
    {
        match self {
            Rejection::IdentifiersWithSkuFilter => {
                "Cannot use identifiers with variationParentSku or packageHierarchySku"
            },
            Rejection::BothSkuFilters => {
                "Cannot use both variationParentSku and packageHierarchySku"
            },
            Rejection::TooManyIdentifiers => "Maximum 20 identifiers allowed",
            Rejection::PageTooLarge => "Maximum page size is 20",
        }
    }
}

/// The failures a caller of this library can meet.
#[derive(Clone, Copy, Debug, PartialEq, Eq, Structural)]
pub enum Errors {
    /// A resource request did not reach the regional host, or the host did not
    /// answer it.
    TransportFailure,
    /// A fresh access token was needed and could not be had.
    AuthFailure(AuthError),
    /// A response body was not the JSON document that was expected.
    MalformedResponse,
    /// The path does not combine with the regional base address into a URL.
    UrlError(UrlErrorKind),
    /// The caller's parameters contradict each other or exceed a limit.
    ValidationError(Rejection),
}

} // verus!
