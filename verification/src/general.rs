use crate::address::{build_url, outcome_view, url_for};
use crate::error_handling::{AuthError, Errors, UrlErrorKind};
use crate::parameters::Operation;
use vstd::prelude::*;

verus! {

/// Where a refresh credential is exchanged for an access token.
pub const TOKEN_ENDPOINT: &'static str = "https://api.amazon.com/auth/o2/token";

/// How this library names itself to the service.
pub const USER_AGENT: &'static str = "Amazon-SP-API-rs 0.1.0";

/// Seconds before its expiry at which a token is no longer used.
pub const SAFETY_MARGIN: i64 = 10;

/// Base URL of the North America region.
pub const ENDPOINT_NA: &'static str = "https://sellingpartnerapi-na.amazon.com";

/// Base URL of the Europe region.
pub const ENDPOINT_EU: &'static str = "https://sellingpartnerapi-eu.amazon.com";

/// Base URL of the Far East region.
pub const ENDPOINT_FE: &'static str = "https://sellingpartnerapi-fe.amazon.com";

/// The storefronts the service knows. The set is closed: every value has an
/// identifier and a regional host, and there is no way to name another.
#[derive(Clone, Copy, Debug, PartialEq, Eq, Structural)]
pub enum CountryMarketplace {
    Canada,
    UnitedStates,
    Mexico,
    Brazil,
    Ireland,
    Spain,
    UnitedKingdom,
    France,
    Belgium,
    Netherlands,
    Germany,
    Italy,
    Sweden,
    SouthAfrica,
    Poland,
    Egypt,
    Turkey,
    SaudiArabia,
    UnitedArabEmirates,
    India,
    Singapore,
    Australia,
    Japan,
}

impl CountryMarketplace {
    /// The identifier the remote service gives this marketplace.
    pub open spec fn marketplace_id(self) -> Seq<char> {
        match self {
            CountryMarketplace::Canada => "A2EUQ1WTGCTBG2"@,
            CountryMarketplace::UnitedStates => "ATVPDKIKX0DER"@,
            CountryMarketplace::Mexico => "A1AM78C64UM0Y8"@,
            CountryMarketplace::Brazil => "A2Q3Y263D00KWC"@,
            CountryMarketplace::Ireland => "A28R8C7NBKEWEA"@,
            CountryMarketplace::Spain => "A1RKKUPIHCS9HS"@,
            CountryMarketplace::UnitedKingdom => "A1F83G8C2ARO7P"@,
            CountryMarketplace::France => "A13V1IB3VIYZZH"@,
            CountryMarketplace::Belgium => "AMEN7PMS3EDWL"@,
            CountryMarketplace::Netherlands => "A1805IZSGTT6HS"@,
            CountryMarketplace::Germany => "A1PA6795UKMFR9"@,
            CountryMarketplace::Italy => "APJ6JRA9NG5V4"@,
            CountryMarketplace::Sweden => "A2NODRKZP88ZB9"@,
            CountryMarketplace::SouthAfrica => "AE08WJ6YKNBMC"@,
            CountryMarketplace::Poland => "A1C3SOZRARQ6R3"@,
            CountryMarketplace::Egypt => "ARBP9OOSHTCHU"@,
            CountryMarketplace::Turkey => "A33AVAJ2PDY3EV"@,
            CountryMarketplace::SaudiArabia => "A17E79C6D8DWNP"@,
            CountryMarketplace::UnitedArabEmirates => "A2VIGQ35RCS4UG"@,
            CountryMarketplace::India => "A21TJRUUN4KGV"@,
            CountryMarketplace::Singapore => "A19VAU5U5O7RUS"@,
            CountryMarketplace::Australia => "A39IBJ37TRP1C6"@,
            CountryMarketplace::Japan => "A1VC38T7YXB528"@,
        }
    }

    /// The base URL of the region that serves this marketplace.
    pub open spec fn endpoint(self) -> Seq<char> {
        match self {
            CountryMarketplace::Canada
            | CountryMarketplace::UnitedStates
            | CountryMarketplace::Mexico
            | CountryMarketplace::Brazil => ENDPOINT_NA@,
            CountryMarketplace::Singapore
            | CountryMarketplace::Australia
            | CountryMarketplace::Japan => ENDPOINT_FE@,
            _ => ENDPOINT_EU@,
        }
    }

    /// Returns the marketplace ID and the endpoint for the given country.
    pub fn details(&self) -> (r: (&'static str, &'static str))
        ensures
            r.0@ == self.marketplace_id(),
            r.1@ == self.endpoint(),
    {
        match self {
            CountryMarketplace::Canada => ("A2EUQ1WTGCTBG2", ENDPOINT_NA),
            CountryMarketplace::UnitedStates => ("ATVPDKIKX0DER", ENDPOINT_NA),
            CountryMarketplace::Mexico => ("A1AM78C64UM0Y8", ENDPOINT_NA),
            CountryMarketplace::Brazil => ("A2Q3Y263D00KWC", ENDPOINT_NA),
            CountryMarketplace::Ireland => ("A28R8C7NBKEWEA", ENDPOINT_EU),
            CountryMarketplace::Spain => ("A1RKKUPIHCS9HS", ENDPOINT_EU),
            CountryMarketplace::UnitedKingdom => ("A1F83G8C2ARO7P", ENDPOINT_EU),
            CountryMarketplace::France => ("A13V1IB3VIYZZH", ENDPOINT_EU),
            CountryMarketplace::Belgium => ("AMEN7PMS3EDWL", ENDPOINT_EU),
            CountryMarketplace::Netherlands => ("A1805IZSGTT6HS", ENDPOINT_EU),
            CountryMarketplace::Germany => ("A1PA6795UKMFR9", ENDPOINT_EU),
            CountryMarketplace::Italy => ("APJ6JRA9NG5V4", ENDPOINT_EU),
            CountryMarketplace::Sweden => ("A2NODRKZP88ZB9", ENDPOINT_EU),
            CountryMarketplace::SouthAfrica => ("AE08WJ6YKNBMC", ENDPOINT_EU),
            CountryMarketplace::Poland => ("A1C3SOZRARQ6R3", ENDPOINT_EU),
            CountryMarketplace::Egypt => ("ARBP9OOSHTCHU", ENDPOINT_EU),
            CountryMarketplace::Turkey => ("A33AVAJ2PDY3EV", ENDPOINT_EU),
            CountryMarketplace::SaudiArabia => ("A17E79C6D8DWNP", ENDPOINT_EU),
            CountryMarketplace::UnitedArabEmirates => ("A2VIGQ35RCS4UG", ENDPOINT_EU),
            CountryMarketplace::India => ("A21TJRUUN4KGV", ENDPOINT_EU),
            CountryMarketplace::Singapore => ("A19VAU5U5O7RUS", ENDPOINT_FE),
            CountryMarketplace::Australia => ("A39IBJ37TRP1C6", ENDPOINT_FE),
            CountryMarketplace::Japan => ("A1VC38T7YXB528", ENDPOINT_FE),
        }
    }

    /// No two marketplaces share an identifier.
    pub proof fn lemma_identifiers_differ(self, other: CountryMarketplace)
        requires
            self != other,
        ensures
            self.marketplace_id() != other.marketplace_id(),
    {
        reveal_strlit("A2EUQ1WTGCTBG2");
        reveal_strlit("ATVPDKIKX0DER");
        reveal_strlit("A1AM78C64UM0Y8");
        reveal_strlit("A2Q3Y263D00KWC");
        reveal_strlit("A28R8C7NBKEWEA");
        reveal_strlit("A1RKKUPIHCS9HS");
        reveal_strlit("A1F83G8C2ARO7P");
        reveal_strlit("A13V1IB3VIYZZH");
        reveal_strlit("AMEN7PMS3EDWL");
        reveal_strlit("A1805IZSGTT6HS");
        reveal_strlit("A1PA6795UKMFR9");
        reveal_strlit("APJ6JRA9NG5V4");
        reveal_strlit("A2NODRKZP88ZB9");
        reveal_strlit("AE08WJ6YKNBMC");
        reveal_strlit("A1C3SOZRARQ6R3");
        reveal_strlit("ARBP9OOSHTCHU");
        reveal_strlit("A33AVAJ2PDY3EV");
        reveal_strlit("A17E79C6D8DWNP");
        reveal_strlit("A2VIGQ35RCS4UG");
        reveal_strlit("A21TJRUUN4KGV");
        reveal_strlit("A19VAU5U5O7RUS");
        reveal_strlit("A39IBJ37TRP1C6");
        reveal_strlit("A1VC38T7YXB528");
        // the second and third characters together tell all of them apart
        assert(self.marketplace_id()[1] != other.marketplace_id()[1] || self.marketplace_id()[2]
            != other.marketplace_id()[2]);
    }

    /// Every marketplace has an identifier of at least one character, and is
    /// served from one of the three regional hosts.
    pub proof fn lemma_details_total(self)
        ensures
            self.marketplace_id().len() > 0,
            self.endpoint() == ENDPOINT_NA@ || self.endpoint() == ENDPOINT_EU@
                || self.endpoint() == ENDPOINT_FE@,
    {
        reveal_strlit("A2EUQ1WTGCTBG2");
        reveal_strlit("ATVPDKIKX0DER");
        reveal_strlit("A1AM78C64UM0Y8");
        reveal_strlit("A2Q3Y263D00KWC");
        reveal_strlit("A28R8C7NBKEWEA");
        reveal_strlit("A1RKKUPIHCS9HS");
        reveal_strlit("A1F83G8C2ARO7P");
        reveal_strlit("A13V1IB3VIYZZH");
        reveal_strlit("AMEN7PMS3EDWL");
        reveal_strlit("A1805IZSGTT6HS");
        reveal_strlit("A1PA6795UKMFR9");
        reveal_strlit("APJ6JRA9NG5V4");
        reveal_strlit("A2NODRKZP88ZB9");
        reveal_strlit("AE08WJ6YKNBMC");
        reveal_strlit("A1C3SOZRARQ6R3");
        reveal_strlit("ARBP9OOSHTCHU");
        reveal_strlit("A33AVAJ2PDY3EV");
        reveal_strlit("A17E79C6D8DWNP");
        reveal_strlit("A2VIGQ35RCS4UG");
        reveal_strlit("A21TJRUUN4KGV");
        reveal_strlit("A19VAU5U5O7RUS");
        reveal_strlit("A39IBJ37TRP1C6");
        reveal_strlit("A1VC38T7YXB528");
    }
}

/// The HTTP methods the service is called with.
#[derive(Clone, Copy, Debug, PartialEq, Eq, Structural)]
pub enum Method {
    Get,
    Post,
    Put,
    Patch,
    Delete,
}

impl Method {
    /// The method as it is written on the request line.
    pub open spec fn name(self) -> Seq<char> {
        match self {
            Method::Get => "GET"@,
            Method::Post => "POST"@,
            Method::Put => "PUT"@,
            Method::Patch => "PATCH"@,
            Method::Delete => "DELETE"@,
        }
    }

    pub fn as_str(&self) -> (r: &'static str)
        ensures
            r@ == self.name(),
    {
        match self {
            Method::Get => "GET",
            Method::Post => "POST",
            Method::Put => "PUT",
            Method::Patch => "PATCH",
            Method::Delete => "DELETE",
        }
    }
}

/// The long-lived credentials of one seller, and the marketplace they sell in.
#[derive(Clone, Debug, PartialEq, Eq)]
pub struct ClientInformation {
    pub refresh_token: String,
    pub client_id: String,
    pub client_secret: String,
    pub country_marketplace: CountryMarketplace,
}

/// [`ClientInformation`] with each text taken as its characters.
pub struct ClientInformationView {
    pub refresh_token: Seq<char>,
    pub client_id: Seq<char>,
    pub client_secret: Seq<char>,
    pub country_marketplace: CountryMarketplace,
}

impl View for ClientInformation {
    type V = ClientInformationView;

    open spec fn view(&self) -> ClientInformationView {
        ClientInformationView {
            refresh_token: self.refresh_token@,
            client_id: self.client_id@,
            client_secret: self.client_secret@,
            country_marketplace: self.country_marketplace,
        }
    }
}

/// What is posted to the issuer to exchange the refresh credential: the
/// address, and the four members of the JSON object that is the body.
#[derive(Clone, Debug, PartialEq, Eq)]
pub struct TokenRequest {
    pub url: String,
    pub refresh_token: String,
    pub client_id: String,
    pub client_secret: String,
    pub grant_type: String,
}

/// [`TokenRequest`] with each text taken as its characters.
pub struct TokenRequestView {
    pub url: Seq<char>,
    pub refresh_token: Seq<char>,
    pub client_id: Seq<char>,
    pub client_secret: Seq<char>,
    pub grant_type: Seq<char>,
}

impl View for TokenRequest {
    type V = TokenRequestView;

    open spec fn view(&self) -> TokenRequestView {
        TokenRequestView {
            url: self.url@,
            refresh_token: self.refresh_token@,
            client_id: self.client_id@,
            client_secret: self.client_secret@,
            grant_type: self.grant_type@,
        }
    }
}

impl ClientInformationView {
    /// The exchange these credentials ask of the issuer.
    pub open spec fn token_request(self) -> TokenRequestView {
        TokenRequestView {
            url: TOKEN_ENDPOINT@,
            refresh_token: self.refresh_token,
            client_id: self.client_id,
            client_secret: self.client_secret,
            grant_type: "refresh_token"@,
        }
    }
}

impl ClientInformation {
    /// Describes the credential exchange: a POST to the token endpoint whose
    /// body carries the refresh token, the client's id and secret, and the
    /// grant type `refresh_token`.
    pub fn token_request(&self) -> (r: TokenRequest)
        ensures
            r@ == self@.token_request(),
    {
        TokenRequest {
            url: String::from_str(TOKEN_ENDPOINT),
            refresh_token: self.refresh_token.clone(),
            client_id: self.client_id.clone(),
            client_secret: self.client_secret.clone(),
            grant_type: String::from_str("refresh_token"),
        }
    }
}

/// The issuer's answer to a credential exchange.
#[derive(Clone, Debug, PartialEq, Eq)]
pub struct TokenResponse {
    pub access_token: String,
    pub expires_in: i64,
    pub refresh_token: String,
    pub token_type: String,
}

/// [`TokenResponse`] with each text taken as its characters and the
/// lifetime as an integer.
pub struct TokenResponseView {
    pub access_token: Seq<char>,
    pub expires_in: int,
    pub refresh_token: Seq<char>,
    pub token_type: Seq<char>,
}

impl View for TokenResponse {
    type V = TokenResponseView;

    open spec fn view(&self) -> TokenResponseView {
        TokenResponseView {
            access_token: self.access_token@,
            expires_in: self.expires_in as int,
            refresh_token: self.refresh_token@,
            token_type: self.token_type@,
        }
    }
}

/// A bearer token together with the second at which it was obtained.
#[derive(Clone, Debug, PartialEq, Eq)]
pub struct AccessToken {
    pub access_token: String,
    pub expires_in: i64,
    pub refresh_token: String,
    pub token_type: String,
    pub issued_at: u64,
}

/// [`AccessToken`] with each text taken as its characters and the numbers as
/// integers.
pub struct AccessTokenView {
    pub access_token: Seq<char>,
    pub expires_in: int,
    pub refresh_token: Seq<char>,
    pub token_type: Seq<char>,
    pub issued_at: int,
}

impl View for AccessToken {
    type V = AccessTokenView;

    open spec fn view(&self) -> AccessTokenView {
        AccessTokenView {
            access_token: self.access_token@,
            expires_in: self.expires_in as int,
            refresh_token: self.refresh_token@,
            token_type: self.token_type@,
            issued_at: self.issued_at as int,
        }
    }
}

impl TokenResponseView {
    /// The token this answer amounts to when it arrives at second `now`.
    pub open spec fn stamped(self, now: int) -> AccessTokenView {
        AccessTokenView {
            access_token: self.access_token,
            expires_in: self.expires_in,
            refresh_token: self.refresh_token,
            token_type: self.token_type,
            issued_at: now,
        }
    }
}

impl AccessTokenView {
    /// A token is stale from the second at which its age reaches its lifetime
    /// less the safety margin.
    pub open spec fn is_stale(self, now: int) -> bool {
        now - self.issued_at >= self.expires_in - SAFETY_MARGIN
    }
}

impl AccessToken {
    /// Takes the issuer's answer as the token obtained at second `now`.
    pub fn stamp(response: TokenResponse, now: u64) -> (r: AccessToken)
        ensures
            r@ == response@.stamped(now as int),
    {
        AccessToken {
            access_token: response.access_token,
            expires_in: response.expires_in,
            refresh_token: response.refresh_token,
            token_type: response.token_type,
            issued_at: now,
        }
    }

    /// Whether the token must be replaced before a request made at second
    /// `now` may carry it.
    pub fn is_stale(&self, now: u64) -> (r: bool)
        ensures
            r == self@.is_stale(now as int),
    {
        let age: i128 = now as i128 - self.issued_at as i128;
        let usable: i128 = self.expires_in as i128 - SAFETY_MARGIN as i128;
        age >= usable
    }
}

/// A request that is ready for the transport: nothing in it is left to
/// decide.
#[derive(Clone, Debug, PartialEq, Eq)]
pub struct Request {
    pub method: Method,
    pub url: String,
    pub headers: Vec<(String, String)>,
    pub body: Option<Vec<u8>>,
}

/// [`Request`] with the texts taken as their characters and the body as its
/// bytes.
pub struct RequestView {
    pub method: Method,
    pub url: Seq<char>,
    pub headers: Seq<(Seq<char>, Seq<char>)>,
    pub body: Option<Seq<u8>>,
}

impl View for Request {
    type V = RequestView;

    open spec fn view(&self) -> RequestView {
        RequestView {
            method: self.method,
            url: self.url@,
            headers: self.headers.deep_view(),
            body: match self.body {
                Some(bytes) => Some(bytes@),
                None => None,
            },
        }
    }
}

/// The bytes of a body, if there is one.
pub open spec fn body_view(body: Option<Vec<u8>>) -> Option<Seq<u8>> {
    match body {
        Some(bytes) => Some(bytes@),
        None => None,
    }
}

/// A request or a failure, with the request taken by its view.
pub open spec fn request_view(r: Result<Request, Errors>) -> Result<RequestView, Errors> {
    match r {
        Ok(request) => Ok(request@),
        Err(e) => Err(e),
    }
}

impl RequestView {
    /// The request that is made of a URL once it is known whether one could
    /// be formed: the URL with the method, headers and body beside it, or the
    /// URL error.
    pub open spec fn assemble(
        method: Method,
        url: Result<Seq<char>, UrlErrorKind>,
        headers: Seq<(Seq<char>, Seq<char>)>,
        body: Option<Seq<u8>>,
    ) -> Result<RequestView, Errors> {
        match url {
            Ok(text) => Ok(RequestView { method, url: text, headers, body }),
            Err(kind) => Err(Errors::UrlError(kind)),
        }
    }

    /// The request for `path` below `base_url`. The URL is the one formed of
    /// the two written one after the other, with `parameters` as its query,
    /// in the order given and with nothing left out.
    pub open spec fn build(
        base_url: Seq<char>,
        path: Seq<char>,
        method: Method,
        parameters: Seq<(Seq<char>, Seq<char>)>,
        headers: Seq<(Seq<char>, Seq<char>)>,
        body: Option<Seq<u8>>,
    ) -> Result<RequestView, Errors> {
        Self::assemble(method, url_for(base_url + path, parameters), headers, body)
    }
}

impl Request {
    /// Puts a request together from its parts, given the outcome of forming
    /// the URL.
    pub fn assemble(
        method: Method,
        url: Result<String, UrlErrorKind>,
        headers: Vec<(String, String)>,
        body: Option<Vec<u8>>,
    ) -> (r: Result<Request, Errors>)
        ensures
            request_view(r) == RequestView::assemble(
                method,
                outcome_view(url),
                headers.deep_view(),
                body_view(body),
            ),
    {
        match url {
            Ok(text) => Ok(Request { method, url: text, headers, body }),
            Err(kind) => Err(Errors::UrlError(kind)),
        }
    }

    /// Builds the request for `path` below `base_url`, with `parameters` as
    /// the query of its URL. Fails with a URL error where the two do not
    /// combine into a URL.
    pub fn build(
        base_url: &str,
        path: &str,
        method: Method,
        parameters: &Vec<(String, String)>,
        headers: Vec<(String, String)>,
        body: Option<Vec<u8>>,
    ) -> (r: Result<Request, Errors>)
        ensures
            request_view(r) == RequestView::build(
                base_url@,
                path@,
                method,
                parameters.deep_view(),
                headers.deep_view(),
                body_view(body),
            ),
    {
        let address = String::from_str(base_url).concat(path);
        let url = build_url(address.as_str(), parameters);
        Request::assemble(method, url, headers, body)
    }
}

/// What a caller has to do next to get a request answered.
#[derive(Clone, Debug, PartialEq, Eq)]
pub enum Step {
    /// The token is fresh: hand this request to the transport.
    Send(Request),
    /// The token is stale and nobody is replacing it: make this exchange,
    /// report how it ended, and ask again.
    Refresh(TokenRequest),
    /// The token is stale and somebody else is replacing it: ask again when
    /// that has ended.
    Wait,
}

/// [`Step`] with what it carries taken by its view.
pub enum StepView {
    Send(RequestView),
    Refresh(TokenRequestView),
    Wait,
}

impl View for Step {
    type V = StepView;

    open spec fn view(&self) -> StepView {
        match self {
            Step::Send(request) => StepView::Send(request@),
            Step::Refresh(exchange) => StepView::Refresh(exchange@),
            Step::Wait => StepView::Wait,
        }
    }
}

/// A step or a failure, with the step taken by its view.
pub open spec fn step_view(r: Result<Step, Errors>) -> Result<StepView, Errors> {
    match r {
        Ok(step) => Ok(step@),
        Err(e) => Err(e),
    }
}

/// What the check of the token's freshness found.
#[derive(Clone, Debug, PartialEq, Eq)]
pub enum Validity {
    /// The token may be used.
    Fresh,
    /// The token is stale, and the caller is the one to replace it.
    Refresh(TokenRequest),
    /// The token is stale, and a replacement is already on its way.
    Wait,
}

/// [`Validity`] with what it carries taken by its view.
pub enum ValidityView {
    Fresh,
    Refresh(TokenRequestView),
    Wait,
}

impl View for Validity {
    type V = ValidityView;

    open spec fn view(&self) -> ValidityView {
        match self {
            Validity::Fresh => ValidityView::Fresh,
            Validity::Refresh(exchange) => ValidityView::Refresh(exchange@),
            Validity::Wait => ValidityView::Wait,
        }
    }
}

/// An answer of the issuer or the reason there is none, with the answer taken
/// by its view.
pub open spec fn exchange_view(outcome: Result<TokenResponse, AuthError>) -> Result<
    TokenResponseView,
    AuthError,
> {
    match outcome {
        Ok(response) => Ok(response@),
        Err(e) => Err(e),
    }
}

/// One seller's session: the credentials, the access token in use, and
/// whether an exchange for a new token is under way.
#[derive(Clone, Debug, PartialEq, Eq)]
pub struct Client {
    access_token: AccessToken,
    client_information: ClientInformation,
    refresh_in_flight: bool,
}

/// What a session holds, as the statements about sessions see it.
pub struct ClientView {
    pub access_token: AccessTokenView,
    pub client_information: ClientInformationView,
    pub refresh_in_flight: bool,
}

impl View for Client {
    type V = ClientView;

    closed spec fn view(&self) -> ClientView {
        ClientView {
            access_token: self.access_token@,
            client_information: self.client_information@,
            refresh_in_flight: self.refresh_in_flight,
        }
    }
}

/// A session or a failure, with the session taken by its view.
pub open spec fn client_view(r: Result<Client, Errors>) -> Result<ClientView, Errors> {
    match r {
        Ok(client) => Ok(client@),
        Err(e) => Err(e),
    }
}

impl ClientView {
    /// The session that begins with the outcome of the first credential
    /// exchange, which ended at second `now`.
    pub open spec fn new(
        client: ClientInformationView,
        outcome: Result<TokenResponseView, AuthError>,
        now: int,
    ) -> Result<ClientView, Errors> {
        match outcome {
            Ok(response) => Ok(
                ClientView {
                    access_token: response.stamped(now),
                    client_information: client,
                    refresh_in_flight: false,
                },
            ),
            Err(e) => Err(Errors::AuthFailure(e)),
        }
    }

    /// Whether the token in use is stale at second `now`.
    pub open spec fn is_stale(self, now: int) -> bool {
        self.access_token.is_stale(now)
    }

    /// The check of the token before a request made at second `now`, and the
    /// session after it. A stale token is replaced by one caller at a time:
    /// the first to find it stale is told to refresh and the session notes
    /// that; whoever comes while that note stands is told to wait.
    pub open spec fn check_validity(self, now: int) -> (ClientView, ValidityView) {
        if !self.is_stale(now) {
            (self, ValidityView::Fresh)
        } else if self.refresh_in_flight {
            (self, ValidityView::Wait)
        } else {
            (
                ClientView { refresh_in_flight: true, ..self },
                ValidityView::Refresh(self.client_information.token_request()),
            )
        }
    }

    /// The session after a credential exchange ended at second `now`, and
    /// what the one who made it is told. Whatever the outcome, no exchange is
    /// under way afterwards. A token that came replaces the old one whole; a
    /// failure leaves the old one as it was and is reported. A new token that
    /// is stale on arrival is reported as expired.
    pub open spec fn refresh_token(
        self,
        outcome: Result<TokenResponseView, AuthError>,
        now: int,
    ) -> (ClientView, Result<(), Errors>) {
        match outcome {
            Ok(response) => {
                let token = response.stamped(now);
                (
                    ClientView { access_token: token, refresh_in_flight: false, ..self },
                    if token.is_stale(now) {
                        Err(Errors::AuthFailure(AuthError::ExpiredToken))
                    } else {
                        Ok(())
                    },
                )
            },
            Err(e) => (
                ClientView { refresh_in_flight: false, ..self },
                Err(Errors::AuthFailure(e)),
            ),
        }
    }

    /// The headers of every resource request: the bearer token, the content
    /// type and the user agent, in this order.
    pub open spec fn create_header(self) -> Seq<(Seq<char>, Seq<char>)> {
        seq![
            ("x-amz-access-token"@, self.access_token.access_token),
            ("Content-Type"@, "application/json"@),
            ("User-Agent"@, USER_AGENT@),
        ]
    }

    /// The query parameters of a resource request: the caller's, as given,
    /// and after them the identifier of the session's marketplace.
    pub open spec fn query(self, parameters: Seq<(Seq<char>, Seq<char>)>) -> Seq<
        (Seq<char>, Seq<char>),
    > {
        parameters.push(
            ("marketplaceIds"@, self.client_information.country_marketplace.marketplace_id()),
        )
    }

    /// The resource request for `path`, with the session's token and for the
    /// session's marketplace.
    pub open spec fn request(
        self,
        path: Seq<char>,
        method: Method,
        parameters: Seq<(Seq<char>, Seq<char>)>,
        body: Option<Seq<u8>>,
    ) -> Result<RequestView, Errors> {
        RequestView::build(
            self.client_information.country_marketplace.endpoint(),
            path,
            method,
            self.query(parameters),
            self.create_header(),
            body,
        )
    }

    /// What a request made at second `now` leads to, and the session after
    /// it. The token is checked first. Only if it is fresh is a request
    /// built, and only then can the URL fail.
    pub open spec fn make_request(
        self,
        now: int,
        path: Seq<char>,
        method: Method,
        parameters: Seq<(Seq<char>, Seq<char>)>,
        body: Option<Seq<u8>>,
    ) -> (ClientView, Result<StepView, Errors>) {
        let (after, validity) = self.check_validity(now);
        (
            after,
            match validity {
                ValidityView::Fresh => match self.request(path, method, parameters, body) {
                    Ok(request) => Ok(StepView::Send(request)),
                    Err(e) => Err(e),
                },
                ValidityView::Refresh(exchange) => Ok(StepView::Refresh(exchange)),
                ValidityView::Wait => Ok(StepView::Wait),
            },
        )
    }
}

impl Client {
    /// Opens a session with the outcome of the first credential exchange,
    /// which ended at second `now`. There is no session without a token: a
    /// failed exchange is an authentication failure.
    pub fn new(client: ClientInformation, outcome: Result<TokenResponse, AuthError>, now: u64) -> (r:
        Result<Client, Errors>)
        ensures
            client_view(r) == ClientView::new(client@, exchange_view(outcome), now as int),
    {
        match outcome {
            Ok(response) => Ok(
                Client {
                    access_token: AccessToken::stamp(response, now),
                    client_information: client,
                    refresh_in_flight: false,
                },
            ),
            Err(e) => Err(Errors::AuthFailure(e)),
        }
    }

    /// The token in use.
    pub fn access_token(&self) -> (r: &AccessToken)
        ensures
            r@ == self@.access_token,
    {
        &self.access_token
    }

    /// The credentials the session was opened with.
    pub fn client_information(&self) -> (r: &ClientInformation)
        ensures
            r@ == self@.client_information,
    {
        &self.client_information
    }

    /// Whether an exchange for a new token is under way.
    pub fn refresh_in_flight(&self) -> (r: bool)
        ensures
            r == self@.refresh_in_flight,
    {
        self.refresh_in_flight
    }

    /// Whether the token in use is stale at second `now`.
    pub fn is_stale(&self, now: u64) -> (r: bool)
        ensures
            r == self@.is_stale(now as int),
    {
        self.access_token.is_stale(now)
    }

    /// Checks the token before a request made at second `now`, and notes in
    /// the session that the caller will replace it where that is the answer.
    pub fn check_validity(&mut self, now: u64) -> (r: Validity)
        ensures
            (final(self)@, r@) == old(self)@.check_validity(now as int),
    {
        if !self.access_token.is_stale(now) {
            Validity::Fresh
        } else if self.refresh_in_flight {
            Validity::Wait
        } else {
            self.refresh_in_flight = true;
            Validity::Refresh(self.client_information.token_request())
        }
    }

    /// Takes in the outcome of a credential exchange that ended at second
    /// `now`. A token replaces the one in use; a failure is handed back as an
    /// authentication failure and changes nothing but the note that an
    /// exchange was under way.
    pub fn refresh_token(&mut self, outcome: Result<TokenResponse, AuthError>, now: u64) -> (r:
        Result<(), Errors>)
        ensures
            (final(self)@, r) == old(self)@.refresh_token(exchange_view(outcome), now as int),
    {
        self.refresh_in_flight = false;
        match outcome {
            Ok(response) => {
                self.access_token = AccessToken::stamp(response, now);
                if self.access_token.is_stale(now) {
                    Err(Errors::AuthFailure(AuthError::ExpiredToken))
                } else {
                    Ok(())
                }
            },
            Err(e) => Err(Errors::AuthFailure(e)),
        }
    }

    /// The headers that go with every resource request.
    pub fn create_header(&self) -> (r: Vec<(String, String)>)
        ensures
            r.deep_view() == self@.create_header(),
    {
        let mut headers: Vec<(String, String)> = Vec::new();
        headers.push((String::from_str("x-amz-access-token"), self.access_token.access_token.clone()));
        headers.push((String::from_str("Content-Type"), String::from_str("application/json")));
        headers.push((String::from_str("User-Agent"), String::from_str(USER_AGENT)));
        assert(headers.deep_view() =~= self@.create_header());
        headers
    }

    /// Decides what a request for `path` made at second `now` leads to. With
    /// a fresh token it is the request itself, for the session's marketplace
    /// and carrying that token; with a stale one it is the exchange to make,
    /// or the advice to wait for the one that is under way.
    pub fn make_request(
        &mut self,
        now: u64,
        path: &str,
        method: Method,
        parameters: Vec<(String, String)>,
    ) -> (r: Result<Step, Errors>)
        ensures
            (final(self)@, step_view(r)) == old(self)@.make_request(
                now as int,
                path@,
                method,
                parameters.deep_view(),
                None,
            ),
    {
        self.dispatch(now, path, method, parameters, None)
    }

    /// As [`Client::make_request`], for a request that carries a body. The
    /// bytes go into the request as they are.
    pub fn make_request_w_body(
        &mut self,
        now: u64,
        path: &str,
        method: Method,
        parameters: Vec<(String, String)>,
        body: Vec<u8>,
    ) -> (r: Result<Step, Errors>)
        ensures
            (final(self)@, step_view(r)) == old(self)@.make_request(
                now as int,
                path@,
                method,
                parameters.deep_view(),
                Some(body@),
            ),
    {
        self.dispatch(now, path, method, parameters, Some(body))
    }

    /// Decides what the call an endpoint describes leads to when it is made
    /// at second `now`: [`Client::make_request`] for its path, method and
    /// parameters, with its body if it has one.
    pub fn perform(&mut self, now: u64, operation: Operation) -> (r: Result<Step, Errors>)
        ensures
            (final(self)@, step_view(r)) == old(self)@.make_request(
                now as int,
                operation@.path,
                operation@.method,
                operation@.parameters,
                operation@.body,
            ),
    {
        self.dispatch(
            now,
            operation.path.as_str(),
            operation.method,
            operation.parameters,
            operation.body,
        )
    }

    fn dispatch(
        &mut self,
        now: u64,
        path: &str,
        method: Method,
        parameters: Vec<(String, String)>,
        body: Option<Vec<u8>>,
    ) -> (r: Result<Step, Errors>)
        ensures
            (final(self)@, step_view(r)) == old(self)@.make_request(
                now as int,
                path@,
                method,
                parameters.deep_view(),
                body_view(body),
            ),
    {
        match self.check_validity(now) {
            Validity::Refresh(exchange) => Ok(Step::Refresh(exchange)),
            Validity::Wait => Ok(Step::Wait),
            Validity::Fresh => {
                let (id, base_url) = self.client_information.country_marketplace.details();
                let ghost given = parameters.deep_view();
                let mut query = parameters;
                query.push((String::from_str("marketplaceIds"), String::from_str(id)));
                assert(query.deep_view() =~= self@.query(given));
                let headers = self.create_header();
                match Request::build(base_url, path, method, &query, headers, body) {
                    Ok(request) => Ok(Step::Send(request)),
                    Err(e) => Err(e),
                }
            },
        }
    }
}

/// The arguments of one request, for statements about several of them.
pub struct Call {
    pub now: int,
    pub path: Seq<char>,
    pub method: Method,
    pub parameters: Seq<(Seq<char>, Seq<char>)>,
    pub body: Option<Seq<u8>>,
}

impl ClientView {
    /// The session after the requests `calls` were made one after the other
    /// with no credential exchange ending in between, and what each was told.
    pub open spec fn serve(self, calls: Seq<Call>) -> (ClientView, Seq<Result<StepView, Errors>>)
        decreases calls.len(),
    {
        if calls.len() == 0 {
            (self, Seq::empty())
        } else {
            let (before, told) = self.serve(calls.drop_last());
            let call = calls.last();
            let (after, step) = before.make_request(
                call.now,
                call.path,
                call.method,
                call.parameters,
                call.body,
            );
            (after, told.push(step))
        }
    }
}

/// How many of the answers tell the caller to make a credential exchange.
pub open spec fn refreshes(told: Seq<Result<StepView, Errors>>) -> nat
    decreases told.len(),
{
    if told.len() == 0 {
        0
    } else {
        refreshes(told.drop_last()) + if told.last() matches Ok(StepView::Refresh(_)) {
            1nat
        } else {
            0nat
        }
    }
}

/// A token is stale at `issued_at + expires_in - 10` and fresh the second
/// before; once stale it stays stale.
pub proof fn lemma_stale_boundary(token: AccessTokenView, now: int, later: int)
    ensures
        token.is_stale(token.issued_at + token.expires_in - SAFETY_MARGIN),
        !token.is_stale(token.issued_at + token.expires_in - SAFETY_MARGIN - 1),
        token.is_stale(now) && now <= later ==> token.is_stale(later),
{
}

/// A request is handed out for sending only with a token that is fresh at
/// the second of the request, and it carries that token as its first header.
pub proof fn lemma_sent_token_is_fresh(session: ClientView, call: Call)
    ensures
        session.make_request(call.now, call.path, call.method, call.parameters, call.body).1
            matches Ok(StepView::Send(request)) ==> {
            &&& !session.access_token.is_stale(call.now)
            &&& request.headers[0] == ("x-amz-access-token"@, session.access_token.access_token)
            &&& request.method == call.method
            &&& request.body == call.body
        },
{
}

/// Of any number of requests that find the token stale before a credential
/// exchange has ended, exactly one is told to make the exchange: the first.
/// All others are told to wait, none is handed a request to send, and the
/// token stays as it was.
pub proof fn lemma_one_refresh_for_many_requests(session: ClientView, calls: Seq<Call>)
    requires
        calls.len() > 0,
        !session.refresh_in_flight,
        forall|i: int| 0 <= i < calls.len() ==> session.is_stale(#[trigger] calls[i].now),
    ensures
        refreshes(session.serve(calls).1) == 1,
        session.serve(calls).1.len() == calls.len(),
        session.serve(calls).1[0] == Ok::<StepView, Errors>(
            StepView::Refresh(session.client_information.token_request()),
        ),
        forall|i: int|
            1 <= i < calls.len() ==> #[trigger] session.serve(calls).1[i] == Ok::<StepView, Errors>(
                StepView::Wait,
            ),
        session.serve(calls).0 == (ClientView { refresh_in_flight: true, ..session }),
    decreases calls.len(),
{
    let earlier = calls.drop_last();
    if earlier.len() == 0 {
        assert(session.serve(earlier).1 =~= Seq::empty());
        assert(session.serve(calls).1.drop_last() =~= Seq::empty());
        assert(refreshes(Seq::empty()) == 0);
    } else {
        assert forall|i: int| 0 <= i < earlier.len() implies session.is_stale(
            #[trigger] earlier[i].now,
        ) by {
            assert(earlier[i] == calls[i]);
        }
        lemma_one_refresh_for_many_requests(session, earlier);
        assert(session.is_stale(calls[calls.len() - 1].now));
        assert(session.serve(calls).1.drop_last() =~= session.serve(earlier).1);
    }
}

/// A credential exchange that fails is reported as an authentication
/// failure, leaves the token and the credentials as they were, and leaves no
/// exchange under way: the next request that finds the token stale is told
/// to make the exchange again.
pub proof fn lemma_failed_refresh_can_be_retried(
    session: ClientView,
    cause: AuthError,
    now: int,
    next: Call,
)
    requires
        session.is_stale(next.now),
    ensures
        ({
            let (after, told) = session.refresh_token(Err(cause), now);
            &&& told == Err::<(), Errors>(Errors::AuthFailure(cause))
            &&& after.access_token == session.access_token
            &&& after.client_information == session.client_information
            &&& !after.refresh_in_flight
            &&& after.make_request(next.now, next.path, next.method, next.parameters, next.body).1
                == Ok::<StepView, Errors>(
                StepView::Refresh(session.client_information.token_request()),
            )
        }),
{
}

/// When a credential exchange is reported to have succeeded, the token it
/// brought is fresh at that second: a request made then is not told to
/// refresh or to wait.
pub proof fn lemma_refreshed_token_serves(
    session: ClientView,
    response: TokenResponseView,
    now: int,
    next: Call,
)
    requires
        session.refresh_token(Ok(response), now).1 is Ok,
        next.now == now,
    ensures
        ({
            let after = session.refresh_token(Ok(response), now).0;
            let told = after.make_request(
                next.now,
                next.path,
                next.method,
                next.parameters,
                next.body,
            ).1;
            &&& after.access_token == response.stamped(now)
            &&& !(told matches Ok(StepView::Refresh(_)))
            &&& told != Ok::<StepView, Errors>(StepView::Wait)
        }),
{
}

/// The credentials of a session never change, whatever is asked of it and
/// however a credential exchange ends.
pub proof fn lemma_credentials_never_change(
    session: ClientView,
    call: Call,
    outcome: Result<TokenResponseView, AuthError>,
    now: int,
)
    ensures
        session.check_validity(now).0.client_information == session.client_information,
        session.refresh_token(outcome, now).0.client_information == session.client_information,
        session.make_request(call.now, call.path, call.method, call.parameters, call.body).0.client_information
            == session.client_information,
{
}

/// A token is replaced whole or not at all. After a credential exchange the
/// session holds either every field of the issuer's answer, stamped with the
/// second at which it came, or the token it held before; asking for a request
/// never changes the token.
pub proof fn lemma_token_whole_or_kept(
    session: ClientView,
    call: Call,
    outcome: Result<TokenResponseView, AuthError>,
    now: int,
)
    ensures
        match outcome {
            Ok(response) => session.refresh_token(outcome, now).0.access_token == response.stamped(
                now,
            ),
            Err(_) => session.refresh_token(outcome, now).0.access_token == session.access_token,
        },
        session.make_request(call.now, call.path, call.method, call.parameters, call.body).0.access_token
            == session.access_token,
{
}

/// The query of a resource request holds the caller's parameters first, each
/// at the place the caller gave it and repeated keys as often as given, and
/// then the marketplace identifier. Where a URL is formed, it is the one the
/// URL parser makes of exactly this list.
pub proof fn lemma_query_keeps_parameters(
    session: ClientView,
    path: Seq<char>,
    method: Method,
    parameters: Seq<(Seq<char>, Seq<char>)>,
    body: Option<Seq<u8>>,
)
    ensures
        session.query(parameters).len() == parameters.len() + 1,
        session.query(parameters).take(parameters.len() as int) == parameters,
        session.query(parameters).last() == (
            "marketplaceIds"@,
            session.client_information.country_marketplace.marketplace_id(),
        ),
        session.request(path, method, parameters, body) matches Ok(request) ==> Ok::<
            Seq<char>,
            UrlErrorKind,
        >(request.url) == crate::address::parsed_url(
            session.client_information.country_marketplace.endpoint() + path,
            session.query(parameters),
        ),
{
    assert(session.query(parameters).take(parameters.len() as int) =~= parameters);
}

} // verus!