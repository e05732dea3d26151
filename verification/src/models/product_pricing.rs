use crate::general::{CountryMarketplace, Method};
use vstd::prelude::*;

verus! {

/// The data sets a competitive summary can be asked for.
#[derive(Clone, Copy, Debug, PartialEq, Eq, Structural)]
pub enum CompetitiveSummaryIncludedData {
    FeaturedBuyingOptions,
    ReferencePrices,
    LowestPricedOffers,
}

impl CompetitiveSummaryIncludedData {
    /// The data set as the service spells it.
    pub open spec fn name(self) -> Seq<char> {
        match self {
            CompetitiveSummaryIncludedData::FeaturedBuyingOptions => "featuredBuyingOptions"@,
            CompetitiveSummaryIncludedData::ReferencePrices => "referencePrices"@,
            CompetitiveSummaryIncludedData::LowestPricedOffers => "lowestPricedOffers"@,
        }
    }

    pub fn to_string(&self) -> (r: String)
        ensures
            r@ == self.name(),
    {
        match self {
            CompetitiveSummaryIncludedData::FeaturedBuyingOptions => String::from_str(
                "featuredBuyingOptions",
            ),
            CompetitiveSummaryIncludedData::ReferencePrices => String::from_str("referencePrices"),
            CompetitiveSummaryIncludedData::LowestPricedOffers => String::from_str(
                "lowestPricedOffers",
            ),
        }
    }
}

/// One request of a competitive-summary batch.
#[derive(Clone, Debug, PartialEq, Eq)]
pub struct CompetitiveSummaryData {
    pub method: String,
    pub uri: String,
    pub marketplace_id: String,
    pub asin: String,
    pub included_data: Vec<String>,
}

/// [`CompetitiveSummaryData`] with each text taken as its characters.
pub struct CompetitiveSummaryDataView {
    pub method: Seq<char>,
    pub uri: Seq<char>,
    pub marketplace_id: Seq<char>,
    pub asin: Seq<char>,
    pub included_data: Seq<Seq<char>>,
}

impl DeepView for CompetitiveSummaryData {
    type V = CompetitiveSummaryDataView;

    open spec fn deep_view(&self) -> CompetitiveSummaryDataView {
        CompetitiveSummaryDataView {
            method: self.method@,
            uri: self.uri@,
            marketplace_id: self.marketplace_id@,
            asin: self.asin@,
            included_data: self.included_data.deep_view(),
        }
    }
}

/// One request of a batch of featured-offer expected prices.
#[derive(Clone, Debug, PartialEq, Eq)]
pub struct FeaturedOfferExpectedPriceRequest {
    pub uri: String,
    pub method: String,
    pub marketplace_id: String,
    pub body: Option<String>,
    pub headers: Option<String>,
    pub sku: String,
}

/// [`FeaturedOfferExpectedPriceRequest`] with each text taken as its
/// characters.
pub struct FeaturedOfferExpectedPriceRequestView {
    pub uri: Seq<char>,
    pub method: Seq<char>,
    pub marketplace_id: Seq<char>,
    pub body: Option<Seq<char>>,
    pub headers: Option<Seq<char>>,
    pub sku: Seq<char>,
}

impl DeepView for FeaturedOfferExpectedPriceRequest {
    type V = FeaturedOfferExpectedPriceRequestView;

    open spec fn deep_view(&self) -> FeaturedOfferExpectedPriceRequestView {
        FeaturedOfferExpectedPriceRequestView {
            uri: self.uri@,
            method: self.method@,
            marketplace_id: self.marketplace_id@,
            body: self.body.deep_view(),
            headers: self.headers.deep_view(),
            sku: self.sku@,
        }
    }
}

/// A batch: where it is posted, and the requests that make up the member
/// `requests` of its JSON body, in their order.
#[derive(Clone, Debug, PartialEq, Eq)]
pub struct Batch<T> {
    pub path: String,
    pub method: Method,
    pub requests: Vec<T>,
}

/// The URI a request of a batch names where the caller names none.
pub open spec fn uri_or(uri: Option<Seq<char>>, default: Seq<char>) -> Seq<char> {
    match uri {
        Some(given) => given,
        None => default,
    }
}

/// The names of the data sets of a list, in its order.
pub open spec fn names_of(data: Seq<CompetitiveSummaryIncludedData>) -> Seq<Seq<char>> {
    data.map_values(|d: CompetitiveSummaryIncludedData| d.name())
}

/// The requests of a competitive-summary batch: one for each ASIN, in the
/// order given, and alike in everything else.
pub open spec fn competitive_summary_requests(
    asin: Seq<Seq<char>>,
    market_place: CountryMarketplace,
    included_data: Seq<CompetitiveSummaryIncludedData>,
    method: Seq<char>,
    uri: Option<Seq<char>>,
) -> Seq<CompetitiveSummaryDataView> {
    asin.map_values(
        |a: Seq<char>|
            CompetitiveSummaryDataView {
                method,
                uri: uri_or(uri, "/products/pricing/2022-05-01/items/competitiveSummary"@),
                marketplace_id: market_place.marketplace_id(),
                asin: a,
                included_data: names_of(included_data),
            },
    )
}

/// The requests of a batch of featured-offer expected prices: one for each
/// SKU, in the order given, and alike in everything else.
pub open spec fn featured_offer_requests(
    uri: Option<Seq<char>>,
    method: Seq<char>,
    body: Option<Seq<char>>,
    headers: Option<Seq<char>>,
    market_place: CountryMarketplace,
    sku: Seq<Seq<char>>,
) -> Seq<FeaturedOfferExpectedPriceRequestView> {
    sku.map_values(
        |s: Seq<char>|
            FeaturedOfferExpectedPriceRequestView {
                uri: uri_or(uri, "/products/pricing/2022-05-01/offer/featuredOfferExpectedPrice"@),
                method,
                marketplace_id: market_place.marketplace_id(),
                body,
                headers,
                sku: s,
            },
    )
}

fn names(data: &Vec<CompetitiveSummaryIncludedData>) -> (r: Vec<String>)
    ensures
        r.deep_view() == names_of(data@),
{
    let mut out: Vec<String> = Vec::new();
    let mut i: usize = 0;
    while i < data.len()
        invariant
            i <= data.len(),
            out.len() == i,
            forall|j: int| 0 <= j < i ==> (#[trigger] out[j])@ == data[j].name(),
        decreases data.len() - i,
    {
        out.push(data[i].to_string());
        i = i + 1;
    }
    assert(out.deep_view() =~= names_of(data@));
    out
}

fn copy_of(text: &Option<String>) -> (r: Option<String>)
    ensures
        r.deep_view() == text.deep_view(),
{
    match text {
        Some(given) => Some(given.clone()),
        None => None,
    }
}

pub struct ProductPricing;

impl ProductPricing {
    /// Describes a batch of featured-offer expected prices, with one request
    /// for each SKU. `headers` is the text that goes into each request under
    /// that name, if there is any.
    pub fn get_featured_offer_expected_price_batch(
        uri: Option<String>,
        method: String,
        body: Option<String>,
        headers: Option<String>,
        market_place: CountryMarketplace,
        sku: Vec<String>,
    ) -> (r: Batch<FeaturedOfferExpectedPriceRequest>)
        ensures
            r.path@ == "/batches/products/pricing/2022-05-01/offer/featuredOfferExpectedPrice"@,
            r.method == Method::Post,
            r.requests.deep_view() == featured_offer_requests(
                uri.deep_view(),
                method@,
                body.deep_view(),
                headers.deep_view(),
                market_place,
                sku.deep_view(),
            ),
    {
        let uri = match uri {
            Some(given) => given,
            None => String::from_str(
                "/products/pricing/2022-05-01/offer/featuredOfferExpectedPrice",
            ),
        };
        let mut requests: Vec<FeaturedOfferExpectedPriceRequest> = Vec::new();
        let mut i: usize = 0;
        while i < sku.len()
            invariant
                i <= sku.len(),
                requests.len() == i,
                forall|j: int|
                    0 <= j < i ==> (#[trigger] requests[j]).deep_view() == (
                    FeaturedOfferExpectedPriceRequestView {
                        uri: uri@,
                        method: method@,
                        marketplace_id: market_place.marketplace_id(),
                        body: body.deep_view(),
                        headers: headers.deep_view(),
                        sku: sku[j]@,
                    }),
            decreases sku.len() - i,
        {
            requests.push(
                FeaturedOfferExpectedPriceRequest {
                    uri: uri.clone(),
                    method: method.clone(),
                    marketplace_id: String::from_str(market_place.details().0),
                    body: copy_of(&body),
                    headers: copy_of(&headers),
                    sku: sku[i].clone(),
                },
            );
            i = i + 1;
        }
        assert(requests.deep_view() =~= featured_offer_requests(
            Some(uri@),
            method@,
            body.deep_view(),
            headers.deep_view(),
            market_place,
            sku.deep_view(),
        ));
        Batch {
            path: String::from_str(
                "/batches/products/pricing/2022-05-01/offer/featuredOfferExpectedPrice",
            ),
            method: Method::Post,
            requests,
        }
    }

    /// Describes a batch of competitive summaries, with one request for each
    /// ASIN.
    pub fn get_competitive_summary(
        asin: Vec<String>,
        market_place: CountryMarketplace,
        included_data: Vec<CompetitiveSummaryIncludedData>,
        method: String,
        uri: Option<String>,
    ) -> (r: Batch<CompetitiveSummaryData>)
        ensures
            r.path@ == "/batches/products/pricing/2022-05-01/items/competitiveSummary"@,
            r.method == Method::Post,
            r.requests.deep_view() == competitive_summary_requests(
                asin.deep_view(),
                market_place,
                included_data@,
                method@,
                uri.deep_view(),
            ),
    {
        let uri = match uri {
            Some(given) => given,
            None => String::from_str("/products/pricing/2022-05-01/items/competitiveSummary"),
        };
        let mut requests: Vec<CompetitiveSummaryData> = Vec::new();
        let mut i: usize = 0;
        while i < asin.len()
            invariant
                i <= asin.len(),
                requests.len() == i,
                forall|j: int|
                    0 <= j < i ==> (#[trigger] requests[j]).deep_view() == (
                    CompetitiveSummaryDataView {
                        method: method@,
                        uri: uri@,
                        marketplace_id: market_place.marketplace_id(),
                        asin: asin[j]@,
                        included_data: names_of(included_data@),
                    }),
            decreases asin.len() - i,
        {
            requests.push(
                CompetitiveSummaryData {
                    method: method.clone(),
                    uri: uri.clone(),
                    marketplace_id: String::from_str(market_place.details().0),
                    asin: asin[i].clone(),
                    included_data: names(&included_data),
                },
            );
            i = i + 1;
        }
        assert(requests.deep_view() =~= competitive_summary_requests(
            asin.deep_view(),
            market_place,
            included_data@,
            method@,
            Some(uri@),
        ));
        Batch {
            path: String::from_str("/batches/products/pricing/2022-05-01/items/competitiveSummary"),
            method: Method::Post,
            requests,
        }
    }
}

} // verus!
