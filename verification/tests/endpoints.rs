use amazon_sp_api::error_handling::{Errors, Rejection};
use amazon_sp_api::general::{CountryMarketplace, Method};
use amazon_sp_api::models::catalog_items::CatalogItems;
use amazon_sp_api::models::kiosk::{Kiosk, ProcessingStatuses};
use amazon_sp_api::models::listings::{IncludedData, Listings};
use amazon_sp_api::models::product_pricing::{
    Batch, CompetitiveSummaryData, CompetitiveSummaryIncludedData,
    FeaturedOfferExpectedPriceRequest, ProductPricing,
};
use amazon_sp_api::models::sellers::Sellers;
use amazon_sp_api::parameters::{
    comma_separated, identifiers_of, push_optional, push_param, Operation,
};

fn pairs(items: &[(&str, &str)]) -> Vec<(String, String)> {
    items.iter().map(|(k, v)| (k.to_string(), v.to_string())).collect()
}

fn strings(items: &[&str]) -> Vec<String> {
    items.iter().map(|s| s.to_string()).collect()
}

fn text(s: &str) -> Option<String> {
    Some(s.to_string())
}

fn get(path: &str, parameters: Vec<(String, String)>) -> Operation {
    Operation { path: path.to_string(), method: Method::Get, parameters, body: None }
}

#[test]
fn marketplace_participations() {
    assert_eq!(
        Sellers::get_marketplace_participations(),
        get("/sellers/v1/marketplaceParticipations", Vec::new())
    );
}

#[test]
fn seller_account() {
    assert_eq!(Sellers::get_account(), get("/sellers/v1/account", Vec::new()));
}

#[test]
fn processing_statuses_as_text() {
    assert_eq!(ProcessingStatuses::CANCELLED.to_string(), "CANCELLED");
    assert_eq!(ProcessingStatuses::DONE.to_string(), "DONE");
    assert_eq!(ProcessingStatuses::FATAL.to_string(), "FATAL");
    assert_eq!(ProcessingStatuses::InProgress.to_string(), "InProgress");
    assert_eq!(ProcessingStatuses::InQueue.to_string(), "InQueue");
}

#[test]
fn kiosk_queries_without_filters() {
    assert_eq!(
        Kiosk::get_queries(None, None, None, None, None),
        get("/dataKiosk/2023-11-15/queries", Vec::new())
    );
}

#[test]
fn kiosk_queries_with_every_filter() {
    let operation = Kiosk::get_queries(
        Some(vec![ProcessingStatuses::DONE, ProcessingStatuses::InQueue]),
        Some(100),
        text("2024-01-01T00:00:00Z"),
        text("2024-02-01T00:00:00Z"),
        text("next"),
    );
    assert_eq!(
        operation,
        get(
            "/dataKiosk/2023-11-15/queries",
            pairs(&[
                ("processingStatuses", "DONEInQueue"),
                ("pageSize", "100"),
                ("createdSince", "2024-01-01T00:00:00Z"),
                ("createdUntil", "2024-02-01T00:00:00Z"),
                ("paginationToken", "next"),
            ])
        )
    );
}

#[test]
fn kiosk_queries_with_an_empty_status_list() {
    assert_eq!(
        Kiosk::get_queries(Some(Vec::new()), Some(0), None, None, None),
        get(
            "/dataKiosk/2023-11-15/queries",
            pairs(&[("processingStatuses", ""), ("pageSize", "0")])
        )
    );
}

#[test]
fn kiosk_create_query_sends_the_specification_as_a_parameter() {
    assert_eq!(
        Kiosk::create_query("{\"query\":\"q\"}".to_string()),
        Operation {
            path: "/dataKiosk/2023-11-15/queries".to_string(),
            method: Method::Post,
            parameters: pairs(&[("body", "{\"query\":\"q\"}")]),
            body: None,
        }
    );
}

#[test]
fn kiosk_single_query_and_document() {
    assert_eq!(
        Kiosk::get_query("q-1".to_string()),
        get("/dataKiosk/2023-11-15/queries/q-1", Vec::new())
    );
    assert_eq!(
        Kiosk::cancel_query("q-1".to_string()),
        Operation {
            path: "/dataKiosk/2023-11-15/queries/q-1".to_string(),
            method: Method::Delete,
            parameters: Vec::new(),
            body: None,
        }
    );
    assert_eq!(
        Kiosk::get_document("d-9".to_string()),
        get("/dataKiosk/2023-11-15/documents/d-9", Vec::new())
    );
}

#[test]
fn catalog_search_with_the_marketplaces_only() {
    let operation = CatalogItems::search_catalog_items(
        vec![CountryMarketplace::UnitedStates, CountryMarketplace::Canada],
        None,
        None,
        None,
        None,
        None,
        None,
        None,
        None,
        None,
        None,
        None,
    );
    assert_eq!(
        operation,
        get(
            "/catalog/2022-04-01/items",
            pairs(&[("marketplaceIds", "ATVPDKIKX0DER,A2EUQ1WTGCTBG2")])
        )
    );
}

#[test]
fn catalog_search_with_every_filter() {
    let operation = CatalogItems::search_catalog_items(
        vec![CountryMarketplace::Germany],
        Some(strings(&["B01", "B02"])),
        text("ASIN"),
        Some(strings(&["summaries", "images"])),
        text("de_DE"),
        text("SELLER"),
        Some(strings(&["red", "shoes"])),
        Some(strings(&["Acme"])),
        Some(strings(&["12", "34"])),
        Some(20),
        text("tok"),
        text("en_US"),
    );
    assert_eq!(
        operation,
        get(
            "/catalog/2022-04-01/items",
            pairs(&[
                ("marketplaceIds", "A1PA6795UKMFR9"),
                ("identifiers", "B01,B02"),
                ("identifiersType", "ASIN"),
                ("includedData", "summaries,images"),
                ("locale", "de_DE"),
                ("sellerId", "SELLER"),
                ("keywords", "red,shoes"),
                ("brandNames", "Acme"),
                ("classificationIds", "12,34"),
                ("pageSize", "20"),
                ("pageToken", "tok"),
                ("keywordsLocale", "en_US"),
            ])
        )
    );
}

#[test]
fn catalog_search_writes_a_negative_page_size_with_its_sign() {
    let operation = CatalogItems::search_catalog_items(
        Vec::new(),
        None,
        None,
        None,
        None,
        None,
        None,
        None,
        None,
        Some(-5),
        None,
        None,
    );
    assert_eq!(
        operation.parameters,
        pairs(&[("marketplaceIds", ""), ("pageSize", "-5")])
    );
}

#[test]
fn catalog_item_by_asin() {
    let operation = CatalogItems::get_catalog_item(
        "B0ABC".to_string(),
        vec![CountryMarketplace::Japan],
        Some(strings(&["summaries"])),
        text("ja_JP"),
    );
    assert_eq!(
        operation,
        get(
            "/catalog/2022-04-01/items/B0ABC",
            pairs(&[
                ("marketplaceIds", "A1VC38T7YXB528"),
                ("includedData", "summaries"),
                ("locale", "ja_JP"),
            ])
        )
    );
    let bare = CatalogItems::get_catalog_item("B0ABC".to_string(), Vec::new(), None, None);
    assert_eq!(bare, get("/catalog/2022-04-01/items/B0ABC", pairs(&[("marketplaceIds", "")])));
}

#[test]
fn included_data_as_text() {
    assert_eq!(IncludedData::summaries.to_string(), "summaries");
    assert_eq!(IncludedData::issues.to_string(), "issues");
    assert_eq!(IncludedData::attributes.to_string(), "attributes");
    assert_eq!(IncludedData::offers.to_string(), "offers");
    assert_eq!(IncludedData::fulfillmentAvailability.to_string(), "fulfillmentAvailability");
    assert_eq!(IncludedData::procurement.to_string(), "procurement");
    assert_eq!(IncludedData::relationships.to_string(), "relationships");
    assert_eq!(IncludedData::productTypes.to_string(), "productTypes");
}

#[test]
fn listings_item_lookup() {
    let operation = Listings::get_listings_item(
        "SELLER",
        "SKU-1",
        CountryMarketplace::SaudiArabia,
        vec![IncludedData::productTypes, IncludedData::attributes],
    );
    assert_eq!(
        operation,
        get(
            "/listings/2021-08-01/items/SELLER/SKU-1",
            pairs(&[
                ("marketplaceIds", "A17E79C6D8DWNP"),
                ("includedData", "productTypes,attributes"),
            ])
        )
    );
}

#[test]
fn listings_item_lookup_without_data_sets() {
    let operation = Listings::get_listings_item("S", "K", CountryMarketplace::Egypt, Vec::new());
    assert_eq!(
        operation.parameters,
        pairs(&[("marketplaceIds", "ARBP9OOSHTCHU"), ("includedData", "")])
    );
}

#[test]
fn listings_patch() {
    let operation = Listings::patch_listings_item(
        "SELLER",
        "SKU-1",
        CountryMarketplace::Turkey,
        false,
        "{\"patches\":[]}",
    );
    assert_eq!(
        operation,
        Operation {
            path: "/listings/2021-08-01/items/SELLER/SKU-1".to_string(),
            method: Method::Patch,
            parameters: pairs(&[("marketplaceIds", "A33AVAJ2PDY3EV")]),
            body: Some(b"{\"patches\":[]}".to_vec()),
        }
    );
}

#[test]
fn listings_patch_as_a_preview() {
    let operation =
        Listings::patch_listings_item("SELLER", "SKU-1", CountryMarketplace::Turkey, true, "caf\u{e9}");
    assert_eq!(
        operation.parameters,
        pairs(&[("marketplaceIds", "A33AVAJ2PDY3EV"), ("mode", "VALIDATION_PREVIEW")])
    );
    assert_eq!(operation.body, Some(vec![b'c', b'a', b'f', 0xc3, 0xa9]));
}

fn search(
    identifiers: Option<Vec<String>>,
    variation_parent_sku: Option<String>,
    package_hierarchy_sku: Option<String>,
    page_size: Option<u32>,
) -> Result<Operation, Errors> {
    Listings::search_listings_items(
        "SELLER".to_string(),
        CountryMarketplace::UnitedKingdom,
        None,
        None,
        identifiers,
        None,
        variation_parent_sku,
        package_hierarchy_sku,
        None,
        None,
        None,
        None,
        None,
        None,
        None,
        None,
        None,
        page_size,
        None,
    )
}

fn many(n: usize) -> Vec<String> {
    (0..n).map(|i| format!("id{}", i)).collect()
}

#[test]
fn listings_search_with_the_seller_only() {
    assert_eq!(
        search(None, None, None, None),
        Ok(get(
            "/listings/2021-08-01/items/SELLER",
            pairs(&[("marketplaceIds", "A1F83G8C2ARO7P"), ("sellerId", "SELLER")])
        ))
    );
}

#[test]
fn listings_search_refuses_identifiers_with_a_sku_filter() {
    let refused = Err(Errors::ValidationError(Rejection::IdentifiersWithSkuFilter));
    assert_eq!(search(Some(many(1)), text("parent"), None, None), refused);
    assert_eq!(search(Some(many(1)), None, text("package"), None), refused);
    assert_eq!(search(Some(Vec::new()), text("parent"), text("package"), Some(99)), refused);
    assert_eq!(search(Some(many(21)), text("parent"), None, None), refused);
}

#[test]
fn listings_search_refuses_both_sku_filters() {
    let refused = Err(Errors::ValidationError(Rejection::BothSkuFilters));
    assert_eq!(search(None, text("parent"), text("package"), None), refused);
    assert_eq!(search(None, text("parent"), text("package"), Some(21)), refused);
}

#[test]
fn listings_search_refuses_more_than_twenty_identifiers() {
    let refused = Err(Errors::ValidationError(Rejection::TooManyIdentifiers));
    assert_eq!(search(Some(many(21)), None, None, None), refused);
    assert_eq!(search(Some(many(21)), None, None, Some(21)), refused);
    assert!(search(Some(many(20)), None, None, None).is_ok());
}

#[test]
fn listings_search_refuses_a_page_of_more_than_twenty() {
    let refused = Err(Errors::ValidationError(Rejection::PageTooLarge));
    assert_eq!(search(None, None, None, Some(21)), refused);
    assert_eq!(search(Some(many(20)), None, None, Some(u32::MAX)), refused);
    assert!(search(None, None, None, Some(20)).is_ok());
    assert!(search(None, text("parent"), None, Some(0)).is_ok());
}

#[test]
fn rejections_in_words() {
    assert_eq!(
        Rejection::IdentifiersWithSkuFilter.message(),
        "Cannot use identifiers with variationParentSku or packageHierarchySku"
    );
    assert_eq!(
        Rejection::BothSkuFilters.message(),
        "Cannot use both variationParentSku and packageHierarchySku"
    );
    assert_eq!(Rejection::TooManyIdentifiers.message(), "Maximum 20 identifiers allowed");
    assert_eq!(Rejection::PageTooLarge.message(), "Maximum page size is 20");
}

#[test]
fn listings_search_with_every_filter() {
    let operation = Listings::search_listings_items(
        "SELLER".to_string(),
        CountryMarketplace::UnitedKingdom,
        text("en_GB"),
        Some(strings(&["summaries", "issues"])),
        Some(strings(&["SKU-1", "SKU-2"])),
        text("SKU"),
        None,
        None,
        text("2024-01-01"),
        text("2024-02-01"),
        text("2024-03-01"),
        text("2024-04-01"),
        Some(strings(&["ERROR", "WARNING"])),
        Some(strings(&["BUYABLE"])),
        Some(strings(&["DISCOVERABLE", "a\"b"])),
        text("lastUpdatedDate"),
        text("DESC"),
        Some(20),
        text("tok"),
    );
    assert_eq!(
        operation,
        Ok(get(
            "/listings/2021-08-01/items/SELLER",
            pairs(&[
                ("marketplaceIds", "A1F83G8C2ARO7P"),
                ("sellerId", "SELLER"),
                ("issueLocale", "en_GB"),
                ("includedData", "summaries,issues"),
                ("identifiers", "SKU-1,SKU-2"),
                ("identifiersType", "\"SKU\""),
                ("createdAfter", "2024-01-01"),
                ("createdBefore", "2024-02-01"),
                ("lastUpdatedAfter", "2024-03-01"),
                ("lastUpdatedBefore", "2024-04-01"),
                ("withIssueSeverity", "\"ERROR\",\"WARNING\""),
                ("withStatus", "\"BUYABLE\""),
                ("withoutStatus", "\"DISCOVERABLE\",\"a\\\"b\""),
                ("sortBy", "\"lastUpdatedDate\""),
                ("sortOrder", "\"DESC\""),
                ("pageSize", "20"),
                ("pageToken", "tok"),
            ])
        ))
    );
}

#[test]
fn listings_search_with_a_sku_filter() {
    let with_parent = search(None, text("parent"), None, None).unwrap();
    assert_eq!(
        with_parent.parameters,
        pairs(&[
            ("marketplaceIds", "A1F83G8C2ARO7P"),
            ("sellerId", "SELLER"),
            ("variationParentSku", "parent"),
        ])
    );
    let with_package = search(None, None, text("package"), None).unwrap();
    assert_eq!(
        with_package.parameters,
        pairs(&[
            ("marketplaceIds", "A1F83G8C2ARO7P"),
            ("sellerId", "SELLER"),
            ("packageHierarchySku", "package"),
        ])
    );
}

#[test]
fn listings_search_parameters_are_written_as_given() {
    let parameters = Listings::search_parameters(
        "S".to_string(),
        CountryMarketplace::India,
        None,
        None,
        Some(strings(&["x"])),
        text("SKU"),
        text("parent"),
        text("package"),
        None,
        None,
        None,
        None,
        Some(strings(&["ERROR"])),
        None,
        None,
        text("sku"),
        None,
        Some(4_000_000_000),
        None,
    );
    assert_eq!(
        parameters,
        pairs(&[
            ("marketplaceIds", "A21TJRUUN4KGV"),
            ("sellerId", "S"),
            ("identifiers", "x"),
            ("identifiersType", "SKU"),
            ("variationParentSku", "parent"),
            ("packageHierarchySku", "package"),
            ("withIssueSeverity", "ERROR"),
            ("sortBy", "sku"),
            ("pageSize", "4000000000"),
        ])
    );
}

#[test]
fn competitive_summary_data_sets_as_text() {
    assert_eq!(
        CompetitiveSummaryIncludedData::FeaturedBuyingOptions.to_string(),
        "featuredBuyingOptions"
    );
    assert_eq!(CompetitiveSummaryIncludedData::ReferencePrices.to_string(), "referencePrices");
    assert_eq!(
        CompetitiveSummaryIncludedData::LowestPricedOffers.to_string(),
        "lowestPricedOffers"
    );
}

#[test]
fn competitive_summary_has_one_request_for_each_asin() {
    let batch = ProductPricing::get_competitive_summary(
        strings(&["B01", "B02"]),
        CountryMarketplace::UnitedStates,
        vec![
            CompetitiveSummaryIncludedData::ReferencePrices,
            CompetitiveSummaryIncludedData::LowestPricedOffers,
        ],
        "GET".to_string(),
        None,
    );
    let request = |asin: &str| CompetitiveSummaryData {
        method: "GET".to_string(),
        uri: "/products/pricing/2022-05-01/items/competitiveSummary".to_string(),
        marketplace_id: "ATVPDKIKX0DER".to_string(),
        asin: asin.to_string(),
        included_data: strings(&["referencePrices", "lowestPricedOffers"]),
    };
    assert_eq!(
        batch,
        Batch {
            path: "/batches/products/pricing/2022-05-01/items/competitiveSummary".to_string(),
            method: Method::Post,
            requests: vec![request("B01"), request("B02")],
        }
    );
}

#[test]
fn competitive_summary_with_a_uri_of_the_callers() {
    let batch = ProductPricing::get_competitive_summary(
        strings(&["B01"]),
        CountryMarketplace::Mexico,
        Vec::new(),
        "GET".to_string(),
        text("/mine"),
    );
    assert_eq!(
        batch.requests,
        vec![CompetitiveSummaryData {
            method: "GET".to_string(),
            uri: "/mine".to_string(),
            marketplace_id: "A1AM78C64UM0Y8".to_string(),
            asin: "B01".to_string(),
            included_data: Vec::new(),
        }]
    );
    let empty = ProductPricing::get_competitive_summary(
        Vec::new(),
        CountryMarketplace::Mexico,
        Vec::new(),
        "GET".to_string(),
        None,
    );
    assert!(empty.requests.is_empty());
}

#[test]
fn featured_offer_batch_has_one_request_for_each_sku() {
    let batch = ProductPricing::get_featured_offer_expected_price_batch(
        None,
        "GET".to_string(),
        text("{}"),
        text("[\"a\",\"b\"]"),
        CountryMarketplace::Brazil,
        strings(&["SKU-1", "SKU-2", "SKU-1"]),
    );
    let request = |sku: &str| FeaturedOfferExpectedPriceRequest {
        uri: "/products/pricing/2022-05-01/offer/featuredOfferExpectedPrice".to_string(),
        method: "GET".to_string(),
        marketplace_id: "A2Q3Y263D00KWC".to_string(),
        body: text("{}"),
        headers: text("[\"a\",\"b\"]"),
        sku: sku.to_string(),
    };
    assert_eq!(
        batch,
        Batch {
            path: "/batches/products/pricing/2022-05-01/offer/featuredOfferExpectedPrice"
                .to_string(),
            method: Method::Post,
            requests: vec![request("SKU-1"), request("SKU-2"), request("SKU-1")],
        }
    );
}

#[test]
fn featured_offer_batch_with_a_uri_of_the_callers() {
    let batch = ProductPricing::get_featured_offer_expected_price_batch(
        text("/mine"),
        "POST".to_string(),
        None,
        None,
        CountryMarketplace::Sweden,
        strings(&["K"]),
    );
    assert_eq!(
        batch.requests,
        vec![FeaturedOfferExpectedPriceRequest {
            uri: "/mine".to_string(),
            method: "POST".to_string(),
            marketplace_id: "A2NODRKZP88ZB9".to_string(),
            body: None,
            headers: None,
            sku: "K".to_string(),
        }]
    );
}

#[test]
fn parameters_are_added_at_the_end() {
    let mut parameters = pairs(&[("a", "1")]);
    push_param(&mut parameters, "b", "2".to_string());
    push_optional(&mut parameters, "c", None);
    push_optional(&mut parameters, "a", text("3"));
    assert_eq!(parameters, pairs(&[("a", "1"), ("b", "2"), ("a", "3")]));
}

#[test]
fn lists_are_written_with_commas() {
    assert_eq!(comma_separated(&None), None);
    assert_eq!(comma_separated(&Some(Vec::new())), text(""));
    assert_eq!(comma_separated(&Some(strings(&["a", "b"]))), text("a,b"));
    assert_eq!(
        identifiers_of(&vec![CountryMarketplace::Poland, CountryMarketplace::Poland]),
        strings(&["A1C3SOZRARQ6R3", "A1C3SOZRARQ6R3"])
    );
}
