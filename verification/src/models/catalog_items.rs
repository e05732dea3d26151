use crate::general::{CountryMarketplace, Method};
use crate::parameters::{
    comma_list, comma_separated, decimal_of, identifiers_of, ids_of, optional, push_optional,
    push_param, Operation, OperationView,
};
use crate::text::{join, joined, signed_to_string};
use vstd::prelude::*;

verus! {

pub struct CatalogItems;

/// The page size as an integer, if there is one.
pub open spec fn page_of(page_size: Option<i32>) -> Option<int> {
    match page_size {
        Some(n) => Some(n as int),
        None => None,
    }
}

/// The parameters of a catalog search: the marketplaces, and then each filter
/// that is given, in a fixed order.
pub open spec fn search_parameters(
    marketplace_ids: Seq<CountryMarketplace>,
    identifiers: Option<Seq<Seq<char>>>,
    identifiers_type: Option<Seq<char>>,
    included_data: Option<Seq<Seq<char>>>,
    locale: Option<Seq<char>>,
    seller_id: Option<Seq<char>>,
    keywords: Option<Seq<Seq<char>>>,
    brand_names: Option<Seq<Seq<char>>>,
    classification_ids: Option<Seq<Seq<char>>>,
    page_size: Option<i32>,
    page_token: Option<Seq<char>>,
    keywords_locale: Option<Seq<char>>,
) -> Seq<(Seq<char>, Seq<char>)> {
    seq![("marketplaceIds"@, joined(ids_of(marketplace_ids), ","@))] + optional(
        "identifiers"@,
        comma_list(identifiers),
    ) + optional("identifiersType"@, identifiers_type) + optional(
        "includedData"@,
        comma_list(included_data),
    ) + optional("locale"@, locale) + optional("sellerId"@, seller_id) + optional(
        "keywords"@,
        comma_list(keywords),
    ) + optional("brandNames"@, comma_list(brand_names)) + optional(
        "classificationIds"@,
        comma_list(classification_ids),
    ) + optional("pageSize"@, decimal_of(page_of(page_size))) + optional(
        "pageToken"@,
        page_token,
    ) + optional("keywordsLocale"@, keywords_locale)
}

/// The parameters of the lookup of one catalog item.
pub open spec fn item_parameters(
    marketplace_ids: Seq<CountryMarketplace>,
    included_data: Option<Seq<Seq<char>>>,
    locale: Option<Seq<char>>,
) -> Seq<(Seq<char>, Seq<char>)> {
    seq![("marketplaceIds"@, joined(ids_of(marketplace_ids), ","@))] + optional(
        "includedData"@,
        comma_list(included_data),
    ) + optional("locale"@, locale)
}

impl CatalogItems {
    /// Describes a search of the catalog. Lists are written with commas
    /// between their items, the marketplaces by their identifiers.
    pub fn search_catalog_items(
        marketplace_ids: Vec<CountryMarketplace>,
        identifiers: Option<Vec<String>>,
        identifiers_type: Option<String>,
        included_data: Option<Vec<String>>,
        locale: Option<String>,
        seller_id: Option<String>,
        keywords: Option<Vec<String>>,
        brand_names: Option<Vec<String>>,
        classification_ids: Option<Vec<String>>,
        page_size: Option<i32>,
        page_token: Option<String>,
        keywords_locale: Option<String>,
    ) -> (r: Operation)
        ensures
            r@ == (OperationView {
                path: "/catalog/2022-04-01/items"@,
                method: Method::Get,
                parameters: search_parameters(
                    marketplace_ids@,
                    identifiers.deep_view(),
                    identifiers_type.deep_view(),
                    included_data.deep_view(),
                    locale.deep_view(),
                    seller_id.deep_view(),
                    keywords.deep_view(),
                    brand_names.deep_view(),
                    classification_ids.deep_view(),
                    page_size,
                    page_token.deep_view(),
                    keywords_locale.deep_view(),
                ),
                body: None,
            }),
    {
        let mut params: Vec<(String, String)> = Vec::new();
        push_param(&mut params, "marketplaceIds", join(&identifiers_of(&marketplace_ids), ","));
        assert(params.deep_view() =~= seq![
            ("marketplaceIds"@, joined(ids_of(marketplace_ids@), ","@)),
        ]);
        push_optional(&mut params, "identifiers", comma_separated(&identifiers));
        push_optional(&mut params, "identifiersType", identifiers_type);
        push_optional(&mut params, "includedData", comma_separated(&included_data));
        push_optional(&mut params, "locale", locale);
        push_optional(&mut params, "sellerId", seller_id);
        push_optional(&mut params, "keywords", comma_separated(&keywords));
        push_optional(&mut params, "brandNames", comma_separated(&brand_names));
        push_optional(&mut params, "classificationIds", comma_separated(&classification_ids));
        let page = match page_size {
            Some(n) => Some(signed_to_string(n as i64)),
            None => None,
        };
        push_optional(&mut params, "pageSize", page);
        push_optional(&mut params, "pageToken", page_token);
        push_optional(&mut params, "keywordsLocale", keywords_locale);
        Operation {
            path: String::from_str("/catalog/2022-04-01/items"),
            method: Method::Get,
            parameters: params,
            body: None,
        }
    }

    /// Describes the lookup of one catalog item by its ASIN.
    pub fn get_catalog_item(
        asin: String,
        marketplace_ids: Vec<CountryMarketplace>,
        included_data: Option<Vec<String>>,
        locale: Option<String>,
    ) -> (r: Operation)
        ensures
            r@ == (OperationView {
                path: "/catalog/2022-04-01/items/"@ + asin@,
                method: Method::Get,
                parameters: item_parameters(
                    marketplace_ids@,
                    included_data.deep_view(),
                    locale.deep_view(),
                ),
                body: None,
            }),
    {
        let mut params: Vec<(String, String)> = Vec::new();
        push_param(&mut params, "marketplaceIds", join(&identifiers_of(&marketplace_ids), ","));
        assert(params.deep_view() =~= seq![
            ("marketplaceIds"@, joined(ids_of(marketplace_ids@), ","@)),
        ]);
        push_optional(&mut params, "includedData", comma_separated(&included_data));
        push_optional(&mut params, "locale", locale);
        Operation {
            path: String::from_str("/catalog/2022-04-01/items/").concat(asin.as_str()),
            method: Method::Get,
            parameters: params,
            body: None,
        }
    }
}

} // verus!
