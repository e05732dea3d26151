use crate::error_handling::{Errors, Rejection};
use crate::general::{CountryMarketplace, Method};
use crate::parameters::{
    comma_list, comma_separated, decimal_of, optional, push_optional, push_param, Operation,
    OperationView,
};
use crate::text::{debug_quoted, debug_text, join, joined, unsigned_to_string};
use vstd::prelude::*;
use vstd::utf8::encode_utf8;

verus! {

pub struct Listings;

/// The data sets a listings item can be asked for.
#[allow(non_camel_case_types)]
#[derive(Clone, Copy, Debug, PartialEq, Eq, Structural)]
pub enum IncludedData {
    summaries,
    issues,
    attributes,
    offers,
    fulfillmentAvailability,
    procurement,
    relationships,
    productTypes,
}

impl IncludedData {
    /// The data set as the service spells it.
    pub open spec fn name(self) -> Seq<char> {
        match self {
            IncludedData::summaries => "summaries"@,
            IncludedData::issues => "issues"@,
            IncludedData::attributes => "attributes"@,
            IncludedData::offers => "offers"@,
            IncludedData::fulfillmentAvailability => "fulfillmentAvailability"@,
            IncludedData::procurement => "procurement"@,
            IncludedData::relationships => "relationships"@,
            IncludedData::productTypes => "productTypes"@,
        }
    }

    pub fn to_string(&self) -> (r: String)
        ensures
            r@ == self.name(),
    {
        match self {
            IncludedData::summaries => String::from_str("summaries"),
            IncludedData::issues => String::from_str("issues"),
            IncludedData::attributes => String::from_str("attributes"),
            IncludedData::offers => String::from_str("offers"),
            IncludedData::fulfillmentAvailability => String::from_str("fulfillmentAvailability"),
            IncludedData::procurement => String::from_str("procurement"),
            IncludedData::relationships => String::from_str("relationships"),
            IncludedData::productTypes => String::from_str("productTypes"),
        }
    }
}

/// The names of the data sets of a list, in its order.
pub open spec fn names_of(data: Seq<IncludedData>) -> Seq<Seq<char>> {
    data.map_values(|d: IncludedData| d.name())
}

/// The path of one listings item.
pub open spec fn item_path(seller_id: Seq<char>, sku: Seq<char>) -> Seq<char> {
    "/listings/2021-08-01/items/"@ + seller_id + "/"@ + sku
}

/// A value as it is written with `{:?}`, if there is a value.
pub open spec fn quoted(value: Option<Seq<char>>) -> Option<Seq<char>> {
    match value {
        Some(text) => Some(debug_text(text)),
        None => None,
    }
}

/// Each item of a list as it is written with `{:?}`, if there is a list.
pub open spec fn quoted_each(items: Option<Seq<Seq<char>>>) -> Option<Seq<Seq<char>>> {
    match items {
        Some(list) => Some(list.map_values(|text: Seq<char>| debug_text(text))),
        None => None,
    }
}

/// The first rule that a search breaks, if it breaks one. Identifiers exclude
/// both SKU filters, the SKU filters exclude each other, and neither the
/// identifiers nor the page may number more than twenty.
pub open spec fn search_rejection(
    identifiers: Option<Seq<Seq<char>>>,
    variation_parent_sku: Option<Seq<char>>,
    package_hierarchy_sku: Option<Seq<char>>,
    page_size: Option<u32>,
) -> Option<Rejection> {
    if identifiers is Some && (variation_parent_sku is Some || package_hierarchy_sku is Some) {
        Some(Rejection::IdentifiersWithSkuFilter)
    } else if variation_parent_sku is Some && package_hierarchy_sku is Some {
        Some(Rejection::BothSkuFilters)
    } else if identifiers is Some && identifiers->0.len() > 20 {
        Some(Rejection::TooManyIdentifiers)
    } else if page_size is Some && page_size->0 > 20 {
        Some(Rejection::PageTooLarge)
    } else {
        None
    }
}

/// The page size as an integer, if there is one.
pub open spec fn page_of(page_size: Option<u32>) -> Option<int> {
    match page_size {
        Some(n) => Some(n as int),
        None => None,
    }
}

/// The parameters of a search: the marketplace and the seller, and then each
/// filter that is given, in a fixed order. The arguments are the values as
/// they are to be written.
pub open spec fn search_parameters(
    seller_id: Seq<char>,
    marketplace: CountryMarketplace,
    issue_locale: Option<Seq<char>>,
    included_data: Option<Seq<Seq<char>>>,
    identifiers: Option<Seq<Seq<char>>>,
    identifiers_type: Option<Seq<char>>,
    variation_parent_sku: Option<Seq<char>>,
    package_hierarchy_sku: Option<Seq<char>>,
    created_after: Option<Seq<char>>,
    created_before: Option<Seq<char>>,
    last_updated_after: Option<Seq<char>>,
    last_updated_before: Option<Seq<char>>,
    with_issue_severity: Option<Seq<Seq<char>>>,
    with_status: Option<Seq<Seq<char>>>,
    without_status: Option<Seq<Seq<char>>>,
    sort_by: Option<Seq<char>>,
    sort_order: Option<Seq<char>>,
    page_size: Option<u32>,
    page_token: Option<Seq<char>>,
) -> Seq<(Seq<char>, Seq<char>)> {
    seq![("marketplaceIds"@, marketplace.marketplace_id()), ("sellerId"@, seller_id)] + optional(
        "issueLocale"@,
        issue_locale,
    ) + optional("includedData"@, comma_list(included_data)) + optional(
        "identifiers"@,
        comma_list(identifiers),
    ) + optional("identifiersType"@, identifiers_type) + optional(
        "variationParentSku"@,
        variation_parent_sku,
    ) + optional("packageHierarchySku"@, package_hierarchy_sku) + optional(
        "createdAfter"@,
        created_after,
    ) + optional("createdBefore"@, created_before) + optional(
        "lastUpdatedAfter"@,
        last_updated_after,
    ) + optional("lastUpdatedBefore"@, last_updated_before) + optional(
        "withIssueSeverity"@,
        comma_list(with_issue_severity),
    ) + optional("withStatus"@, comma_list(with_status)) + optional(
        "withoutStatus"@,
        comma_list(without_status),
    ) + optional("sortBy"@, sort_by) + optional("sortOrder"@, sort_order) + optional(
        "pageSize"@,
        decimal_of(page_of(page_size)),
    ) + optional("pageToken"@, page_token)
}

/// An operation or a failure, with the operation taken by its view.
pub open spec fn operation_view(r: Result<Operation, Errors>) -> Result<OperationView, Errors> {
    match r {
        Ok(operation) => Ok(operation@),
        Err(e) => Err(e),
    }
}

fn item_path_of(seller_id: &str, sku: &str) -> (r: String)
    ensures
        r@ == item_path(seller_id@, sku@),
{
    String::from_str("/listings/2021-08-01/items/").concat(seller_id).concat("/").concat(sku)
}

fn quote(value: Option<String>) -> (r: Option<String>)
    ensures
        r.deep_view() == quoted(value.deep_view()),
{
    match value {
        Some(text) => Some(debug_quoted(text.as_str())),
        None => None,
    }
}

fn quote_each(items: Option<Vec<String>>) -> (r: Option<Vec<String>>)
    ensures
        r.deep_view() == quoted_each(items.deep_view()),
{
    match items {
        Some(list) => {
            let mut out: Vec<String> = Vec::new();
            let mut i: usize = 0;
            while i < list.len()
                invariant
                    i <= list.len(),
                    out.len() == i,
                    forall|j: int| 0 <= j < i ==> (#[trigger] out[j])@ == debug_text(list[j]@),
                decreases list.len() - i,
            {
                out.push(debug_quoted(list[i].as_str()));
                i = i + 1;
            }
            assert(out.deep_view() =~= list.deep_view().map_values(
                |text: Seq<char>| debug_text(text),
            ));
            Some(out)
        },
        None => None,
    }
}

impl Listings {
    /// Describes the lookup of one listings item with the data sets asked
    /// for.
    pub fn get_listings_item(
        seller_id: &str,
        sku: &str,
        country_marketplace: CountryMarketplace,
        included_data: Vec<IncludedData>,
    ) -> (r: Operation)
        ensures
            r@ == (OperationView {
                path: item_path(seller_id@, sku@),
                method: Method::Get,
                parameters: seq![
                    ("marketplaceIds"@, country_marketplace.marketplace_id()),
                    ("includedData"@, joined(names_of(included_data@), ","@)),
                ],
                body: None,
            }),
    {
        let mut names: Vec<String> = Vec::new();
        let mut i: usize = 0;
        while i < included_data.len()
            invariant
                i <= included_data.len(),
                names.len() == i,
                forall|j: int| 0 <= j < i ==> (#[trigger] names[j])@ == included_data[j].name(),
            decreases included_data.len() - i,
        {
            names.push(included_data[i].to_string());
            i = i + 1;
        }
        assert(names.deep_view() =~= names_of(included_data@));
        let mut parameters: Vec<(String, String)> = Vec::new();
        push_param(
            &mut parameters,
            "marketplaceIds",
            String::from_str(country_marketplace.details().0),
        );
        push_param(&mut parameters, "includedData", join(&names, ","));
        assert(parameters.deep_view() =~= seq![
            ("marketplaceIds"@, country_marketplace.marketplace_id()),
            ("includedData"@, joined(names_of(included_data@), ","@)),
        ]);
        Operation {
            path: item_path_of(seller_id, sku),
            method: Method::Get,
            parameters,
            body: None,
        }
    }

    /// Describes a partial update of one listings item. The body is sent as
    /// its UTF-8 bytes; with `validation_preview` the service only checks it.
    pub fn patch_listings_item(
        seller_id: &str,
        sku: &str,
        country_marketplace: CountryMarketplace,
        validation_preview: bool,
        body: &str,
    ) -> (r: Operation)
        ensures
            r@ == (OperationView {
                path: item_path(seller_id@, sku@),
                method: Method::Patch,
                parameters: seq![("marketplaceIds"@, country_marketplace.marketplace_id())]
                    + if validation_preview {
                    seq![("mode"@, "VALIDATION_PREVIEW"@)]
                } else {
                    Seq::empty()
                },
                body: Some(encode_utf8(body@)),
            }),
    {
        let mut parameters: Vec<(String, String)> = Vec::new();
        push_param(
            &mut parameters,
            "marketplaceIds",
            String::from_str(country_marketplace.details().0),
        );
        if validation_preview {
            push_param(&mut parameters, "mode", String::from_str("VALIDATION_PREVIEW"));
        }
        assert(parameters.deep_view() =~= seq![
            ("marketplaceIds"@, country_marketplace.marketplace_id()),
        ] + if validation_preview {
            seq![("mode"@, "VALIDATION_PREVIEW"@)]
        } else {
            Seq::empty()
        });
        Operation {
            path: item_path_of(seller_id, sku),
            method: Method::Patch,
            parameters,
            body: Some(body.as_bytes_vec()),
        }
    }

    /// Lists the parameters of a search from the values as they are to be
    /// written.
    pub fn search_parameters(
        seller_id: String,
        marketplace: CountryMarketplace,
        issue_locale: Option<String>,
        included_data: Option<Vec<String>>,
        identifiers: Option<Vec<String>>,
        identifiers_type: Option<String>,
        variation_parent_sku: Option<String>,
        package_hierarchy_sku: Option<String>,
        created_after: Option<String>,
        created_before: Option<String>,
        last_updated_after: Option<String>,
        last_updated_before: Option<String>,
        with_issue_severity: Option<Vec<String>>,
        with_status: Option<Vec<String>>,
        without_status: Option<Vec<String>>,
        sort_by: Option<String>,
        sort_order: Option<String>,
        page_size: Option<u32>,
        page_token: Option<String>,
    ) -> (r: Vec<(String, String)>)
        ensures
            r.deep_view() == search_parameters(
                seller_id@,
                marketplace,
                issue_locale.deep_view(),
                included_data.deep_view(),
                identifiers.deep_view(),
                identifiers_type.deep_view(),
                variation_parent_sku.deep_view(),
                package_hierarchy_sku.deep_view(),
                created_after.deep_view(),
                created_before.deep_view(),
                last_updated_after.deep_view(),
                last_updated_before.deep_view(),
                with_issue_severity.deep_view(),
                with_status.deep_view(),
                without_status.deep_view(),
                sort_by.deep_view(),
                sort_order.deep_view(),
                page_size,
                page_token.deep_view(),
            ),
    {
        let mut params: Vec<(String, String)> = Vec::new();
        push_param(&mut params, "marketplaceIds", String::from_str(marketplace.details().0));
        push_param(&mut params, "sellerId", seller_id);
        assert(params.deep_view() =~= seq![
            ("marketplaceIds"@, marketplace.marketplace_id()),
            ("sellerId"@, seller_id@),
        ]);
        push_optional(&mut params, "issueLocale", issue_locale);
        push_optional(&mut params, "includedData", comma_separated(&included_data));
        push_optional(&mut params, "identifiers", comma_separated(&identifiers));
        push_optional(&mut params, "identifiersType", identifiers_type);
        push_optional(&mut params, "variationParentSku", variation_parent_sku);
        push_optional(&mut params, "packageHierarchySku", package_hierarchy_sku);
        push_optional(&mut params, "createdAfter", created_after);
        push_optional(&mut params, "createdBefore", created_before);
        push_optional(&mut params, "lastUpdatedAfter", last_updated_after);
        push_optional(&mut params, "lastUpdatedBefore", last_updated_before);
        push_optional(&mut params, "withIssueSeverity", comma_separated(&with_issue_severity));
        push_optional(&mut params, "withStatus", comma_separated(&with_status));
        push_optional(&mut params, "withoutStatus", comma_separated(&without_status));
        push_optional(&mut params, "sortBy", sort_by);
        push_optional(&mut params, "sortOrder", sort_order);
        let page = match page_size {
            Some(n) => Some(unsigned_to_string(n as u64)),
            None => None,
        };
        push_optional(&mut params, "pageSize", page);
        push_optional(&mut params, "pageToken", page_token);
        params
    }

    /// Describes a search of a seller's listings. A search that breaks one of
    /// the rules of [`search_rejection`] is refused with a validation error
    /// that names the first rule broken. Otherwise the identifier type, the
    /// severities, the statuses and the sort keys are written as `{:?}`
    /// writes them, and everything else as it is given.
    pub fn search_listings_items(
        seller_id: String,
        marketplace: CountryMarketplace,
        issue_locale: Option<String>,
        included_data: Option<Vec<String>>,
        identifiers: Option<Vec<String>>,
        identifiers_type: Option<String>,
        variation_parent_sku: Option<String>,
        package_hierarchy_sku: Option<String>,
        created_after: Option<String>,
        created_before: Option<String>,
        last_updated_after: Option<String>,
        last_updated_before: Option<String>,
        with_issue_severity: Option<Vec<String>>,
        with_status: Option<Vec<String>>,
        without_status: Option<Vec<String>>,
        sort_by: Option<String>,
        sort_order: Option<String>,
        page_size: Option<u32>,
        page_token: Option<String>,
    ) -> (r: Result<Operation, Errors>)
        ensures
            operation_view(r) == match search_rejection(
                identifiers.deep_view(),
                variation_parent_sku.deep_view(),
                package_hierarchy_sku.deep_view(),
                page_size,
            ) {
                Some(rejection) => Err(Errors::ValidationError(rejection)),
                None => Ok(
                    OperationView {
                        path: "/listings/2021-08-01/items/"@ + seller_id@,
                        method: Method::Get,
                        parameters: search_parameters(
                            seller_id@,
                            marketplace,
                            issue_locale.deep_view(),
                            included_data.deep_view(),
                            identifiers.deep_view(),
                            quoted(identifiers_type.deep_view()),
                            variation_parent_sku.deep_view(),
                            package_hierarchy_sku.deep_view(),
                            created_after.deep_view(),
                            created_before.deep_view(),
                            last_updated_after.deep_view(),
                            last_updated_before.deep_view(),
                            quoted_each(with_issue_severity.deep_view()),
                            quoted_each(with_status.deep_view()),
                            quoted_each(without_status.deep_view()),
                            quoted(sort_by.deep_view()),
                            quoted(sort_order.deep_view()),
                            page_size,
                            page_token.deep_view(),
                        ),
                        body: None,
                    },
                ),
            },
    {
        if identifiers.is_some() && (variation_parent_sku.is_some()
            || package_hierarchy_sku.is_some()) {
            return Err(Errors::ValidationError(Rejection::IdentifiersWithSkuFilter));
        }
        if variation_parent_sku.is_some() && package_hierarchy_sku.is_some() {
            return Err(Errors::ValidationError(Rejection::BothSkuFilters));
        }
        if let Some(ids) = &identifiers {
            if ids.len() > 20 {
                return Err(Errors::ValidationError(Rejection::TooManyIdentifiers));
            }
        }
        if let Some(size) = page_size {
            if size > 20 {
                return Err(Errors::ValidationError(Rejection::PageTooLarge));
            }
        }
        let path = String::from_str("/listings/2021-08-01/items/").concat(seller_id.as_str());
        let parameters = Listings::search_parameters(
            seller_id,
            marketplace,
            issue_locale,
            included_data,
            identifiers,
            quote(identifiers_type),
            variation_parent_sku,
            package_hierarchy_sku,
            created_after,
            created_before,
            last_updated_after,
            last_updated_before,
            quote_each(with_issue_severity),
            quote_each(with_status),
            quote_each(without_status),
            quote(sort_by),
            quote(sort_order),
            page_size,
            page_token,
        );
        Ok(Operation { path, method: Method::Get, parameters, body: None })
    }
}

} // verus!
