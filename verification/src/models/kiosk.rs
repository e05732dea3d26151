use crate::general::Method;
use crate::parameters::{optional, push_optional, push_param, Operation, OperationView};
use crate::text::{decimal, join, joined, unsigned_to_string};
use vstd::prelude::*;

verus! {

pub struct Kiosk;

/// The stages a Data Kiosk query can be in.
#[derive(Clone, Copy, Debug, PartialEq, Eq, Structural)]
pub enum ProcessingStatuses {
    CANCELLED,
    DONE,
    FATAL,
    InProgress,
    InQueue,
}

impl ProcessingStatuses {
    /// The stage as it is written in a filter.
    pub open spec fn name(self) -> Seq<char> {
        match self {
            ProcessingStatuses::CANCELLED => "CANCELLED"@,
            ProcessingStatuses::DONE => "DONE"@,
            ProcessingStatuses::FATAL => "FATAL"@,
            ProcessingStatuses::InProgress => "InProgress"@,
            ProcessingStatuses::InQueue => "InQueue"@,
        }
    }

    pub fn to_string(&self) -> (r: String)
        ensures
            r@ == self.name(),
    {
        match self {
            ProcessingStatuses::CANCELLED => String::from_str("CANCELLED"),
            ProcessingStatuses::DONE => String::from_str("DONE"),
            ProcessingStatuses::FATAL => String::from_str("FATAL"),
            ProcessingStatuses::InProgress => String::from_str("InProgress"),
            ProcessingStatuses::InQueue => String::from_str("InQueue"),
        }
    }
}

/// The stages of a list written one after another with nothing between
/// them, if there is a list.
pub open spec fn stages(statuses: Option<Seq<ProcessingStatuses>>) -> Option<Seq<char>> {
    match statuses {
        Some(list) => Some(
            joined(list.map_values(|s: ProcessingStatuses| s.name()), Seq::empty()),
        ),
        None => None,
    }
}

/// The page size in decimal notation, if there is one.
pub open spec fn page(page_size: Option<u64>) -> Option<Seq<char>> {
    match page_size {
        Some(n) => Some(decimal(n as nat)),
        None => None,
    }
}

/// The stages of a list, if there is one.
pub open spec fn statuses_view(statuses: Option<Vec<ProcessingStatuses>>) -> Option<
    Seq<ProcessingStatuses>,
> {
    match statuses {
        Some(list) => Some(list@),
        None => None,
    }
}

impl Kiosk {
    /// Describes the listing of the queries that match the filters given.
    pub fn get_queries(
        processing_status: Option<Vec<ProcessingStatuses>>,
        page_size: Option<u64>,
        created_since: Option<String>,
        created_until: Option<String>,
        pagination_token: Option<String>,
    ) -> (r: Operation)
        ensures
            r@ == (OperationView {
                path: "/dataKiosk/2023-11-15/queries"@,
                method: Method::Get,
                parameters: optional("processingStatuses"@, stages(statuses_view(processing_status)))
                    + optional("pageSize"@, page(page_size)) + optional(
                    "createdSince"@,
                    created_since.deep_view(),
                ) + optional("createdUntil"@, created_until.deep_view()) + optional(
                    "paginationToken"@,
                    pagination_token.deep_view(),
                ),
                body: None,
            }),
    {
        let written = match &processing_status {
            Some(list) => {
                let mut names: Vec<String> = Vec::new();
                let mut i: usize = 0;
                while i < list.len()
                    invariant
                        i <= list.len(),
                        names.len() == i,
                        forall|j: int| 0 <= j < i ==> (#[trigger] names[j])@ == list[j].name(),
                    decreases list.len() - i,
                {
                    names.push(list[i].to_string());
                    i = i + 1;
                }
                proof {
                    reveal_strlit("");
                    assert(""@ =~= Seq::<char>::empty());
                    assert(names.deep_view() =~= list@.map_values(
                        |s: ProcessingStatuses| s.name(),
                    ));
                }
                Some(join(&names, ""))
            },
            None => None,
        };
        let size = match page_size {
            Some(n) => Some(unsigned_to_string(n)),
            None => None,
        };
        let mut parameters: Vec<(String, String)> = Vec::new();
        assert(parameters.deep_view() =~= Seq::empty());
        push_optional(&mut parameters, "processingStatuses", written);
        assert(parameters.deep_view() =~= optional(
            "processingStatuses"@,
            stages(statuses_view(processing_status)),
        ));
        push_optional(&mut parameters, "pageSize", size);
        push_optional(&mut parameters, "createdSince", created_since);
        push_optional(&mut parameters, "createdUntil", created_until);
        push_optional(&mut parameters, "paginationToken", pagination_token);
        Operation {
            path: String::from_str("/dataKiosk/2023-11-15/queries"),
            method: Method::Get,
            parameters,
            body: None,
        }
    }

    /// Describes the creation of a query. The query specification travels as
    /// the parameter `body`.
    pub fn create_query(body: String) -> (r: Operation)
        ensures
            r@ == (OperationView {
                path: "/dataKiosk/2023-11-15/queries"@,
                method: Method::Post,
                parameters: seq![("body"@, body@)],
                body: None,
            }),
    {
        let mut parameters: Vec<(String, String)> = Vec::new();
        push_param(&mut parameters, "body", body);
        assert(parameters.deep_view() =~= seq![("body"@, body@)]);
        Operation {
            path: String::from_str("/dataKiosk/2023-11-15/queries"),
            method: Method::Post,
            parameters,
            body: None,
        }
    }

    /// Describes the lookup of one query.
    pub fn get_query(query_id: String) -> (r: Operation)
        ensures
            r@ == (OperationView {
                path: "/dataKiosk/2023-11-15/queries/"@ + query_id@,
                method: Method::Get,
                parameters: Seq::empty(),
                body: None,
            }),
    {
        let parameters: Vec<(String, String)> = Vec::new();
        assert(parameters.deep_view() =~= Seq::empty());
        Operation {
            path: String::from_str("/dataKiosk/2023-11-15/queries/").concat(query_id.as_str()),
            method: Method::Get,
            parameters,
            body: None,
        }
    }

    /// Describes the cancellation of one query.
    pub fn cancel_query(query_id: String) -> (r: Operation)
        ensures
            r@ == (OperationView {
                path: "/dataKiosk/2023-11-15/queries/"@ + query_id@,
                method: Method::Delete,
                parameters: Seq::empty(),
                body: None,
            }),
    {
        let parameters: Vec<(String, String)> = Vec::new();
        assert(parameters.deep_view() =~= Seq::empty());
        Operation {
            path: String::from_str("/dataKiosk/2023-11-15/queries/").concat(query_id.as_str()),
            method: Method::Delete,
            parameters,
            body: None,
        }
    }

    /// Describes the lookup of what is needed to fetch one document.
    pub fn get_document(document_id: String) -> (r: Operation)
        ensures
            r@ == (OperationView {
                path: "/dataKiosk/2023-11-15/documents/"@ + document_id@,
                method: Method::Get,
                parameters: Seq::empty(),
                body: None,
            }),
    {
        let parameters: Vec<(String, String)> = Vec::new();
        assert(parameters.deep_view() =~= Seq::empty());
        Operation {
            path: String::from_str("/dataKiosk/2023-11-15/documents/").concat(
                document_id.as_str(),
            ),
            method: Method::Get,
            parameters,
            body: None,
        }
    }
}

} // verus!
