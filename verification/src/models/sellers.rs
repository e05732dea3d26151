use crate::general::Method;
use crate::parameters::{Operation, OperationView};
use vstd::prelude::*;

verus! {

pub struct Sellers;

impl Sellers {
    /// Describes the listing of the marketplaces the seller takes part in.
    pub fn get_marketplace_participations() -> (r: Operation)
        ensures
            r@ == (OperationView {
                path: "/sellers/v1/marketplaceParticipations"@,
                method: Method::Get,
                parameters: Seq::empty(),
                body: None,
            }),
    {
        let parameters: Vec<(String, String)> = Vec::new();
        assert(parameters.deep_view() =~= Seq::empty());
        Operation {
            path: String::from_str("/sellers/v1/marketplaceParticipations"),
            method: Method::Get,
            parameters,
            body: None,
        }
    }

    /// Describes the lookup of the seller's account.
    pub fn get_account() -> (r: Operation)
        ensures
            r@ == (OperationView {
                path: "/sellers/v1/account"@,
                method: Method::Get,
                parameters: Seq::empty(),
                body: None,
            }),
    {
        let parameters: Vec<(String, String)> = Vec::new();
        assert(parameters.deep_view() =~= Seq::empty());
        Operation {
            path: String::from_str("/sellers/v1/account"),
            method: Method::Get,
            parameters,
            body: None,
        }
    }
}

} // verus!
