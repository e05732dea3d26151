use crate::general::{CountryMarketplace, Method};
use crate::text::{join, joined, signed_decimal};
use vstd::prelude::*;

verus! {

/// One call of the service as an endpoint describes it: where it goes and
/// what it carries, before a session adds the token and the host.
#[derive(Clone, Debug, PartialEq, Eq)]
pub struct Operation {
    pub path: String,
    pub method: Method,
    pub parameters: Vec<(String, String)>,
    pub body: Option<Vec<u8>>,
}

/// [`Operation`] with the texts taken as their characters and the body as its
/// bytes.
pub struct OperationView {
    pub path: Seq<char>,
    pub method: Method,
    pub parameters: Seq<(Seq<char>, Seq<char>)>,
    pub body: Option<Seq<u8>>,
}

impl View for Operation {
    type V = OperationView;

    open spec fn view(&self) -> OperationView {
        OperationView {
            path: self.path@,
            method: self.method,
            parameters: self.parameters.deep_view(),
            body: match self.body {
                Some(bytes) => Some(bytes@),
                None => None,
            },
        }
    }
}

/// The parameter `key`, if a value is given for it.
pub open spec fn optional(key: Seq<char>, value: Option<Seq<char>>) -> Seq<(Seq<char>, Seq<char>)> {
    match value {
        Some(text) => seq![(key, text)],
        None => Seq::empty(),
    }
}

/// The items of a list written with commas between them, if there is a list.
pub open spec fn comma_list(items: Option<Seq<Seq<char>>>) -> Option<Seq<char>> {
    match items {
        Some(list) => Some(joined(list, ","@)),
        None => None,
    }
}

/// A number in decimal notation, if there is a number.
pub open spec fn decimal_of(n: Option<int>) -> Option<Seq<char>> {
    match n {
        Some(value) => Some(signed_decimal(value)),
        None => None,
    }
}

/// The identifiers of the marketplaces of a list, in its order.
pub open spec fn ids_of(marketplaces: Seq<CountryMarketplace>) -> Seq<Seq<char>> {
    marketplaces.map_values(|m: CountryMarketplace| m.marketplace_id())
}

/// Adds the parameter `key` with `value` behind those that are there.
pub fn push_param(parameters: &mut Vec<(String, String)>, key: &str, value: String)
    ensures
        final(parameters).deep_view() == old(parameters).deep_view().push((key@, value@)),
{
    parameters.push((String::from_str(key), value));
    assert(parameters.deep_view() =~= old(parameters).deep_view().push((key@, value@)));
}

/// Adds the parameter `key` where a value is given for it, and nothing
/// otherwise.
pub fn push_optional(parameters: &mut Vec<(String, String)>, key: &str, value: Option<String>)
    ensures
        final(parameters).deep_view() == old(parameters).deep_view() + optional(
            key@,
            value.deep_view(),
        ),
{
    match value {
        Some(text) => {
            push_param(parameters, key, text);
            assert(parameters.deep_view() =~= old(parameters).deep_view() + optional(
                key@,
                value.deep_view(),
            ));
        },
        None => {
            assert(parameters.deep_view() =~= old(parameters).deep_view() + optional(
                key@,
                value.deep_view(),
            ));
        },
    }
}

/// Writes the items of a list with commas between them, if there is a list.
pub fn comma_separated(items: &Option<Vec<String>>) -> (r: Option<String>)
    ensures
        r.deep_view() == comma_list(items.deep_view()),
{
    match items {
        Some(list) => Some(join(list, ",")),
        None => None,
    }
}

/// Collects the identifiers of the marketplaces of a list, in its order.
pub fn identifiers_of(marketplaces: &Vec<CountryMarketplace>) -> (r: Vec<String>)
    ensures
        r.deep_view() == ids_of(marketplaces@),
{
    let mut ids: Vec<String> = Vec::new();
    let mut i: usize = 0;
    while i < marketplaces.len()
        invariant
            i <= marketplaces.len(),
            ids.len() == i,
            forall|j: int| 0 <= j < i ==> (#[trigger] ids[j])@ == marketplaces[j].marketplace_id(),
        decreases marketplaces.len() - i,
    {
        ids.push(String::from_str(marketplaces[i].details().0));
        i = i + 1;
    }
    assert(ids.deep_view() =~= ids_of(marketplaces@));
    ids
}

} // verus!
