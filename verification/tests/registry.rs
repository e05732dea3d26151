use amazon_sp_api::general::{CountryMarketplace, ENDPOINT_EU, ENDPOINT_FE, ENDPOINT_NA};

fn all() -> Vec<CountryMarketplace> {
    vec![
        CountryMarketplace::Canada,
        CountryMarketplace::UnitedStates,
        CountryMarketplace::Mexico,
        CountryMarketplace::Brazil,
        CountryMarketplace::Ireland,
        CountryMarketplace::Spain,
        CountryMarketplace::UnitedKingdom,
        CountryMarketplace::France,
        CountryMarketplace::Belgium,
        CountryMarketplace::Netherlands,
        CountryMarketplace::Germany,
        CountryMarketplace::Italy,
        CountryMarketplace::Sweden,
        CountryMarketplace::SouthAfrica,
        CountryMarketplace::Poland,
        CountryMarketplace::Egypt,
        CountryMarketplace::Turkey,
        CountryMarketplace::SaudiArabia,
        CountryMarketplace::UnitedArabEmirates,
        CountryMarketplace::India,
        CountryMarketplace::Singapore,
        CountryMarketplace::Australia,
        CountryMarketplace::Japan,
    ]
}

#[test]
fn every_marketplace_has_an_id_and_a_known_host() {
    let known = [ENDPOINT_NA, ENDPOINT_EU, ENDPOINT_FE];
    for m in all() {
        let (id, host) = m.details();
        assert!(!id.is_empty(), "{:?} has no id", m);
        assert!(known.contains(&host), "{:?} has host {}", m, host);
    }
}

#[test]
fn details_are_the_same_on_every_call() {
    for m in all() {
        assert_eq!(m.details(), m.details());
    }
}

#[test]
fn marketplace_ids_are_all_different() {
    let markets = all();
    for (i, a) in markets.iter().enumerate() {
        for b in markets.iter().skip(i + 1) {
            assert_ne!(a.details().0, b.details().0, "{:?} and {:?}", a, b);
        }
    }
}

#[test]
fn the_three_hosts_are_the_regional_endpoints() {
    assert_eq!(ENDPOINT_NA, "https://sellingpartnerapi-na.amazon.com");
    assert_eq!(ENDPOINT_EU, "https://sellingpartnerapi-eu.amazon.com");
    assert_eq!(ENDPOINT_FE, "https://sellingpartnerapi-fe.amazon.com");
}

#[test]
fn north_american_marketplaces() {
    assert_eq!(CountryMarketplace::Canada.details(), ("A2EUQ1WTGCTBG2", ENDPOINT_NA));
    assert_eq!(CountryMarketplace::UnitedStates.details(), ("ATVPDKIKX0DER", ENDPOINT_NA));
    assert_eq!(CountryMarketplace::Mexico.details(), ("A1AM78C64UM0Y8", ENDPOINT_NA));
    assert_eq!(CountryMarketplace::Brazil.details(), ("A2Q3Y263D00KWC", ENDPOINT_NA));
}

#[test]
fn european_marketplaces() {
    assert_eq!(CountryMarketplace::Ireland.details(), ("A28R8C7NBKEWEA", ENDPOINT_EU));
    assert_eq!(CountryMarketplace::Spain.details(), ("A1RKKUPIHCS9HS", ENDPOINT_EU));
    assert_eq!(CountryMarketplace::UnitedKingdom.details(), ("A1F83G8C2ARO7P", ENDPOINT_EU));
    assert_eq!(CountryMarketplace::France.details(), ("A13V1IB3VIYZZH", ENDPOINT_EU));
    assert_eq!(CountryMarketplace::Belgium.details(), ("AMEN7PMS3EDWL", ENDPOINT_EU));
    assert_eq!(CountryMarketplace::Netherlands.details(), ("A1805IZSGTT6HS", ENDPOINT_EU));
    assert_eq!(CountryMarketplace::Germany.details(), ("A1PA6795UKMFR9", ENDPOINT_EU));
    assert_eq!(CountryMarketplace::Italy.details(), ("APJ6JRA9NG5V4", ENDPOINT_EU));
    assert_eq!(CountryMarketplace::Sweden.details(), ("A2NODRKZP88ZB9", ENDPOINT_EU));
    assert_eq!(CountryMarketplace::SouthAfrica.details(), ("AE08WJ6YKNBMC", ENDPOINT_EU));
    assert_eq!(CountryMarketplace::Poland.details(), ("A1C3SOZRARQ6R3", ENDPOINT_EU));
    assert_eq!(CountryMarketplace::Egypt.details(), ("ARBP9OOSHTCHU", ENDPOINT_EU));
    assert_eq!(CountryMarketplace::Turkey.details(), ("A33AVAJ2PDY3EV", ENDPOINT_EU));
    assert_eq!(CountryMarketplace::SaudiArabia.details(), ("A17E79C6D8DWNP", ENDPOINT_EU));
    assert_eq!(CountryMarketplace::UnitedArabEmirates.details(), ("A2VIGQ35RCS4UG", ENDPOINT_EU));
    assert_eq!(CountryMarketplace::India.details(), ("A21TJRUUN4KGV", ENDPOINT_EU));
}

#[test]
fn far_eastern_marketplaces() {
    assert_eq!(CountryMarketplace::Singapore.details(), ("A19VAU5U5O7RUS", ENDPOINT_FE));
    assert_eq!(CountryMarketplace::Australia.details(), ("A39IBJ37TRP1C6", ENDPOINT_FE));
    assert_eq!(CountryMarketplace::Japan.details(), ("A1VC38T7YXB528", ENDPOINT_FE));
}
