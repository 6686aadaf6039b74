//! The key cache: projection, lookup, and swap-on-success refresh.

use mailgate::keys::{
    KeySet, KeyComponents, Modulus, Exponent, TenantKey, TenantKeysResponse, FetchErr,
};

fn key(kid: &str, n: &str, e: &str) -> KeyComponents {
    KeyComponents {
        modulus: Modulus(n.to_string()),
        exponent: Exponent(e.to_string()),
        kid: kid.to_string(),
    }
}

fn kids(set: &KeySet) -> Vec<String> {
    // read the set back through lookups by the kids the tests use
    let mut out = Vec::new();
    for kid in ["K1", "K2", "K3"] {
        if set.get_components(kid).is_some() {
            out.push(kid.to_string());
        }
    }
    out
}

#[test]
fn document_projects_to_components_in_order() {
    let response = TenantKeysResponse {
        keys: vec![
            TenantKey {
                alg: "RS256".to_string(),
                kty: "RSA".to_string(),
                key_use: "sig".to_string(),
                x5c: vec!["cert".to_string()],
                n: Modulus("n1".to_string()),
                e: Exponent("e1".to_string()),
                kid: "K1".to_string(),
                x5t: "t1".to_string(),
            },
            TenantKey {
                alg: "RS256".to_string(),
                kty: "RSA".to_string(),
                key_use: "sig".to_string(),
                x5c: vec![],
                n: Modulus("n2".to_string()),
                e: Exponent("e2".to_string()),
                kid: "K2".to_string(),
                x5t: "t2".to_string(),
            },
        ],
    };
    let components = response.into_components();
    assert_eq!(components.len(), 2);
    assert_eq!(components[0].kid, "K1");
    assert_eq!(components[0].modulus.0, "n1");
    assert_eq!(components[0].exponent.0, "e1");
    assert_eq!(components[1].kid, "K2");
    assert_eq!(components[1].modulus.0, "n2");
}

#[test]
fn lookup_finds_the_matching_key() {
    let set = KeySet::new(vec![key("K1", "n1", "e1"), key("K2", "n2", "e2")]);
    assert_eq!(set.len(), 2);
    let found = set.get_components("K2").unwrap();
    assert_eq!(found.modulus.0, "n2");
    assert_eq!(found.exponent.0, "e2");
    assert!(set.get_components("K3").is_none());
}

#[test]
fn refresh_swaps_the_whole_set() {
    let mut set = KeySet::new(vec![key("K1", "n1", "e1")]);
    let swapped = set.refetch_keys(Ok(vec![key("K2", "n2", "e2"), key("K3", "n3", "e3")]));
    assert!(swapped.is_ok());
    // old entries are discarded, not merged
    assert!(set.get_components("K1").is_none());
    assert!(set.get_components("K2").is_some());
    assert!(set.get_components("K3").is_some());
    assert_eq!(set.len(), 2);
}

#[test]
fn failed_refresh_keeps_the_previous_set() {
    let mut set = KeySet::new(vec![key("K1", "n1", "e1")]);
    let swapped = set.refetch_keys(Err(FetchErr::Network("unreachable".to_string())));
    assert!(swapped.is_err());
    assert!(set.get_components("K1").is_some());
    assert_eq!(set.len(), 1);
}

#[test]
fn refresh_twice_with_unchanged_remote_set_is_idempotent() {
    // the same fetched document leaves an observably identical set
    let fetched = || vec![key("K2", "n2", "e2"), key("K3", "n3", "e3")];
    let mut once = KeySet::new(vec![key("K1", "n1", "e1")]);
    once.refetch_keys(Ok(fetched())).unwrap();
    let mut twice = KeySet::new(vec![key("K1", "n1", "e1")]);
    twice.refetch_keys(Ok(fetched())).unwrap();
    twice.refetch_keys(Ok(fetched())).unwrap();
    assert_eq!(kids(&once), kids(&twice));
    assert_eq!(once.len(), twice.len());
    for kid in ["K2", "K3"] {
        let a = once.get_components(kid).unwrap();
        let b = twice.get_components(kid).unwrap();
        assert_eq!(a.modulus.0, b.modulus.0);
        assert_eq!(a.exponent.0, b.exponent.0);
    }
}
