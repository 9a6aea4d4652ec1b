use conquest::territories::{neighbor_pairs, Continent, Territory};

#[test]
fn has_neighbors() {
    // Check if there are any territories without a neighbor
    for name in Territory::all() {
        let mut found = false;
        for (s, e) in neighbor_pairs().iter() {
            if *s == name || *e == name {
                found = true;
                break;
            }
        }
        assert!(found, "Territory {:?} had no neighbor", name);
    }
}

#[test]
fn check_neighbors() {
    // Check if there are any connections which are in both directions
    let pairs = neighbor_pairs();
    for (idx, (s, e)) in pairs[..pairs.len() - 1].iter().enumerate() {
        for (idx2, (s2, e2)) in pairs[(idx + 1)..].iter().enumerate() {
            let is_equal = (*s2 == *s && *e2 == *e) || (*s2 == *e && *e2 == *s);
            assert!(
                !is_equal,
                "Connection between s={:?} and e={:?} (s2={:?}, e2={:?}) exists at least twice (idx {} and {})",
                s,
                e,
                s2,
                e2,
                idx,
                idx + idx2 + 1
            );
        }
    }
}

#[test]
fn adjacency_is_symmetric() {
    for a in Territory::all() {
        for b in Territory::all() {
            assert_eq!(a.neighboring(b), b.neighboring(a));
        }
    }
}

#[test]
fn no_territory_neighbors_itself() {
    for t in Territory::all() {
        assert!(!t.neighboring(t));
    }
}

#[test]
fn neighbors_match_neighboring() {
    for a in Territory::all() {
        let nb = a.neighbors();
        assert!(!nb.is_empty());
        for b in Territory::all() {
            assert_eq!(nb.contains(&b), a.neighboring(b));
        }
    }
}

#[test]
fn known_adjacencies() {
    assert!(Territory::Alaska.neighboring(Territory::Kamchatka));
    assert!(Territory::Brazil.neighboring(Territory::NorthAfrica));
    assert!(Territory::EastAfrica.neighboring(Territory::MiddleEast));
    assert!(!Territory::Alaska.neighboring(Territory::Japan));
    assert!(!Territory::Argentina.neighboring(Territory::NorthAfrica));
}

#[test]
fn continents_of_known_territories() {
    assert_eq!(Territory::Alaska.continent(), Continent::NorthAmerica);
    assert_eq!(Territory::Brazil.continent(), Continent::SouthAmerica);
    assert_eq!(Territory::Ukraine.continent(), Continent::Europe);
    assert_eq!(Territory::Congo.continent(), Continent::Africa);
    assert_eq!(Territory::Japan.continent(), Continent::Asia);
    assert_eq!(Territory::NewGuinea.continent(), Continent::Oceania);
}

#[test]
fn index_roundtrip() {
    let all = Territory::all();
    assert_eq!(all.len(), 42);
    for (i, t) in all.iter().enumerate() {
        assert_eq!(t.index(), i);
        assert_eq!(Territory::from_index(i), *t);
    }
}
