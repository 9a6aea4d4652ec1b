use vstd::prelude::*;

verus! {

/// The number of territories on the board.
pub const TERRITORY_COUNT: usize = 42;

/// One of the 42 fixed territories on the board. Territories are never
/// created or destroyed at runtime; each belongs to exactly one continent
/// and has a fixed, symmetric set of neighboring territories.
#[derive(Debug, Clone, Copy, PartialEq, Eq, Structural)]
pub enum Territory {
    Alaska,
    NorthwestTerritory,
    Greenland,
    Alberta,
    Ontario,
    Quebec,
    WesternUnitedStates,
    EasternUnitedStates,
    CentralAmerica,
    Venezuela,
    Peru,
    Brazil,
    Argentina,
    Iceland,
    Scandinavia,
    Ukraine,
    GreatBritain,
    NorthernEurope,
    WesternEurope,
    SouthernEurope,
    NorthAfrica,
    Egypt,
    EastAfrica,
    Congo,
    SouthAfrica,
    Madagascar,
    Ural,
    Siberia,
    Yakutsk,
    Kamchatka,
    Irkutsk,
    Mongolia,
    China,
    Afghanistan,
    MiddleEast,
    India,
    Siam,
    Indonesia,
    NewGuinea,
    WesternAustralia,
    EasternAustralia,
    Japan,
}

/// One of the 6 continents. Fully controlling a continent grants its
/// owner a fixed reinforcement bonus each turn.
#[derive(Debug, Clone, Copy, PartialEq, Eq, Structural)]
pub enum Continent {
    NorthAmerica,
    SouthAmerica,
    Europe,
    Asia,
    Africa,
    Oceania,
}

impl Territory {
    /// The fixed position of this territory in index order, in `0..42`.
    pub open spec fn spec_index(self) -> int {
        match self {
            Territory::Alaska => 0,
            Territory::NorthwestTerritory => 1,
            Territory::Greenland => 2,
            Territory::Alberta => 3,
            Territory::Ontario => 4,
            Territory::Quebec => 5,
            Territory::WesternUnitedStates => 6,
            Territory::EasternUnitedStates => 7,
            Territory::CentralAmerica => 8,
            Territory::Venezuela => 9,
            Territory::Peru => 10,
            Territory::Brazil => 11,
            Territory::Argentina => 12,
            Territory::Iceland => 13,
            Territory::Scandinavia => 14,
            Territory::Ukraine => 15,
            Territory::GreatBritain => 16,
            Territory::NorthernEurope => 17,
            Territory::WesternEurope => 18,
            Territory::SouthernEurope => 19,
            Territory::NorthAfrica => 20,
            Territory::Egypt => 21,
            Territory::EastAfrica => 22,
            Territory::Congo => 23,
            Territory::SouthAfrica => 24,
            Territory::Madagascar => 25,
            Territory::Ural => 26,
            Territory::Siberia => 27,
            Territory::Yakutsk => 28,
            Territory::Kamchatka => 29,
            Territory::Irkutsk => 30,
            Territory::Mongolia => 31,
            Territory::China => 32,
            Territory::Afghanistan => 33,
            Territory::MiddleEast => 34,
            Territory::India => 35,
            Territory::Siam => 36,
            Territory::Indonesia => 37,
            Territory::NewGuinea => 38,
            Territory::WesternAustralia => 39,
            Territory::EasternAustralia => 40,
            Territory::Japan => 41,
        }
    }

    pub fn index(self) -> (i: usize)
        ensures
            i == self.spec_index(),
            i < 42,
    {
        match self {
            Territory::Alaska => 0,
            Territory::NorthwestTerritory => 1,
            Territory::Greenland => 2,
            Territory::Alberta => 3,
            Territory::Ontario => 4,
            Territory::Quebec => 5,
            Territory::WesternUnitedStates => 6,
            Territory::EasternUnitedStates => 7,
            Territory::CentralAmerica => 8,
            Territory::Venezuela => 9,
            Territory::Peru => 10,
            Territory::Brazil => 11,
            Territory::Argentina => 12,
            Territory::Iceland => 13,
            Territory::Scandinavia => 14,
            Territory::Ukraine => 15,
            Territory::GreatBritain => 16,
            Territory::NorthernEurope => 17,
            Territory::WesternEurope => 18,
            Territory::SouthernEurope => 19,
            Territory::NorthAfrica => 20,
            Territory::Egypt => 21,
            Territory::EastAfrica => 22,
            Territory::Congo => 23,
            Territory::SouthAfrica => 24,
            Territory::Madagascar => 25,
            Territory::Ural => 26,
            Territory::Siberia => 27,
            Territory::Yakutsk => 28,
            Territory::Kamchatka => 29,
            Territory::Irkutsk => 30,
            Territory::Mongolia => 31,
            Territory::China => 32,
            Territory::Afghanistan => 33,
            Territory::MiddleEast => 34,
            Territory::India => 35,
            Territory::Siam => 36,
            Territory::Indonesia => 37,
            Territory::NewGuinea => 38,
            Territory::WesternAustralia => 39,
            Territory::EasternAustralia => 40,
            Territory::Japan => 41,
        }
    }

    /// The territory standing at a given position in index order.
    pub fn from_index(i: usize) -> (t: Territory)
        requires
            i < 42,
        ensures
            t.spec_index() == i,
    {
        match i {
            0 => Territory::Alaska,
            1 => Territory::NorthwestTerritory,
            2 => Territory::Greenland,
            3 => Territory::Alberta,
            4 => Territory::Ontario,
            5 => Territory::Quebec,
            6 => Territory::WesternUnitedStates,
            7 => Territory::EasternUnitedStates,
            8 => Territory::CentralAmerica,
            9 => Territory::Venezuela,
            10 => Territory::Peru,
            11 => Territory::Brazil,
            12 => Territory::Argentina,
            13 => Territory::Iceland,
            14 => Territory::Scandinavia,
            15 => Territory::Ukraine,
            16 => Territory::GreatBritain,
            17 => Territory::NorthernEurope,
            18 => Territory::WesternEurope,
            19 => Territory::SouthernEurope,
            20 => Territory::NorthAfrica,
            21 => Territory::Egypt,
            22 => Territory::EastAfrica,
            23 => Territory::Congo,
            24 => Territory::SouthAfrica,
            25 => Territory::Madagascar,
            26 => Territory::Ural,
            27 => Territory::Siberia,
            28 => Territory::Yakutsk,
            29 => Territory::Kamchatka,
            30 => Territory::Irkutsk,
            31 => Territory::Mongolia,
            32 => Territory::China,
            33 => Territory::Afghanistan,
            34 => Territory::MiddleEast,
            35 => Territory::India,
            36 => Territory::Siam,
            37 => Territory::Indonesia,
            38 => Territory::NewGuinea,
            39 => Territory::WesternAustralia,
            40 => Territory::EasternAustralia,
            _ => Territory::Japan,
        }
    }

    pub open spec fn spec_continent(self) -> Continent {
        match self {
            Territory::Alaska => Continent::NorthAmerica,
            Territory::NorthwestTerritory => Continent::NorthAmerica,
            Territory::Greenland => Continent::NorthAmerica,
            Territory::Alberta => Continent::NorthAmerica,
            Territory::Ontario => Continent::NorthAmerica,
            Territory::Quebec => Continent::NorthAmerica,
            Territory::WesternUnitedStates => Continent::NorthAmerica,
            Territory::EasternUnitedStates => Continent::NorthAmerica,
            Territory::CentralAmerica => Continent::NorthAmerica,
            Territory::Venezuela => Continent::SouthAmerica,
            Territory::Peru => Continent::SouthAmerica,
            Territory::Brazil => Continent::SouthAmerica,
            Territory::Argentina => Continent::SouthAmerica,
            Territory::Iceland => Continent::Europe,
            Territory::Scandinavia => Continent::Europe,
            Territory::Ukraine => Continent::Europe,
            Territory::GreatBritain => Continent::Europe,
            Territory::NorthernEurope => Continent::Europe,
            Territory::WesternEurope => Continent::Europe,
            Territory::SouthernEurope => Continent::Europe,
            Territory::NorthAfrica => Continent::Africa,
            Territory::Egypt => Continent::Africa,
            Territory::EastAfrica => Continent::Africa,
            Territory::Congo => Continent::Africa,
            Territory::SouthAfrica => Continent::Africa,
            Territory::Madagascar => Continent::Africa,
            Territory::Ural => Continent::Asia,
            Territory::Siberia => Continent::Asia,
            Territory::Yakutsk => Continent::Asia,
            Territory::Kamchatka => Continent::Asia,
            Territory::Irkutsk => Continent::Asia,
            Territory::Mongolia => Continent::Asia,
            Territory::China => Continent::Asia,
            Territory::Afghanistan => Continent::Asia,
            Territory::MiddleEast => Continent::Asia,
            Territory::India => Continent::Asia,
            Territory::Siam => Continent::Asia,
            Territory::Indonesia => Continent::Oceania,
            Territory::NewGuinea => Continent::Oceania,
            Territory::WesternAustralia => Continent::Oceania,
            Territory::EasternAustralia => Continent::Oceania,
            Territory::Japan => Continent::Asia,
        }
    }

    /// The continent this territory belongs to.
    pub fn continent(self) -> (c: Continent)
        ensures
            c == self.spec_continent(),
    {
        match self {
            Territory::Alaska => Continent::NorthAmerica,
            Territory::NorthwestTerritory => Continent::NorthAmerica,
            Territory::Greenland => Continent::NorthAmerica,
            Territory::Alberta => Continent::NorthAmerica,
            Territory::Ontario => Continent::NorthAmerica,
            Territory::Quebec => Continent::NorthAmerica,
            Territory::WesternUnitedStates => Continent::NorthAmerica,
            Territory::EasternUnitedStates => Continent::NorthAmerica,
            Territory::CentralAmerica => Continent::NorthAmerica,
            Territory::Venezuela => Continent::SouthAmerica,
            Territory::Peru => Continent::SouthAmerica,
            Territory::Brazil => Continent::SouthAmerica,
            Territory::Argentina => Continent::SouthAmerica,
            Territory::Iceland => Continent::Europe,
            Territory::Scandinavia => Continent::Europe,
            Territory::Ukraine => Continent::Europe,
            Territory::GreatBritain => Continent::Europe,
            Territory::NorthernEurope => Continent::Europe,
            Territory::WesternEurope => Continent::Europe,
            Territory::SouthernEurope => Continent::Europe,
            Territory::NorthAfrica => Continent::Africa,
            Territory::Egypt => Continent::Africa,
            Territory::EastAfrica => Continent::Africa,
            Territory::Congo => Continent::Africa,
            Territory::SouthAfrica => Continent::Africa,
            Territory::Madagascar => Continent::Africa,
            Territory::Ural => Continent::Asia,
            Territory::Siberia => Continent::Asia,
            Territory::Yakutsk => Continent::Asia,
            Territory::Kamchatka => Continent::Asia,
            Territory::Irkutsk => Continent::Asia,
            Territory::Mongolia => Continent::Asia,
            Territory::China => Continent::Asia,
            Territory::Afghanistan => Continent::Asia,
            Territory::MiddleEast => Continent::Asia,
            Territory::India => Continent::Asia,
            Territory::Siam => Continent::Asia,
            Territory::Indonesia => Continent::Oceania,
            Territory::NewGuinea => Continent::Oceania,
            Territory::WesternAustralia => Continent::Oceania,
            Territory::EasternAustralia => Continent::Oceania,
            Territory::Japan => Continent::Asia,
        }
    }

    /// All 42 territories, in index order.
    pub fn all() -> (v: Vec<Territory>)
        ensures
            v@.len() == 42,
            forall|k: int| 0 <= k < 42 ==> (#[trigger] v@[k].spec_index()) == k,
    {
        let mut v: Vec<Territory> = Vec::new();
        v.push(Territory::Alaska);
        v.push(Territory::NorthwestTerritory);
        v.push(Territory::Greenland);
        v.push(Territory::Alberta);
        v.push(Territory::Ontario);
        v.push(Territory::Quebec);
        v.push(Territory::WesternUnitedStates);
        v.push(Territory::EasternUnitedStates);
        v.push(Territory::CentralAmerica);
        v.push(Territory::Venezuela);
        v.push(Territory::Peru);
        v.push(Territory::Brazil);
        v.push(Territory::Argentina);
        v.push(Territory::Iceland);
        v.push(Territory::Scandinavia);
        v.push(Territory::Ukraine);
        v.push(Territory::GreatBritain);
        v.push(Territory::NorthernEurope);
        v.push(Territory::WesternEurope);
        v.push(Territory::SouthernEurope);
        v.push(Territory::NorthAfrica);
        v.push(Territory::Egypt);
        v.push(Territory::EastAfrica);
        v.push(Territory::Congo);
        v.push(Territory::SouthAfrica);
        v.push(Territory::Madagascar);
        v.push(Territory::Ural);
        v.push(Territory::Siberia);
        v.push(Territory::Yakutsk);
        v.push(Territory::Kamchatka);
        v.push(Territory::Irkutsk);
        v.push(Territory::Mongolia);
        v.push(Territory::China);
        v.push(Territory::Afghanistan);
        v.push(Territory::MiddleEast);
        v.push(Territory::India);
        v.push(Territory::Siam);
        v.push(Territory::Indonesia);
        v.push(Territory::NewGuinea);
        v.push(Territory::WesternAustralia);
        v.push(Territory::EasternAustralia);
        v.push(Territory::Japan);
        v
    }

    /// Every territory this one shares a border with.
    pub fn neighbors(self) -> (v: Vec<Territory>)
        ensures
            forall|b: Territory| #[trigger] v@.contains(b) <==> spec_adjacent(self, b),
    {
        let pairs = neighbor_pairs();
        let mut v: Vec<Territory> = Vec::new();
        let mut k: usize = 0;
        while k < pairs.len()
            invariant
                pairs@ == spec_pairs(),
                k <= pairs@.len(),
                forall|b: Territory| #[trigger] v@.contains(b) <==> exists|i: int|
                    0 <= i < k && (spec_pairs()[i] == (self, b) || spec_pairs()[i] == (b, self)),
            decreases pairs@.len() - k,
        {
            let ghost v0 = v@;
            let (start, end) = pairs[k];
            if start == self {
                proof {
                    crate::seq_facts::lemma_push_contains(v@, end);
                }
                v.push(end);
            }
            if end == self {
                proof {
                    crate::seq_facts::lemma_push_contains(v@, start);
                }
                v.push(start);
            }
            proof {
                assert(spec_pairs()[k as int] == (start, end));
                assert forall|b: Territory| #[trigger] v@.contains(b) implies exists|i: int|
                    0 <= i < k + 1 && (spec_pairs()[i] == (self, b) || spec_pairs()[i] == (b, self)) by {
                    if v0.contains(b) {
                        let i = choose|i: int|
                            0 <= i < k && (spec_pairs()[i] == (self, b) || spec_pairs()[i] == (b, self));
                        assert(0 <= i < k + 1
                            && (spec_pairs()[i] == (self, b) || spec_pairs()[i] == (b, self)));
                    } else {
                        assert(spec_pairs()[k as int] == (self, b) || spec_pairs()[k as int] == (b, self));
                    }
                }
                assert forall|b: Territory| (exists|i: int|
                    0 <= i < k + 1 && (spec_pairs()[i] == (self, b) || spec_pairs()[i] == (b, self)))
                    implies #[trigger] v@.contains(b) by {
                    let i = choose|i: int|
                        0 <= i < k + 1 && (spec_pairs()[i] == (self, b) || spec_pairs()[i] == (b, self));
                    if i < k {
                        assert(v0.contains(b));
                    }
                }
            }
            k = k + 1;
        }
        v
    }

    /// Whether this territory shares a border with `neighbor`.
    pub fn neighboring(self, neighbor: Territory) -> (r: bool)
        ensures
            r == spec_adjacent(self, neighbor),
    {
        let pairs = neighbor_pairs();
        let mut k: usize = 0;
        while k < pairs.len()
            invariant
                pairs@ == spec_pairs(),
                k <= pairs@.len(),
                forall|i: int| 0 <= i < k ==> !(spec_pairs()[i] == (self, neighbor)
                    || spec_pairs()[i] == (neighbor, self)),
            decreases pairs@.len() - k,
        {
            let (start, end) = pairs[k];
            if (start == self && end == neighbor) || (start == neighbor && end == self) {
                assert(spec_pairs()[k as int] == (self, neighbor) || spec_pairs()[k as int] == (neighbor, self));
                return true;
            }
            k = k + 1;
        }
        false
    }
}

/// The undirected adjacency edges of the territory graph, each unordered
/// pair listed exactly once, ordered by the two endpoint indices.
pub open spec fn spec_pairs() -> Seq<(Territory, Territory)> {
    seq![
        (Territory::Alaska, Territory::NorthwestTerritory),
        (Territory::Alaska, Territory::Alberta),
        (Territory::Alaska, Territory::Kamchatka),
        (Territory::NorthwestTerritory, Territory::Greenland),
        (Territory::NorthwestTerritory, Territory::Alberta),
        (Territory::NorthwestTerritory, Territory::Ontario),
        (Territory::Greenland, Territory::Ontario),
        (Territory::Greenland, Territory::Quebec),
        (Territory::Greenland, Territory::Iceland),
        (Territory::Alberta, Territory::Ontario),
        (Territory::Alberta, Territory::WesternUnitedStates),
        (Territory::Ontario, Territory::Quebec),
        (Territory::Ontario, Territory::WesternUnitedStates),
        (Territory::Ontario, Territory::EasternUnitedStates),
        (Territory::Quebec, Territory::EasternUnitedStates),
        (Territory::WesternUnitedStates, Territory::EasternUnitedStates),
        (Territory::WesternUnitedStates, Territory::CentralAmerica),
        (Territory::EasternUnitedStates, Territory::CentralAmerica),
        (Territory::CentralAmerica, Territory::Venezuela),
        (Territory::Venezuela, Territory::Peru),
        (Territory::Venezuela, Territory::Brazil),
        (Territory::Peru, Territory::Brazil),
        (Territory::Peru, Territory::Argentina),
        (Territory::Brazil, Territory::Argentina),
        (Territory::Brazil, Territory::NorthAfrica),
        (Territory::Iceland, Territory::Scandinavia),
        (Territory::Iceland, Territory::GreatBritain),
        (Territory::Scandinavia, Territory::Ukraine),
        (Territory::Scandinavia, Territory::GreatBritain),
        (Territory::Scandinavia, Territory::NorthernEurope),
        (Territory::Ukraine, Territory::NorthernEurope),
        (Territory::Ukraine, Territory::SouthernEurope),
        (Territory::Ukraine, Territory::Ural),
        (Territory::Ukraine, Territory::Afghanistan),
        (Territory::Ukraine, Territory::MiddleEast),
        (Territory::GreatBritain, Territory::NorthernEurope),
        (Territory::GreatBritain, Territory::WesternEurope),
        (Territory::NorthernEurope, Territory::WesternEurope),
        (Territory::NorthernEurope, Territory::SouthernEurope),
        (Territory::WesternEurope, Territory::SouthernEurope),
        (Territory::WesternEurope, Territory::NorthAfrica),
        (Territory::SouthernEurope, Territory::NorthAfrica),
        (Territory::SouthernEurope, Territory::Egypt),
        (Territory::SouthernEurope, Territory::MiddleEast),
        (Territory::NorthAfrica, Territory::Egypt),
        (Territory::NorthAfrica, Territory::EastAfrica),
        (Territory::NorthAfrica, Territory::Congo),
        (Territory::Egypt, Territory::EastAfrica),
        (Territory::Egypt, Territory::MiddleEast),
        (Territory::EastAfrica, Territory::Congo),
        (Territory::EastAfrica, Territory::SouthAfrica),
        (Territory::EastAfrica, Territory::Madagascar),
        (Territory::EastAfrica, Territory::MiddleEast),
        (Territory::Congo, Territory::SouthAfrica),
        (Territory::SouthAfrica, Territory::Madagascar),
        (Territory::Ural, Territory::Siberia),
        (Territory::Ural, Territory::China),
        (Territory::Ural, Territory::Afghanistan),
        (Territory::Siberia, Territory::Yakutsk),
        (Territory::Siberia, Territory::Irkutsk),
        (Territory::Siberia, Territory::Mongolia),
        (Territory::Siberia, Territory::China),
        (Territory::Yakutsk, Territory::Kamchatka),
        (Territory::Yakutsk, Territory::Irkutsk),
        (Territory::Kamchatka, Territory::Irkutsk),
        (Territory::Kamchatka, Territory::Mongolia),
        (Territory::Kamchatka, Territory::Japan),
        (Territory::Irkutsk, Territory::Mongolia),
        (Territory::Mongolia, Territory::China),
        (Territory::Mongolia, Territory::Japan),
        (Territory::China, Territory::Afghanistan),
        (Territory::China, Territory::India),
        (Territory::China, Territory::Siam),
        (Territory::Afghanistan, Territory::MiddleEast),
        (Territory::Afghanistan, Territory::India),
        (Territory::MiddleEast, Territory::India),
        (Territory::India, Territory::Siam),
        (Territory::Siam, Territory::Indonesia),
        (Territory::Indonesia, Territory::NewGuinea),
        (Territory::Indonesia, Territory::WesternAustralia),
        (Territory::NewGuinea, Territory::WesternAustralia),
        (Territory::NewGuinea, Territory::EasternAustralia),
        (Territory::WesternAustralia, Territory::EasternAustralia),
    ]
}

/// Whether two territories share a border: some edge joins them, in
/// either orientation. Symmetric by construction.
pub open spec fn spec_adjacent(a: Territory, b: Territory) -> bool {
    exists|i: int|
        0 <= i < spec_pairs().len() && (spec_pairs()[i] == (a, b) || spec_pairs()[i] == (b, a))
}

/// The adjacency edges as a vector, for iteration in executable code.
#[verifier::rlimit(100)]
pub fn neighbor_pairs() -> (v: Vec<(Territory, Territory)>)
    ensures
        v@ == spec_pairs(),
{
    let mut v: Vec<(Territory, Territory)> = Vec::new();
    v.push((Territory::Alaska, Territory::NorthwestTerritory));
    v.push((Territory::Alaska, Territory::Alberta));
    v.push((Territory::Alaska, Territory::Kamchatka));
    v.push((Territory::NorthwestTerritory, Territory::Greenland));
    v.push((Territory::NorthwestTerritory, Territory::Alberta));
    v.push((Territory::NorthwestTerritory, Territory::Ontario));
    v.push((Territory::Greenland, Territory::Ontario));
    v.push((Territory::Greenland, Territory::Quebec));
    v.push((Territory::Greenland, Territory::Iceland));
    v.push((Territory::Alberta, Territory::Ontario));
    v.push((Territory::Alberta, Territory::WesternUnitedStates));
    v.push((Territory::Ontario, Territory::Quebec));
    v.push((Territory::Ontario, Territory::WesternUnitedStates));
    v.push((Territory::Ontario, Territory::EasternUnitedStates));
    v.push((Territory::Quebec, Territory::EasternUnitedStates));
    v.push((Territory::WesternUnitedStates, Territory::EasternUnitedStates));
    v.push((Territory::WesternUnitedStates, Territory::CentralAmerica));
    v.push((Territory::EasternUnitedStates, Territory::CentralAmerica));
    v.push((Territory::CentralAmerica, Territory::Venezuela));
    v.push((Territory::Venezuela, Territory::Peru));
    v.push((Territory::Venezuela, Territory::Brazil));
    v.push((Territory::Peru, Territory::Brazil));
    v.push((Territory::Peru, Territory::Argentina));
    v.push((Territory::Brazil, Territory::Argentina));
    v.push((Territory::Brazil, Territory::NorthAfrica));
    v.push((Territory::Iceland, Territory::Scandinavia));
    v.push((Territory::Iceland, Territory::GreatBritain));
    v.push((Territory::Scandinavia, Territory::Ukraine));
    v.push((Territory::Scandinavia, Territory::GreatBritain));
    v.push((Territory::Scandinavia, Territory::NorthernEurope));
    v.push((Territory::Ukraine, Territory::NorthernEurope));
    v.push((Territory::Ukraine, Territory::SouthernEurope));
    v.push((Territory::Ukraine, Territory::Ural));
    v.push((Territory::Ukraine, Territory::Afghanistan));
    v.push((Territory::Ukraine, Territory::MiddleEast));
    v.push((Territory::GreatBritain, Territory::NorthernEurope));
    v.push((Territory::GreatBritain, Territory::WesternEurope));
    v.push((Territory::NorthernEurope, Territory::WesternEurope));
    v.push((Territory::NorthernEurope, Territory::SouthernEurope));
    v.push((Territory::WesternEurope, Territory::SouthernEurope));
    v.push((Territory::WesternEurope, Territory::NorthAfrica));
    v.push((Territory::SouthernEurope, Territory::NorthAfrica));
    v.push((Territory::SouthernEurope, Territory::Egypt));
    v.push((Territory::SouthernEurope, Territory::MiddleEast));
    v.push((Territory::NorthAfrica, Territory::Egypt));
    v.push((Territory::NorthAfrica, Territory::EastAfrica));
    v.push((Territory::NorthAfrica, Territory::Congo));
    v.push((Territory::Egypt, Territory::EastAfrica));
    v.push((Territory::Egypt, Territory::MiddleEast));
    v.push((Territory::EastAfrica, Territory::Congo));
    v.push((Territory::EastAfrica, Territory::SouthAfrica));
    v.push((Territory::EastAfrica, Territory::Madagascar));
    v.push((Territory::EastAfrica, Territory::MiddleEast));
    v.push((Territory::Congo, Territory::SouthAfrica));
    v.push((Territory::SouthAfrica, Territory::Madagascar));
    v.push((Territory::Ural, Territory::Siberia));
    v.push((Territory::Ural, Territory::China));
    v.push((Territory::Ural, Territory::Afghanistan));
    v.push((Territory::Siberia, Territory::Yakutsk));
    v.push((Territory::Siberia, Territory::Irkutsk));
    v.push((Territory::Siberia, Territory::Mongolia));
    v.push((Territory::Siberia, Territory::China));
    v.push((Territory::Yakutsk, Territory::Kamchatka));
    v.push((Territory::Yakutsk, Territory::Irkutsk));
    v.push((Territory::Kamchatka, Territory::Irkutsk));
    v.push((Territory::Kamchatka, Territory::Mongolia));
    v.push((Territory::Kamchatka, Territory::Japan));
    v.push((Territory::Irkutsk, Territory::Mongolia));
    v.push((Territory::Mongolia, Territory::China));
    v.push((Territory::Mongolia, Territory::Japan));
    v.push((Territory::China, Territory::Afghanistan));
    v.push((Territory::China, Territory::India));
    v.push((Territory::China, Territory::Siam));
    v.push((Territory::Afghanistan, Territory::MiddleEast));
    v.push((Territory::Afghanistan, Territory::India));
    v.push((Territory::MiddleEast, Territory::India));
    v.push((Territory::India, Territory::Siam));
    v.push((Territory::Siam, Territory::Indonesia));
    v.push((Territory::Indonesia, Territory::NewGuinea));
    v.push((Territory::Indonesia, Territory::WesternAustralia));
    v.push((Territory::NewGuinea, Territory::WesternAustralia));
    v.push((Territory::NewGuinea, Territory::EasternAustralia));
    v.push((Territory::WesternAustralia, Territory::EasternAustralia));
    assert(v@ =~= spec_pairs());
    v
}

/// The territory standing at a given position in index order, as a
/// specification-level map; the inverse of `Territory::spec_index`.
pub open spec fn spec_territory_of(i: int) -> Territory {
    if i == 0 {
        Territory::Alaska
    } else if i == 1 {
        Territory::NorthwestTerritory
    } else if i == 2 {
        Territory::Greenland
    } else if i == 3 {
        Territory::Alberta
    } else if i == 4 {
        Territory::Ontario
    } else if i == 5 {
        Territory::Quebec
    } else if i == 6 {
        Territory::WesternUnitedStates
    } else if i == 7 {
        Territory::EasternUnitedStates
    } else if i == 8 {
        Territory::CentralAmerica
    } else if i == 9 {
        Territory::Venezuela
    } else if i == 10 {
        Territory::Peru
    } else if i == 11 {
        Territory::Brazil
    } else if i == 12 {
        Territory::Argentina
    } else if i == 13 {
        Territory::Iceland
    } else if i == 14 {
        Territory::Scandinavia
    } else if i == 15 {
        Territory::Ukraine
    } else if i == 16 {
        Territory::GreatBritain
    } else if i == 17 {
        Territory::NorthernEurope
    } else if i == 18 {
        Territory::WesternEurope
    } else if i == 19 {
        Territory::SouthernEurope
    } else if i == 20 {
        Territory::NorthAfrica
    } else if i == 21 {
        Territory::Egypt
    } else if i == 22 {
        Territory::EastAfrica
    } else if i == 23 {
        Territory::Congo
    } else if i == 24 {
        Territory::SouthAfrica
    } else if i == 25 {
        Territory::Madagascar
    } else if i == 26 {
        Territory::Ural
    } else if i == 27 {
        Territory::Siberia
    } else if i == 28 {
        Territory::Yakutsk
    } else if i == 29 {
        Territory::Kamchatka
    } else if i == 30 {
        Territory::Irkutsk
    } else if i == 31 {
        Territory::Mongolia
    } else if i == 32 {
        Territory::China
    } else if i == 33 {
        Territory::Afghanistan
    } else if i == 34 {
        Territory::MiddleEast
    } else if i == 35 {
        Territory::India
    } else if i == 36 {
        Territory::Siam
    } else if i == 37 {
        Territory::Indonesia
    } else if i == 38 {
        Territory::NewGuinea
    } else if i == 39 {
        Territory::WesternAustralia
    } else if i == 40 {
        Territory::EasternAustralia
    } else {
        Territory::Japan
    }
}

/// `spec_index` and `spec_territory_of` are inverse bijections between
/// the territories and the indices `0..42`.
/// `spec_index` and `spec_territory_of` are inverse bijections between
/// the territories and the indices `0..42`.
#[verifier::rlimit(100)]
pub proof fn lemma_territory_index_bijective()
    ensures
        forall|t: Territory| 0 <= #[trigger] t.spec_index() < 42,
        forall|t: Territory| spec_territory_of(#[trigger] t.spec_index()) == t,
{
    assert forall|t: Territory| 0 <= #[trigger] t.spec_index() < 42 && spec_territory_of(
        t.spec_index()) == t by {
        match t {
            Territory::Alaska => {
                assert(spec_territory_of(0) == Territory::Alaska);
            },
            Territory::NorthwestTerritory => {
                assert(spec_territory_of(1) == Territory::NorthwestTerritory);
            },
            Territory::Greenland => {
                assert(spec_territory_of(2) == Territory::Greenland);
            },
            Territory::Alberta => {
                assert(spec_territory_of(3) == Territory::Alberta);
            },
            Territory::Ontario => {
                assert(spec_territory_of(4) == Territory::Ontario);
            },
            Territory::Quebec => {
                assert(spec_territory_of(5) == Territory::Quebec);
            },
            Territory::WesternUnitedStates => {
                assert(spec_territory_of(6) == Territory::WesternUnitedStates);
            },
            Territory::EasternUnitedStates => {
                assert(spec_territory_of(7) == Territory::EasternUnitedStates);
            },
            Territory::CentralAmerica => {
                assert(spec_territory_of(8) == Territory::CentralAmerica);
            },
            Territory::Venezuela => {
                assert(spec_territory_of(9) == Territory::Venezuela);
            },
            Territory::Peru => {
                assert(spec_territory_of(10) == Territory::Peru);
            },
            Territory::Brazil => {
                assert(spec_territory_of(11) == Territory::Brazil);
            },
            Territory::Argentina => {
                assert(spec_territory_of(12) == Territory::Argentina);
            },
            Territory::Iceland => {
                assert(spec_territory_of(13) == Territory::Iceland);
            },
            Territory::Scandinavia => {
                assert(spec_territory_of(14) == Territory::Scandinavia);
            },
            Territory::Ukraine => {
                assert(spec_territory_of(15) == Territory::Ukraine);
            },
            Territory::GreatBritain => {
                assert(spec_territory_of(16) == Territory::GreatBritain);
            },
            Territory::NorthernEurope => {
                assert(spec_territory_of(17) == Territory::NorthernEurope);
            },
            Territory::WesternEurope => {
                assert(spec_territory_of(18) == Territory::WesternEurope);
            },
            Territory::SouthernEurope => {
                assert(spec_territory_of(19) == Territory::SouthernEurope);
            },
            Territory::NorthAfrica => {
                assert(spec_territory_of(20) == Territory::NorthAfrica);
            },
            Territory::Egypt => {
                assert(spec_territory_of(21) == Territory::Egypt);
            },
            Territory::EastAfrica => {
                assert(spec_territory_of(22) == Territory::EastAfrica);
            },
            Territory::Congo => {
                assert(spec_territory_of(23) == Territory::Congo);
            },
            Territory::SouthAfrica => {
                assert(spec_territory_of(24) == Territory::SouthAfrica);
            },
            Territory::Madagascar => {
                assert(spec_territory_of(25) == Territory::Madagascar);
            },
            Territory::Ural => {
                assert(spec_territory_of(26) == Territory::Ural);
            },
            Territory::Siberia => {
                assert(spec_territory_of(27) == Territory::Siberia);
            },
            Territory::Yakutsk => {
                assert(spec_territory_of(28) == Territory::Yakutsk);
            },
            Territory::Kamchatka => {
                assert(spec_territory_of(29) == Territory::Kamchatka);
            },
            Territory::Irkutsk => {
                assert(spec_territory_of(30) == Territory::Irkutsk);
            },
            Territory::Mongolia => {
                assert(spec_territory_of(31) == Territory::Mongolia);
            },
            Territory::China => {
                assert(spec_territory_of(32) == Territory::China);
            },
            Territory::Afghanistan => {
                assert(spec_territory_of(33) == Territory::Afghanistan);
            },
            Territory::MiddleEast => {
                assert(spec_territory_of(34) == Territory::MiddleEast);
            },
            Territory::India => {
                assert(spec_territory_of(35) == Territory::India);
            },
            Territory::Siam => {
                assert(spec_territory_of(36) == Territory::Siam);
            },
            Territory::Indonesia => {
                assert(spec_territory_of(37) == Territory::Indonesia);
            },
            Territory::NewGuinea => {
                assert(spec_territory_of(38) == Territory::NewGuinea);
            },
            Territory::WesternAustralia => {
                assert(spec_territory_of(39) == Territory::WesternAustralia);
            },
            Territory::EasternAustralia => {
                assert(spec_territory_of(40) == Territory::EasternAustralia);
            },
            Territory::Japan => {
                assert(spec_territory_of(41) == Territory::Japan);
            },
        }
    }
}

/// Every index in `0..42` is the index of the territory standing there.
#[verifier::rlimit(100)]
pub proof fn lemma_territory_of_index(i: int)
    requires
        0 <= i < 42,
    ensures
        spec_territory_of(i).spec_index() == i,
{
    if i == 0 {
        assert(spec_territory_of(0) == Territory::Alaska);
    } else if i == 1 {
        assert(spec_territory_of(1) == Territory::NorthwestTerritory);
    } else if i == 2 {
        assert(spec_territory_of(2) == Territory::Greenland);
    } else if i == 3 {
        assert(spec_territory_of(3) == Territory::Alberta);
    } else if i == 4 {
        assert(spec_territory_of(4) == Territory::Ontario);
    } else if i == 5 {
        assert(spec_territory_of(5) == Territory::Quebec);
    } else if i == 6 {
        assert(spec_territory_of(6) == Territory::WesternUnitedStates);
    } else if i == 7 {
        assert(spec_territory_of(7) == Territory::EasternUnitedStates);
    } else if i == 8 {
        assert(spec_territory_of(8) == Territory::CentralAmerica);
    } else if i == 9 {
        assert(spec_territory_of(9) == Territory::Venezuela);
    } else if i == 10 {
        assert(spec_territory_of(10) == Territory::Peru);
    } else if i == 11 {
        assert(spec_territory_of(11) == Territory::Brazil);
    } else if i == 12 {
        assert(spec_territory_of(12) == Territory::Argentina);
    } else if i == 13 {
        assert(spec_territory_of(13) == Territory::Iceland);
    } else if i == 14 {
        assert(spec_territory_of(14) == Territory::Scandinavia);
    } else if i == 15 {
        assert(spec_territory_of(15) == Territory::Ukraine);
    } else if i == 16 {
        assert(spec_territory_of(16) == Territory::GreatBritain);
    } else if i == 17 {
        assert(spec_territory_of(17) == Territory::NorthernEurope);
    } else if i == 18 {
        assert(spec_territory_of(18) == Territory::WesternEurope);
    } else if i == 19 {
        assert(spec_territory_of(19) == Territory::SouthernEurope);
    } else if i == 20 {
        assert(spec_territory_of(20) == Territory::NorthAfrica);
    } else if i == 21 {
        assert(spec_territory_of(21) == Territory::Egypt);
    } else if i == 22 {
        assert(spec_territory_of(22) == Territory::EastAfrica);
    } else if i == 23 {
        assert(spec_territory_of(23) == Territory::Congo);
    } else if i == 24 {
        assert(spec_territory_of(24) == Territory::SouthAfrica);
    } else if i == 25 {
        assert(spec_territory_of(25) == Territory::Madagascar);
    } else if i == 26 {
        assert(spec_territory_of(26) == Territory::Ural);
    } else if i == 27 {
        assert(spec_territory_of(27) == Territory::Siberia);
    } else if i == 28 {
        assert(spec_territory_of(28) == Territory::Yakutsk);
    } else if i == 29 {
        assert(spec_territory_of(29) == Territory::Kamchatka);
    } else if i == 30 {
        assert(spec_territory_of(30) == Territory::Irkutsk);
    } else if i == 31 {
        assert(spec_territory_of(31) == Territory::Mongolia);
    } else if i == 32 {
        assert(spec_territory_of(32) == Territory::China);
    } else if i == 33 {
        assert(spec_territory_of(33) == Territory::Afghanistan);
    } else if i == 34 {
        assert(spec_territory_of(34) == Territory::MiddleEast);
    } else if i == 35 {
        assert(spec_territory_of(35) == Territory::India);
    } else if i == 36 {
        assert(spec_territory_of(36) == Territory::Siam);
    } else if i == 37 {
        assert(spec_territory_of(37) == Territory::Indonesia);
    } else if i == 38 {
        assert(spec_territory_of(38) == Territory::NewGuinea);
    } else if i == 39 {
        assert(spec_territory_of(39) == Territory::WesternAustralia);
    } else if i == 40 {
        assert(spec_territory_of(40) == Territory::EasternAustralia);
    } else if i == 41 {
        assert(spec_territory_of(41) == Territory::Japan);
    }
}


/// The canonical code of an edge: the two endpoint indices combined,
/// lower endpoint first. The edge list is strictly increasing in it.
pub open spec fn pair_code(p: (Territory, Territory)) -> int {
    p.0.spec_index() * 64 + p.1.spec_index()
}

#[verifier::rlimit(100)]
proof fn lemma_pairs_facts_0()
    ensures
        forall|i: int| 0 <= i < 21 ==> (#[trigger] spec_pairs()[i]).0.spec_index()
            < spec_pairs()[i].1.spec_index(),
        forall|i: int| 0 <= i < 21 ==> pair_code(#[trigger] spec_pairs()[i])
            < pair_code(spec_pairs()[i + 1]),
{
    assert forall|i: int| 0 <= i < 21 implies (#[trigger] spec_pairs()[i]).0.spec_index()
        < spec_pairs()[i].1.spec_index() && (i < 82 ==> pair_code(spec_pairs()[i])
        < pair_code(spec_pairs()[i + 1])) by {
        if i == 0 {
            assert(spec_pairs()[0] == (Territory::Alaska, Territory::NorthwestTerritory));
            assert(spec_pairs()[1] == (Territory::Alaska, Territory::Alberta));
        } else if i == 1 {
            assert(spec_pairs()[1] == (Territory::Alaska, Territory::Alberta));
            assert(spec_pairs()[2] == (Territory::Alaska, Territory::Kamchatka));
        } else if i == 2 {
            assert(spec_pairs()[2] == (Territory::Alaska, Territory::Kamchatka));
            assert(spec_pairs()[3] == (Territory::NorthwestTerritory, Territory::Greenland));
        } else if i == 3 {
            assert(spec_pairs()[3] == (Territory::NorthwestTerritory, Territory::Greenland));
            assert(spec_pairs()[4] == (Territory::NorthwestTerritory, Territory::Alberta));
        } else if i == 4 {
            assert(spec_pairs()[4] == (Territory::NorthwestTerritory, Territory::Alberta));
            assert(spec_pairs()[5] == (Territory::NorthwestTerritory, Territory::Ontario));
        } else if i == 5 {
            assert(spec_pairs()[5] == (Territory::NorthwestTerritory, Territory::Ontario));
            assert(spec_pairs()[6] == (Territory::Greenland, Territory::Ontario));
        } else if i == 6 {
            assert(spec_pairs()[6] == (Territory::Greenland, Territory::Ontario));
            assert(spec_pairs()[7] == (Territory::Greenland, Territory::Quebec));
        } else if i == 7 {
            assert(spec_pairs()[7] == (Territory::Greenland, Territory::Quebec));
            assert(spec_pairs()[8] == (Territory::Greenland, Territory::Iceland));
        } else if i == 8 {
            assert(spec_pairs()[8] == (Territory::Greenland, Territory::Iceland));
            assert(spec_pairs()[9] == (Territory::Alberta, Territory::Ontario));
        } else if i == 9 {
            assert(spec_pairs()[9] == (Territory::Alberta, Territory::Ontario));
            assert(spec_pairs()[10] == (Territory::Alberta, Territory::WesternUnitedStates));
        } else if i == 10 {
            assert(spec_pairs()[10] == (Territory::Alberta, Territory::WesternUnitedStates));
            assert(spec_pairs()[11] == (Territory::Ontario, Territory::Quebec));
        } else if i == 11 {
            assert(spec_pairs()[11] == (Territory::Ontario, Territory::Quebec));
            assert(spec_pairs()[12] == (Territory::Ontario, Territory::WesternUnitedStates));
        } else if i == 12 {
            assert(spec_pairs()[12] == (Territory::Ontario, Territory::WesternUnitedStates));
            assert(spec_pairs()[13] == (Territory::Ontario, Territory::EasternUnitedStates));
        } else if i == 13 {
            assert(spec_pairs()[13] == (Territory::Ontario, Territory::EasternUnitedStates));
            assert(spec_pairs()[14] == (Territory::Quebec, Territory::EasternUnitedStates));
        } else if i == 14 {
            assert(spec_pairs()[14] == (Territory::Quebec, Territory::EasternUnitedStates));
            assert(spec_pairs()[15] == (Territory::WesternUnitedStates, Territory::EasternUnitedStates));
        } else if i == 15 {
            assert(spec_pairs()[15] == (Territory::WesternUnitedStates, Territory::EasternUnitedStates));
            assert(spec_pairs()[16] == (Territory::WesternUnitedStates, Territory::CentralAmerica));
        } else if i == 16 {
            assert(spec_pairs()[16] == (Territory::WesternUnitedStates, Territory::CentralAmerica));
            assert(spec_pairs()[17] == (Territory::EasternUnitedStates, Territory::CentralAmerica));
        } else if i == 17 {
            assert(spec_pairs()[17] == (Territory::EasternUnitedStates, Territory::CentralAmerica));
            assert(spec_pairs()[18] == (Territory::CentralAmerica, Territory::Venezuela));
        } else if i == 18 {
            assert(spec_pairs()[18] == (Territory::CentralAmerica, Territory::Venezuela));
            assert(spec_pairs()[19] == (Territory::Venezuela, Territory::Peru));
        } else if i == 19 {
            assert(spec_pairs()[19] == (Territory::Venezuela, Territory::Peru));
            assert(spec_pairs()[20] == (Territory::Venezuela, Territory::Brazil));
        } else {
            assert(spec_pairs()[20] == (Territory::Venezuela, Territory::Brazil));
            assert(spec_pairs()[21] == (Territory::Peru, Territory::Brazil));
        }
    }
}

#[verifier::rlimit(100)]
proof fn lemma_pairs_facts_1()
    ensures
        forall|i: int| 21 <= i < 42 ==> (#[trigger] spec_pairs()[i]).0.spec_index()
            < spec_pairs()[i].1.spec_index(),
        forall|i: int| 21 <= i < 42 ==> pair_code(#[trigger] spec_pairs()[i])
            < pair_code(spec_pairs()[i + 1]),
{
    assert forall|i: int| 21 <= i < 42 implies (#[trigger] spec_pairs()[i]).0.spec_index()
        < spec_pairs()[i].1.spec_index() && (i < 82 ==> pair_code(spec_pairs()[i])
        < pair_code(spec_pairs()[i + 1])) by {
        if i == 21 {
            assert(spec_pairs()[21] == (Territory::Peru, Territory::Brazil));
            assert(spec_pairs()[22] == (Territory::Peru, Territory::Argentina));
        } else if i == 22 {
            assert(spec_pairs()[22] == (Territory::Peru, Territory::Argentina));
            assert(spec_pairs()[23] == (Territory::Brazil, Territory::Argentina));
        } else if i == 23 {
            assert(spec_pairs()[23] == (Territory::Brazil, Territory::Argentina));
            assert(spec_pairs()[24] == (Territory::Brazil, Territory::NorthAfrica));
        } else if i == 24 {
            assert(spec_pairs()[24] == (Territory::Brazil, Territory::NorthAfrica));
            assert(spec_pairs()[25] == (Territory::Iceland, Territory::Scandinavia));
        } else if i == 25 {
            assert(spec_pairs()[25] == (Territory::Iceland, Territory::Scandinavia));
            assert(spec_pairs()[26] == (Territory::Iceland, Territory::GreatBritain));
        } else if i == 26 {
            assert(spec_pairs()[26] == (Territory::Iceland, Territory::GreatBritain));
            assert(spec_pairs()[27] == (Territory::Scandinavia, Territory::Ukraine));
        } else if i == 27 {
            assert(spec_pairs()[27] == (Territory::Scandinavia, Territory::Ukraine));
            assert(spec_pairs()[28] == (Territory::Scandinavia, Territory::GreatBritain));
        } else if i == 28 {
            assert(spec_pairs()[28] == (Territory::Scandinavia, Territory::GreatBritain));
            assert(spec_pairs()[29] == (Territory::Scandinavia, Territory::NorthernEurope));
        } else if i == 29 {
            assert(spec_pairs()[29] == (Territory::Scandinavia, Territory::NorthernEurope));
            assert(spec_pairs()[30] == (Territory::Ukraine, Territory::NorthernEurope));
        } else if i == 30 {
            assert(spec_pairs()[30] == (Territory::Ukraine, Territory::NorthernEurope));
            assert(spec_pairs()[31] == (Territory::Ukraine, Territory::SouthernEurope));
        } else if i == 31 {
            assert(spec_pairs()[31] == (Territory::Ukraine, Territory::SouthernEurope));
            assert(spec_pairs()[32] == (Territory::Ukraine, Territory::Ural));
        } else if i == 32 {
            assert(spec_pairs()[32] == (Territory::Ukraine, Territory::Ural));
            assert(spec_pairs()[33] == (Territory::Ukraine, Territory::Afghanistan));
        } else if i == 33 {
            assert(spec_pairs()[33] == (Territory::Ukraine, Territory::Afghanistan));
            assert(spec_pairs()[34] == (Territory::Ukraine, Territory::MiddleEast));
        } else if i == 34 {
            assert(spec_pairs()[34] == (Territory::Ukraine, Territory::MiddleEast));
            assert(spec_pairs()[35] == (Territory::GreatBritain, Territory::NorthernEurope));
        } else if i == 35 {
            assert(spec_pairs()[35] == (Territory::GreatBritain, Territory::NorthernEurope));
            assert(spec_pairs()[36] == (Territory::GreatBritain, Territory::WesternEurope));
        } else if i == 36 {
            assert(spec_pairs()[36] == (Territory::GreatBritain, Territory::WesternEurope));
            assert(spec_pairs()[37] == (Territory::NorthernEurope, Territory::WesternEurope));
        } else if i == 37 {
            assert(spec_pairs()[37] == (Territory::NorthernEurope, Territory::WesternEurope));
            assert(spec_pairs()[38] == (Territory::NorthernEurope, Territory::SouthernEurope));
        } else if i == 38 {
            assert(spec_pairs()[38] == (Territory::NorthernEurope, Territory::SouthernEurope));
            assert(spec_pairs()[39] == (Territory::WesternEurope, Territory::SouthernEurope));
        } else if i == 39 {
            assert(spec_pairs()[39] == (Territory::WesternEurope, Territory::SouthernEurope));
            assert(spec_pairs()[40] == (Territory::WesternEurope, Territory::NorthAfrica));
        } else if i == 40 {
            assert(spec_pairs()[40] == (Territory::WesternEurope, Territory::NorthAfrica));
            assert(spec_pairs()[41] == (Territory::SouthernEurope, Territory::NorthAfrica));
        } else {
            assert(spec_pairs()[41] == (Territory::SouthernEurope, Territory::NorthAfrica));
            assert(spec_pairs()[42] == (Territory::SouthernEurope, Territory::Egypt));
        }
    }
}

#[verifier::rlimit(100)]
proof fn lemma_pairs_facts_2()
    ensures
        forall|i: int| 42 <= i < 63 ==> (#[trigger] spec_pairs()[i]).0.spec_index()
            < spec_pairs()[i].1.spec_index(),
        forall|i: int| 42 <= i < 63 ==> pair_code(#[trigger] spec_pairs()[i])
            < pair_code(spec_pairs()[i + 1]),
{
    assert forall|i: int| 42 <= i < 63 implies (#[trigger] spec_pairs()[i]).0.spec_index()
        < spec_pairs()[i].1.spec_index() && (i < 82 ==> pair_code(spec_pairs()[i])
        < pair_code(spec_pairs()[i + 1])) by {
        if i == 42 {
            assert(spec_pairs()[42] == (Territory::SouthernEurope, Territory::Egypt));
            assert(spec_pairs()[43] == (Territory::SouthernEurope, Territory::MiddleEast));
        } else if i == 43 {
            assert(spec_pairs()[43] == (Territory::SouthernEurope, Territory::MiddleEast));
            assert(spec_pairs()[44] == (Territory::NorthAfrica, Territory::Egypt));
        } else if i == 44 {
            assert(spec_pairs()[44] == (Territory::NorthAfrica, Territory::Egypt));
            assert(spec_pairs()[45] == (Territory::NorthAfrica, Territory::EastAfrica));
        } else if i == 45 {
            assert(spec_pairs()[45] == (Territory::NorthAfrica, Territory::EastAfrica));
            assert(spec_pairs()[46] == (Territory::NorthAfrica, Territory::Congo));
        } else if i == 46 {
            assert(spec_pairs()[46] == (Territory::NorthAfrica, Territory::Congo));
            assert(spec_pairs()[47] == (Territory::Egypt, Territory::EastAfrica));
        } else if i == 47 {
            assert(spec_pairs()[47] == (Territory::Egypt, Territory::EastAfrica));
            assert(spec_pairs()[48] == (Territory::Egypt, Territory::MiddleEast));
        } else if i == 48 {
            assert(spec_pairs()[48] == (Territory::Egypt, Territory::MiddleEast));
            assert(spec_pairs()[49] == (Territory::EastAfrica, Territory::Congo));
        } else if i == 49 {
            assert(spec_pairs()[49] == (Territory::EastAfrica, Territory::Congo));
            assert(spec_pairs()[50] == (Territory::EastAfrica, Territory::SouthAfrica));
        } else if i == 50 {
            assert(spec_pairs()[50] == (Territory::EastAfrica, Territory::SouthAfrica));
            assert(spec_pairs()[51] == (Territory::EastAfrica, Territory::Madagascar));
        } else if i == 51 {
            assert(spec_pairs()[51] == (Territory::EastAfrica, Territory::Madagascar));
            assert(spec_pairs()[52] == (Territory::EastAfrica, Territory::MiddleEast));
        } else if i == 52 {
            assert(spec_pairs()[52] == (Territory::EastAfrica, Territory::MiddleEast));
            assert(spec_pairs()[53] == (Territory::Congo, Territory::SouthAfrica));
        } else if i == 53 {
            assert(spec_pairs()[53] == (Territory::Congo, Territory::SouthAfrica));
            assert(spec_pairs()[54] == (Territory::SouthAfrica, Territory::Madagascar));
        } else if i == 54 {
            assert(spec_pairs()[54] == (Territory::SouthAfrica, Territory::Madagascar));
            assert(spec_pairs()[55] == (Territory::Ural, Territory::Siberia));
        } else if i == 55 {
            assert(spec_pairs()[55] == (Territory::Ural, Territory::Siberia));
            assert(spec_pairs()[56] == (Territory::Ural, Territory::China));
        } else if i == 56 {
            assert(spec_pairs()[56] == (Territory::Ural, Territory::China));
            assert(spec_pairs()[57] == (Territory::Ural, Territory::Afghanistan));
        } else if i == 57 {
            assert(spec_pairs()[57] == (Territory::Ural, Territory::Afghanistan));
            assert(spec_pairs()[58] == (Territory::Siberia, Territory::Yakutsk));
        } else if i == 58 {
            assert(spec_pairs()[58] == (Territory::Siberia, Territory::Yakutsk));
            assert(spec_pairs()[59] == (Territory::Siberia, Territory::Irkutsk));
        } else if i == 59 {
            assert(spec_pairs()[59] == (Territory::Siberia, Territory::Irkutsk));
            assert(spec_pairs()[60] == (Territory::Siberia, Territory::Mongolia));
        } else if i == 60 {
            assert(spec_pairs()[60] == (Territory::Siberia, Territory::Mongolia));
            assert(spec_pairs()[61] == (Territory::Siberia, Territory::China));
        } else if i == 61 {
            assert(spec_pairs()[61] == (Territory::Siberia, Territory::China));
            assert(spec_pairs()[62] == (Territory::Yakutsk, Territory::Kamchatka));
        } else {
            assert(spec_pairs()[62] == (Territory::Yakutsk, Territory::Kamchatka));
            assert(spec_pairs()[63] == (Territory::Yakutsk, Territory::Irkutsk));
        }
    }
}

#[verifier::rlimit(100)]
proof fn lemma_pairs_facts_3()
    ensures
        forall|i: int| 63 <= i < 83 ==> (#[trigger] spec_pairs()[i]).0.spec_index()
            < spec_pairs()[i].1.spec_index(),
        forall|i: int| 63 <= i < 82 ==> pair_code(#[trigger] spec_pairs()[i])
            < pair_code(spec_pairs()[i + 1]),
{
    assert forall|i: int| 63 <= i < 83 implies (#[trigger] spec_pairs()[i]).0.spec_index()
        < spec_pairs()[i].1.spec_index() && (i < 82 ==> pair_code(spec_pairs()[i])
        < pair_code(spec_pairs()[i + 1])) by {
        if i == 63 {
            assert(spec_pairs()[63] == (Territory::Yakutsk, Territory::Irkutsk));
            assert(spec_pairs()[64] == (Territory::Kamchatka, Territory::Irkutsk));
        } else if i == 64 {
            assert(spec_pairs()[64] == (Territory::Kamchatka, Territory::Irkutsk));
            assert(spec_pairs()[65] == (Territory::Kamchatka, Territory::Mongolia));
        } else if i == 65 {
            assert(spec_pairs()[65] == (Territory::Kamchatka, Territory::Mongolia));
            assert(spec_pairs()[66] == (Territory::Kamchatka, Territory::Japan));
        } else if i == 66 {
            assert(spec_pairs()[66] == (Territory::Kamchatka, Territory::Japan));
            assert(spec_pairs()[67] == (Territory::Irkutsk, Territory::Mongolia));
        } else if i == 67 {
            assert(spec_pairs()[67] == (Territory::Irkutsk, Territory::Mongolia));
            assert(spec_pairs()[68] == (Territory::Mongolia, Territory::China));
        } else if i == 68 {
            assert(spec_pairs()[68] == (Territory::Mongolia, Territory::China));
            assert(spec_pairs()[69] == (Territory::Mongolia, Territory::Japan));
        } else if i == 69 {
            assert(spec_pairs()[69] == (Territory::Mongolia, Territory::Japan));
            assert(spec_pairs()[70] == (Territory::China, Territory::Afghanistan));
        } else if i == 70 {
            assert(spec_pairs()[70] == (Territory::China, Territory::Afghanistan));
            assert(spec_pairs()[71] == (Territory::China, Territory::India));
        } else if i == 71 {
            assert(spec_pairs()[71] == (Territory::China, Territory::India));
            assert(spec_pairs()[72] == (Territory::China, Territory::Siam));
        } else if i == 72 {
            assert(spec_pairs()[72] == (Territory::China, Territory::Siam));
            assert(spec_pairs()[73] == (Territory::Afghanistan, Territory::MiddleEast));
        } else if i == 73 {
            assert(spec_pairs()[73] == (Territory::Afghanistan, Territory::MiddleEast));
            assert(spec_pairs()[74] == (Territory::Afghanistan, Territory::India));
        } else if i == 74 {
            assert(spec_pairs()[74] == (Territory::Afghanistan, Territory::India));
            assert(spec_pairs()[75] == (Territory::MiddleEast, Territory::India));
        } else if i == 75 {
            assert(spec_pairs()[75] == (Territory::MiddleEast, Territory::India));
            assert(spec_pairs()[76] == (Territory::India, Territory::Siam));
        } else if i == 76 {
            assert(spec_pairs()[76] == (Territory::India, Territory::Siam));
            assert(spec_pairs()[77] == (Territory::Siam, Territory::Indonesia));
        } else if i == 77 {
            assert(spec_pairs()[77] == (Territory::Siam, Territory::Indonesia));
            assert(spec_pairs()[78] == (Territory::Indonesia, Territory::NewGuinea));
        } else if i == 78 {
            assert(spec_pairs()[78] == (Territory::Indonesia, Territory::NewGuinea));
            assert(spec_pairs()[79] == (Territory::Indonesia, Territory::WesternAustralia));
        } else if i == 79 {
            assert(spec_pairs()[79] == (Territory::Indonesia, Territory::WesternAustralia));
            assert(spec_pairs()[80] == (Territory::NewGuinea, Territory::WesternAustralia));
        } else if i == 80 {
            assert(spec_pairs()[80] == (Territory::NewGuinea, Territory::WesternAustralia));
            assert(spec_pairs()[81] == (Territory::NewGuinea, Territory::EasternAustralia));
        } else if i == 81 {
            assert(spec_pairs()[81] == (Territory::NewGuinea, Territory::EasternAustralia));
            assert(spec_pairs()[82] == (Territory::WesternAustralia, Territory::EasternAustralia));
        } else {
            assert(spec_pairs()[82] == (Territory::WesternAustralia, Territory::EasternAustralia));
        }
    }
}

/// Strict ordering of the edge codes extends from neighbors to all pairs.
proof fn lemma_code_sorted_inner(i: int, j: int)
    requires
        0 <= i < j < 83,
        forall|k: int| 0 <= k < 82 ==> pair_code(#[trigger] spec_pairs()[k]) < pair_code(
            spec_pairs()[k + 1],
        ),
    ensures
        pair_code(spec_pairs()[i]) < pair_code(spec_pairs()[j]),
    decreases j - i,
{
    if i + 1 < j {
        lemma_code_sorted_inner(i, j - 1);
    }
}

proof fn lemma_code_sorted(i: int, j: int)
    requires
        0 <= i < j < 83,
    ensures
        pair_code(spec_pairs()[i]) < pair_code(spec_pairs()[j]),
{
    lemma_pairs_facts_0();
    lemma_pairs_facts_1();
    lemma_pairs_facts_2();
    lemma_pairs_facts_3();
    lemma_code_sorted_inner(i, j);
}

/// No unordered adjacency pair appears twice in the edge list: every
/// edge stands with its lower-indexed endpoint first, and the edge codes
/// are strictly increasing, so no two entries name the same two
/// territories in either orientation.
pub proof fn lemma_no_duplicate_edges()
    ensures
        forall|i: int, j: int|
            0 <= i < j < spec_pairs().len() ==> !((#[trigger] spec_pairs()[j]) == (
            #[trigger] spec_pairs()[i]) || (spec_pairs()[j].0 == spec_pairs()[i].1
                && spec_pairs()[j].1 == spec_pairs()[i].0)),
{
    assert forall|i: int, j: int| 0 <= i < j < spec_pairs().len() implies !((
    #[trigger] spec_pairs()[j]) == (#[trigger] spec_pairs()[i]) || (spec_pairs()[j].0
        == spec_pairs()[i].1 && spec_pairs()[j].1 == spec_pairs()[i].0)) by {
        lemma_pairs_facts_0();
        lemma_pairs_facts_1();
        lemma_pairs_facts_2();
        lemma_pairs_facts_3();
        lemma_code_sorted(i, j);
    }
}

/// Whether a territory borders at least one other territory.
pub open spec fn spec_has_neighbor(t: Territory) -> bool {
    exists|b: Territory| spec_adjacent(t, b)
}

/// Every territory has at least one neighbor.
#[verifier::rlimit(100)]
pub proof fn lemma_every_territory_has_neighbor()
    ensures
        forall|t: Territory| #[trigger] spec_has_neighbor(t),
{
    assert forall|t: Territory| #[trigger] spec_has_neighbor(t) by {
        match t {
            Territory::Alaska => {
                assert(spec_pairs()[0] == (Territory::Alaska, Territory::NorthwestTerritory));
                assert(spec_adjacent(t, Territory::NorthwestTerritory));
            },
            Territory::NorthwestTerritory => {
                assert(spec_pairs()[0] == (Territory::Alaska, Territory::NorthwestTerritory));
                assert(spec_adjacent(t, Territory::Alaska));
            },
            Territory::Greenland => {
                assert(spec_pairs()[3] == (Territory::NorthwestTerritory, Territory::Greenland));
                assert(spec_adjacent(t, Territory::NorthwestTerritory));
            },
            Territory::Alberta => {
                assert(spec_pairs()[1] == (Territory::Alaska, Territory::Alberta));
                assert(spec_adjacent(t, Territory::Alaska));
            },
            Territory::Ontario => {
                assert(spec_pairs()[5] == (Territory::NorthwestTerritory, Territory::Ontario));
                assert(spec_adjacent(t, Territory::NorthwestTerritory));
            },
            Territory::Quebec => {
                assert(spec_pairs()[7] == (Territory::Greenland, Territory::Quebec));
                assert(spec_adjacent(t, Territory::Greenland));
            },
            Territory::WesternUnitedStates => {
                assert(spec_pairs()[10] == (Territory::Alberta, Territory::WesternUnitedStates));
                assert(spec_adjacent(t, Territory::Alberta));
            },
            Territory::EasternUnitedStates => {
                assert(spec_pairs()[13] == (Territory::Ontario, Territory::EasternUnitedStates));
                assert(spec_adjacent(t, Territory::Ontario));
            },
            Territory::CentralAmerica => {
                assert(spec_pairs()[16] == (Territory::WesternUnitedStates, Territory::CentralAmerica));
                assert(spec_adjacent(t, Territory::WesternUnitedStates));
            },
            Territory::Venezuela => {
                assert(spec_pairs()[18] == (Territory::CentralAmerica, Territory::Venezuela));
                assert(spec_adjacent(t, Territory::CentralAmerica));
            },
            Territory::Peru => {
                assert(spec_pairs()[19] == (Territory::Venezuela, Territory::Peru));
                assert(spec_adjacent(t, Territory::Venezuela));
            },
            Territory::Brazil => {
                assert(spec_pairs()[20] == (Territory::Venezuela, Territory::Brazil));
                assert(spec_adjacent(t, Territory::Venezuela));
            },
            Territory::Argentina => {
                assert(spec_pairs()[22] == (Territory::Peru, Territory::Argentina));
                assert(spec_adjacent(t, Territory::Peru));
            },
            Territory::Iceland => {
                assert(spec_pairs()[8] == (Territory::Greenland, Territory::Iceland));
                assert(spec_adjacent(t, Territory::Greenland));
            },
            Territory::Scandinavia => {
                assert(spec_pairs()[25] == (Territory::Iceland, Territory::Scandinavia));
                assert(spec_adjacent(t, Territory::Iceland));
            },
            Territory::Ukraine => {
                assert(spec_pairs()[27] == (Territory::Scandinavia, Territory::Ukraine));
                assert(spec_adjacent(t, Territory::Scandinavia));
            },
            Territory::GreatBritain => {
                assert(spec_pairs()[26] == (Territory::Iceland, Territory::GreatBritain));
                assert(spec_adjacent(t, Territory::Iceland));
            },
            Territory::NorthernEurope => {
                assert(spec_pairs()[29] == (Territory::Scandinavia, Territory::NorthernEurope));
                assert(spec_adjacent(t, Territory::Scandinavia));
            },
            Territory::WesternEurope => {
                assert(spec_pairs()[36] == (Territory::GreatBritain, Territory::WesternEurope));
                assert(spec_adjacent(t, Territory::GreatBritain));
            },
            Territory::SouthernEurope => {
                assert(spec_pairs()[31] == (Territory::Ukraine, Territory::SouthernEurope));
                assert(spec_adjacent(t, Territory::Ukraine));
            },
            Territory::NorthAfrica => {
                assert(spec_pairs()[24] == (Territory::Brazil, Territory::NorthAfrica));
                assert(spec_adjacent(t, Territory::Brazil));
            },
            Territory::Egypt => {
                assert(spec_pairs()[42] == (Territory::SouthernEurope, Territory::Egypt));
                assert(spec_adjacent(t, Territory::SouthernEurope));
            },
            Territory::EastAfrica => {
                assert(spec_pairs()[45] == (Territory::NorthAfrica, Territory::EastAfrica));
                assert(spec_adjacent(t, Territory::NorthAfrica));
            },
            Territory::Congo => {
                assert(spec_pairs()[46] == (Territory::NorthAfrica, Territory::Congo));
                assert(spec_adjacent(t, Territory::NorthAfrica));
            },
            Territory::SouthAfrica => {
                assert(spec_pairs()[50] == (Territory::EastAfrica, Territory::SouthAfrica));
                assert(spec_adjacent(t, Territory::EastAfrica));
            },
            Territory::Madagascar => {
                assert(spec_pairs()[51] == (Territory::EastAfrica, Territory::Madagascar));
                assert(spec_adjacent(t, Territory::EastAfrica));
            },
            Territory::Ural => {
                assert(spec_pairs()[32] == (Territory::Ukraine, Territory::Ural));
                assert(spec_adjacent(t, Territory::Ukraine));
            },
            Territory::Siberia => {
                assert(spec_pairs()[55] == (Territory::Ural, Territory::Siberia));
                assert(spec_adjacent(t, Territory::Ural));
            },
            Territory::Yakutsk => {
                assert(spec_pairs()[58] == (Territory::Siberia, Territory::Yakutsk));
                assert(spec_adjacent(t, Territory::Siberia));
            },
            Territory::Kamchatka => {
                assert(spec_pairs()[2] == (Territory::Alaska, Territory::Kamchatka));
                assert(spec_adjacent(t, Territory::Alaska));
            },
            Territory::Irkutsk => {
                assert(spec_pairs()[59] == (Territory::Siberia, Territory::Irkutsk));
                assert(spec_adjacent(t, Territory::Siberia));
            },
            Territory::Mongolia => {
                assert(spec_pairs()[60] == (Territory::Siberia, Territory::Mongolia));
                assert(spec_adjacent(t, Territory::Siberia));
            },
            Territory::China => {
                assert(spec_pairs()[56] == (Territory::Ural, Territory::China));
                assert(spec_adjacent(t, Territory::Ural));
            },
            Territory::Afghanistan => {
                assert(spec_pairs()[33] == (Territory::Ukraine, Territory::Afghanistan));
                assert(spec_adjacent(t, Territory::Ukraine));
            },
            Territory::MiddleEast => {
                assert(spec_pairs()[34] == (Territory::Ukraine, Territory::MiddleEast));
                assert(spec_adjacent(t, Territory::Ukraine));
            },
            Territory::India => {
                assert(spec_pairs()[71] == (Territory::China, Territory::India));
                assert(spec_adjacent(t, Territory::China));
            },
            Territory::Siam => {
                assert(spec_pairs()[72] == (Territory::China, Territory::Siam));
                assert(spec_adjacent(t, Territory::China));
            },
            Territory::Indonesia => {
                assert(spec_pairs()[77] == (Territory::Siam, Territory::Indonesia));
                assert(spec_adjacent(t, Territory::Siam));
            },
            Territory::NewGuinea => {
                assert(spec_pairs()[78] == (Territory::Indonesia, Territory::NewGuinea));
                assert(spec_adjacent(t, Territory::Indonesia));
            },
            Territory::WesternAustralia => {
                assert(spec_pairs()[79] == (Territory::Indonesia, Territory::WesternAustralia));
                assert(spec_adjacent(t, Territory::Indonesia));
            },
            Territory::EasternAustralia => {
                assert(spec_pairs()[81] == (Territory::NewGuinea, Territory::EasternAustralia));
                assert(spec_adjacent(t, Territory::NewGuinea));
            },
            Territory::Japan => {
                assert(spec_pairs()[66] == (Territory::Kamchatka, Territory::Japan));
                assert(spec_adjacent(t, Territory::Kamchatka));
            },
        }
    }
}

/// Adjacency is symmetric: the edge list is read in both orientations.
pub proof fn lemma_adjacency_symmetric()
    ensures
        forall|a: Territory, b: Territory| #[trigger] spec_adjacent(a, b) <==> spec_adjacent(
            b,
            a,
        ),
{
    assert forall|a: Territory, b: Territory| #[trigger] spec_adjacent(a, b) implies
        spec_adjacent(b, a) by {
        let i = choose|i: int|
            0 <= i < spec_pairs().len() && (spec_pairs()[i] == (a, b) || spec_pairs()[i] == (
            b,
            a,
            ));
        assert(spec_pairs()[i] == (b, a) || spec_pairs()[i] == (a, b));
    }
}

/// No territory borders itself: every edge joins two distinct
/// territories.
pub proof fn lemma_no_self_adjacency()
    ensures
        forall|t: Territory| !spec_adjacent(t, t),
{
    lemma_pairs_facts_0();
    lemma_pairs_facts_1();
    lemma_pairs_facts_2();
    lemma_pairs_facts_3();
    assert forall|t: Territory| !spec_adjacent(t, t) by {
        if spec_adjacent(t, t) {
            let i = choose|i: int|
                0 <= i < spec_pairs().len() && (spec_pairs()[i] == (t, t) || spec_pairs()[i] == (
                t,
                t,
                ));
            assert(spec_pairs()[i].0.spec_index() < spec_pairs()[i].1.spec_index());
        }
    }
}

} // verus!
