use vstd::prelude::*;

verus! {

/// The planets of the solar system other than Earth.
#[derive(Debug, Clone, Copy, PartialEq, Eq, Structural)]
pub enum Planet {
    Mercury,
    Venus,
    Mars,
    Jupiter,
    Saturn,
    Uranus,
    Neptune,
}

/// The catalog identifier of a planet: its English name.
pub open spec fn planet_name(p: Planet) -> Seq<char> {
    match p {
        Planet::Mercury => seq!['M', 'e', 'r', 'c', 'u', 'r', 'y'],
        Planet::Venus => seq!['V', 'e', 'n', 'u', 's'],
        Planet::Mars => seq!['M', 'a', 'r', 's'],
        Planet::Jupiter => seq!['J', 'u', 'p', 'i', 't', 'e', 'r'],
        Planet::Saturn => seq!['S', 'a', 't', 'u', 'r', 'n'],
        Planet::Uranus => seq!['U', 'r', 'a', 'n', 'u', 's'],
        Planet::Neptune => seq!['N', 'e', 'p', 't', 'u', 'n', 'e'],
    }
}

impl Planet {
    /// The identifier under which the planet is kept in a catalog.
    pub fn id(&self) -> (r: &str)
        ensures
            r@ == planet_name(*self),
    {
        match self {
            Planet::Mercury => {
                let s = "Mercury";
                proof { reveal_strlit("Mercury"); }
                s
            },
            Planet::Venus => {
                let s = "Venus";
                proof { reveal_strlit("Venus"); }
                s
            },
            Planet::Mars => {
                let s = "Mars";
                proof { reveal_strlit("Mars"); }
                s
            },
            Planet::Jupiter => {
                let s = "Jupiter";
                proof { reveal_strlit("Jupiter"); }
                s
            },
            Planet::Saturn => {
                let s = "Saturn";
                proof { reveal_strlit("Saturn"); }
                s
            },
            Planet::Uranus => {
                let s = "Uranus";
                proof { reveal_strlit("Uranus"); }
                s
            },
            Planet::Neptune => {
                let s = "Neptune";
                proof { reveal_strlit("Neptune"); }
                s
            },
        }
    }
}

} // verus!
