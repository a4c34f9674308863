use std::sync::Arc;
use vstd::prelude::*;

use crate::planet::{planet_name, Planet};
use crate::star::Star;

verus! {

/// A body of the sky that a catalog can hold.
#[derive(Debug, Clone)]
pub enum CelestialBody {
    Star(Arc<Star>),
    Planet(Planet),
    Moon,
    Sun,
}

/// The identifier of a body, which is its key in a catalog.
pub open spec fn body_id(b: CelestialBody) -> Seq<char> {
    match b {
        CelestialBody::Star(star) => star.id@,
        CelestialBody::Planet(p) => planet_name(p),
        CelestialBody::Moon => seq!['M', 'o', 'o', 'n'],
        CelestialBody::Sun => seq!['S', 'u', 'n'],
    }
}

/// The bodies of the solar system that every sky holds: the seven planets
/// other than Earth, then the Moon and the Sun.
pub open spec fn standard_bodies_spec() -> Seq<CelestialBody> {
    seq![
        CelestialBody::Planet(Planet::Mercury),
        CelestialBody::Planet(Planet::Venus),
        CelestialBody::Planet(Planet::Mars),
        CelestialBody::Planet(Planet::Jupiter),
        CelestialBody::Planet(Planet::Saturn),
        CelestialBody::Planet(Planet::Uranus),
        CelestialBody::Planet(Planet::Neptune),
        CelestialBody::Moon,
        CelestialBody::Sun,
    ]
}

impl CelestialBody {
    /// The solar-system bodies in their standard order.
    pub fn standard_bodies() -> (r: Vec<CelestialBody>)
        ensures
            r@ == standard_bodies_spec(),
    {
        let r = vec![
            CelestialBody::Planet(Planet::Mercury),
            CelestialBody::Planet(Planet::Venus),
            CelestialBody::Planet(Planet::Mars),
            CelestialBody::Planet(Planet::Jupiter),
            CelestialBody::Planet(Planet::Saturn),
            CelestialBody::Planet(Planet::Uranus),
            CelestialBody::Planet(Planet::Neptune),
            CelestialBody::Moon,
            CelestialBody::Sun,
        ];
        assert(r@ =~= standard_bodies_spec());
        r
    }

    /// The body's identifier.
    pub fn id(&self) -> (r: &str)
        ensures
            r@ == body_id(*self),
    {
        match self {
            CelestialBody::Star(star) => star.id.as_str(),
            CelestialBody::Planet(planet) => planet.id(),
            CelestialBody::Moon => {
                proof { reveal_strlit("Moon"); }
                "Moon"
            },
            CelestialBody::Sun => {
                proof { reveal_strlit("Sun"); }
                "Sun"
            },
        }
    }

    /// The constellation of a star, where it is in one; other bodies have none.
    pub fn constellation(&self) -> (r: Option<&str>)
        ensures
            match *self {
                CelestialBody::Star(star) => match star.constellation {
                    Some(c) => r matches Some(s) && s@ == c@,
                    None => r is None,
                },
                _ => r is None,
            },
    {
        match self {
            CelestialBody::Star(star) => match &star.constellation {
                Some(c) => Some(c.as_str()),
                None => None,
            },
            _ => None,
        }
    }

    pub fn is_star(&self) -> (r: bool)
        ensures
            r == (*self is Star),
    {
        matches!(self, CelestialBody::Star(_))
    }

    pub fn is_planet(&self) -> (r: bool)
        ensures
            r == (*self is Planet),
    {
        matches!(self, CelestialBody::Planet(_))
    }

    pub fn is_moon(&self) -> (r: bool)
        ensures
            r == (*self is Moon),
    {
        matches!(self, CelestialBody::Moon)
    }

    pub fn is_sun(&self) -> (r: bool)
        ensures
            r == (*self is Sun),
    {
        matches!(self, CelestialBody::Sun)
    }
}

} // verus!
