use vstd::prelude::*;
use crate::zodiac::{opposite, sign_index, Sign};

verus! {

/// The bodies that the ephemeris adapter can place, addressed by their
/// ephemeris number: the Sun is 0, the Moon 1, and so on up to Pluto, 9.
#[derive(Clone, Copy, Debug, PartialEq, Eq, Structural)]
pub enum Body {
    Sun,
    Moon,
    Mercury,
    Venus,
    Mars,
    Jupiter,
    Saturn,
    Uranus,
    Neptune,
    Pluto,
}

/// The planets drawn on a chart: the seven classical planets.
#[derive(Clone, Copy, Debug, PartialEq, Eq, Structural)]
pub enum Planet {
    Sun,
    Moon,
    Mercury,
    Venus,
    Mars,
    Jupiter,
    Saturn,
}

/// The essential dignity of a planet in a sign.
#[derive(Clone, Copy, Debug, PartialEq, Eq, Structural)]
pub enum Dignity {
    /// The planet rules the sign.
    Domicile,
    /// The planet is exalted in the sign.
    Exaltation,
    /// The planet rules the opposite sign.
    Detriment,
    /// The planet is exalted in the opposite sign.
    Fall,
    /// None of the above.
    Peregrine,
}

/// The ephemeris number of a body.
pub open spec fn body_index(b: Body) -> int {
    match b {
        Body::Sun => 0,
        Body::Moon => 1,
        Body::Mercury => 2,
        Body::Venus => 3,
        Body::Mars => 4,
        Body::Jupiter => 5,
        Body::Saturn => 6,
        Body::Uranus => 7,
        Body::Neptune => 8,
        Body::Pluto => 9,
    }
}

/// The ephemeris body that a chart planet is computed from.
pub open spec fn planet_body(p: Planet) -> Body {
    match p {
        Planet::Sun => Body::Sun,
        Planet::Moon => Body::Moon,
        Planet::Mercury => Body::Mercury,
        Planet::Venus => Body::Venus,
        Planet::Mars => Body::Mars,
        Planet::Jupiter => Body::Jupiter,
        Planet::Saturn => Body::Saturn,
    }
}

/// Whether `p` rules `s` (traditional rulerships: the luminaries rule one
/// sign each, the other five planets two).
pub open spec fn rules(p: Planet, s: Sign) -> bool {
    match p {
        Planet::Sun => s == Sign::Leo,
        Planet::Moon => s == Sign::Cancer,
        Planet::Mercury => s == Sign::Gemini || s == Sign::Virgo,
        Planet::Venus => s == Sign::Taurus || s == Sign::Libra,
        Planet::Mars => s == Sign::Aries || s == Sign::Scorpio,
        Planet::Jupiter => s == Sign::Sagittarius || s == Sign::Pisces,
        Planet::Saturn => s == Sign::Capricorn || s == Sign::Aquarius,
    }
}

/// The one sign in which `p` is exalted.
pub open spec fn exaltation_sign(p: Planet) -> Sign {
    match p {
        Planet::Sun => Sign::Aries,
        Planet::Moon => Sign::Taurus,
        Planet::Mercury => Sign::Virgo,
        Planet::Venus => Sign::Pisces,
        Planet::Mars => Sign::Capricorn,
        Planet::Jupiter => Sign::Cancer,
        Planet::Saturn => Sign::Libra,
    }
}

/// The dignity of `p` in `s`. Where two apply (Mercury in Virgo is both
/// ruler and exalted; in Pisces it is both in detriment and in fall) the one
/// listed first wins: domicile, exaltation, detriment, fall.
pub open spec fn dignity_of(p: Planet, s: Sign) -> Dignity {
    if rules(p, s) {
        Dignity::Domicile
    } else if exaltation_sign(p) == s {
        Dignity::Exaltation
    } else if rules(p, opposite(s)) {
        Dignity::Detriment
    } else if exaltation_sign(p) == opposite(s) {
        Dignity::Fall
    } else {
        Dignity::Peregrine
    }
}

/// The planets of a chart, in the order in which they are computed and
/// listed.
pub open spec fn chart_order() -> Seq<Planet> {
    seq![
        Planet::Sun,
        Planet::Moon,
        Planet::Mercury,
        Planet::Venus,
        Planet::Mars,
        Planet::Jupiter,
        Planet::Saturn,
    ]
}

/// The body with ephemeris number `index`, or `None` where no body of the
/// adapter has that number (anything outside 0 to 9).
pub fn body_from_index(index: i32) -> (b: Option<Body>)
    ensures
        b is Some <==> 0 <= index <= 9,
        b matches Some(body) ==> body_index(body) == index,
{
    match index {
        0 => Some(Body::Sun),
        1 => Some(Body::Moon),
        2 => Some(Body::Mercury),
        3 => Some(Body::Venus),
        4 => Some(Body::Mars),
        5 => Some(Body::Jupiter),
        6 => Some(Body::Saturn),
        7 => Some(Body::Uranus),
        8 => Some(Body::Neptune),
        9 => Some(Body::Pluto),
        _ => None,
    }
}

impl Body {
    /// The ephemeris number of this body.
    pub fn index(&self) -> (i: i32)
        ensures
            i == body_index(*self),
    {
        match self {
            Body::Sun => 0,
            Body::Moon => 1,
            Body::Mercury => 2,
            Body::Venus => 3,
            Body::Mars => 4,
            Body::Jupiter => 5,
            Body::Saturn => 6,
            Body::Uranus => 7,
            Body::Neptune => 8,
            Body::Pluto => 9,
        }
    }
}

impl Planet {
    /// The ephemeris body this planet's position is computed from.
    pub fn body(&self) -> (b: Body)
        ensures
            b == planet_body(*self),
    {
        match self {
            Planet::Sun => Body::Sun,
            Planet::Moon => Body::Moon,
            Planet::Mercury => Body::Mercury,
            Planet::Venus => Body::Venus,
            Planet::Mars => Body::Mars,
            Planet::Jupiter => Body::Jupiter,
            Planet::Saturn => Body::Saturn,
        }
    }

    /// The essential dignity of this planet in `sign`.
    pub fn dignity(&self, sign: &Sign) -> (d: Dignity)
        ensures
            d == dignity_of(*self, *sign),
    {
        match (self, sign) {
            (Planet::Sun, Sign::Leo) => Dignity::Domicile,
            (Planet::Sun, Sign::Aries) => Dignity::Exaltation,
            (Planet::Sun, Sign::Aquarius) => Dignity::Detriment,
            (Planet::Sun, Sign::Libra) => Dignity::Fall,
            (Planet::Moon, Sign::Cancer) => Dignity::Domicile,
            (Planet::Moon, Sign::Taurus) => Dignity::Exaltation,
            (Planet::Moon, Sign::Capricorn) => Dignity::Detriment,
            (Planet::Moon, Sign::Scorpio) => Dignity::Fall,
            (Planet::Mercury, Sign::Gemini) | (Planet::Mercury, Sign::Virgo) => Dignity::Domicile,
            (Planet::Mercury, Sign::Sagittarius) | (Planet::Mercury, Sign::Pisces) => {
                Dignity::Detriment
            },
            (Planet::Venus, Sign::Taurus) | (Planet::Venus, Sign::Libra) => Dignity::Domicile,
            (Planet::Venus, Sign::Pisces) => Dignity::Exaltation,
            (Planet::Venus, Sign::Scorpio) | (Planet::Venus, Sign::Aries) => Dignity::Detriment,
            (Planet::Venus, Sign::Virgo) => Dignity::Fall,
            (Planet::Mars, Sign::Aries) | (Planet::Mars, Sign::Scorpio) => Dignity::Domicile,
            (Planet::Mars, Sign::Capricorn) => Dignity::Exaltation,
            (Planet::Mars, Sign::Libra) | (Planet::Mars, Sign::Taurus) => Dignity::Detriment,
            (Planet::Mars, Sign::Cancer) => Dignity::Fall,
            (Planet::Jupiter, Sign::Sagittarius) | (Planet::Jupiter, Sign::Pisces) => {
                Dignity::Domicile
            },
            (Planet::Jupiter, Sign::Cancer) => Dignity::Exaltation,
            (Planet::Jupiter, Sign::Gemini) | (Planet::Jupiter, Sign::Virgo) => {
                Dignity::Detriment
            },
            (Planet::Jupiter, Sign::Capricorn) => Dignity::Fall,
            (Planet::Saturn, Sign::Capricorn) | (Planet::Saturn, Sign::Aquarius) => {
                Dignity::Domicile
            },
            (Planet::Saturn, Sign::Libra) => Dignity::Exaltation,
            (Planet::Saturn, Sign::Cancer) | (Planet::Saturn, Sign::Leo) => Dignity::Detriment,
            (Planet::Saturn, Sign::Aries) => Dignity::Fall,
            _ => Dignity::Peregrine,
        }
    }
}

/// The planets of a chart, in the order in which their positions are
/// computed and listed: Sun, Moon, Mercury, Venus, Mars, Jupiter, Saturn.
pub fn charted_planets() -> (planets: Vec<Planet>)
    ensures
        planets@ == chart_order(),
{
    let planets = vec![
        Planet::Sun,
        Planet::Moon,
        Planet::Mercury,
        Planet::Venus,
        Planet::Mars,
        Planet::Jupiter,
        Planet::Saturn,
    ];
    assert(planets@ =~= chart_order());
    planets
}

/// Ephemeris numbers and bodies correspond one to one on 0 to 9.
pub proof fn lemma_body_index_round_trip(b: Body, c: Body)
    ensures
        0 <= body_index(b) <= 9,
        body_index(b) == body_index(c) ==> b == c,
{
}

/// Each planet appears once in the chart order, at the position equal to
/// the ephemeris number of its body.
pub proof fn lemma_chart_order_by_body(p: Planet)
    ensures
        chart_order().len() == 7,
        chart_order()[body_index(planet_body(p))] == p,
        forall|i: int, j: int|
            0 <= i < j < chart_order().len() ==> chart_order()[i] != chart_order()[j],
{
}

/// A planet is in detriment exactly in the signs opposite its domiciles.
pub proof fn lemma_detriment_opposes_domicile(p: Planet, s: Sign)
    ensures
        dignity_of(p, s) == Dignity::Domicile <==> dignity_of(p, opposite(s))
            == Dignity::Detriment,
{
    crate::zodiac::lemma_opposite_involution(s);
}

/// Each planet is exalted in exactly one sign, and opposite that sign it is
/// debilitated: in fall, or in detriment where that applies too.
pub proof fn lemma_exaltation_opposes_fall(p: Planet, s: Sign)
    ensures
        dignity_of(p, s) == Dignity::Exaltation ==> s == exaltation_sign(p),
        dignity_of(p, exaltation_sign(p)) == Dignity::Exaltation || dignity_of(
            p,
            exaltation_sign(p),
        ) == Dignity::Domicile,
        dignity_of(p, opposite(exaltation_sign(p))) == Dignity::Fall || dignity_of(
            p,
            opposite(exaltation_sign(p)),
        ) == Dignity::Detriment,
{
    crate::zodiac::lemma_opposite_involution(exaltation_sign(p));
}

/// The domiciles are the traditional rulerships: a planet is in domicile in
/// a sign exactly when it rules it — the Sun only Leo, the Moon only Cancer,
/// Mercury Gemini and Virgo, Venus Taurus and Libra, Mars Aries and Scorpio,
/// Jupiter Sagittarius and Pisces, Saturn Capricorn and Aquarius.
pub proof fn lemma_domicile_table(p: Planet, s: Sign)
    ensures
        dignity_of(p, s) == Dignity::Domicile <==> match p {
            Planet::Sun => s == Sign::Leo,
            Planet::Moon => s == Sign::Cancer,
            Planet::Mercury => s == Sign::Gemini || s == Sign::Virgo,
            Planet::Venus => s == Sign::Taurus || s == Sign::Libra,
            Planet::Mars => s == Sign::Aries || s == Sign::Scorpio,
            Planet::Jupiter => s == Sign::Sagittarius || s == Sign::Pisces,
            Planet::Saturn => s == Sign::Capricorn || s == Sign::Aquarius,
        },
{
}

/// A planet is exalted in exactly one sign (Sun Aries, Moon Taurus, Venus
/// Pisces, Mars Capricorn, Jupiter Cancer, Saturn Libra); Mercury's
/// exaltation, Virgo, is also its domicile, which takes precedence.
pub proof fn lemma_exaltation_table(p: Planet, s: Sign)
    ensures
        dignity_of(p, s) == Dignity::Exaltation <==> match p {
            Planet::Sun => s == Sign::Aries,
            Planet::Moon => s == Sign::Taurus,
            Planet::Mercury => false,
            Planet::Venus => s == Sign::Pisces,
            Planet::Mars => s == Sign::Capricorn,
            Planet::Jupiter => s == Sign::Cancer,
            Planet::Saturn => s == Sign::Libra,
        },
{
}

/// A planet is in detriment exactly in the signs opposite its domiciles:
/// the Sun in Aquarius, the Moon in Capricorn, Mercury in Sagittarius and
/// Pisces, Venus in Scorpio and Aries, Mars in Libra and Taurus, Jupiter in
/// Gemini and Virgo, Saturn in Cancer and Leo.
pub proof fn lemma_detriment_table(p: Planet, s: Sign)
    ensures
        dignity_of(p, s) == Dignity::Detriment <==> match p {
            Planet::Sun => s == Sign::Aquarius,
            Planet::Moon => s == Sign::Capricorn,
            Planet::Mercury => s == Sign::Sagittarius || s == Sign::Pisces,
            Planet::Venus => s == Sign::Scorpio || s == Sign::Aries,
            Planet::Mars => s == Sign::Libra || s == Sign::Taurus,
            Planet::Jupiter => s == Sign::Gemini || s == Sign::Virgo,
            Planet::Saturn => s == Sign::Cancer || s == Sign::Leo,
        },
{
}

/// A planet is in fall only in the sign opposite its exaltation (the Sun in
/// Libra, the Moon in Scorpio, Venus in Virgo, Mars in Cancer, Jupiter in
/// Capricorn, Saturn in Aries); Mercury's fall, Pisces, is also its
/// detriment, which takes precedence.
pub proof fn lemma_fall_table(p: Planet, s: Sign)
    ensures
        dignity_of(p, s) == Dignity::Fall <==> match p {
            Planet::Sun => s == Sign::Libra,
            Planet::Moon => s == Sign::Scorpio,
            Planet::Mercury => false,
            Planet::Venus => s == Sign::Virgo,
            Planet::Mars => s == Sign::Cancer,
            Planet::Jupiter => s == Sign::Capricorn,
            Planet::Saturn => s == Sign::Aries,
        },
        dignity_of(p, s) == Dignity::Fall ==> sign_index(s) == (sign_index(exaltation_sign(p))
            + 6) % 12,
{
}

/// A planet is peregrine exactly where it has none of the four dignities:
/// in none of its domiciles, not in its exaltation, and in neither of
/// their opposites.
pub proof fn lemma_peregrine_elsewhere(p: Planet, s: Sign)
    ensures
        dignity_of(p, s) == Dignity::Peregrine <==> !(match p {
            Planet::Sun => s == Sign::Leo || s == Sign::Aries || s == Sign::Aquarius || s
                == Sign::Libra,
            Planet::Moon => s == Sign::Cancer || s == Sign::Taurus || s == Sign::Capricorn || s
                == Sign::Scorpio,
            Planet::Mercury => s == Sign::Gemini || s == Sign::Virgo || s == Sign::Sagittarius
                || s == Sign::Pisces,
            Planet::Venus => s == Sign::Taurus || s == Sign::Libra || s == Sign::Pisces || s
                == Sign::Scorpio || s == Sign::Aries || s == Sign::Virgo,
            Planet::Mars => s == Sign::Aries || s == Sign::Scorpio || s == Sign::Capricorn || s
                == Sign::Libra || s == Sign::Taurus || s == Sign::Cancer,
            Planet::Jupiter => s == Sign::Sagittarius || s == Sign::Pisces || s == Sign::Cancer
                || s == Sign::Gemini || s == Sign::Virgo || s == Sign::Capricorn,
            Planet::Saturn => s == Sign::Capricorn || s == Sign::Aquarius || s == Sign::Libra
                || s == Sign::Cancer || s == Sign::Leo || s == Sign::Aries,
        }),
{
}

/// The ephemeris numbers: Sun 0, Moon 1, Mercury 2, Venus 3, Mars 4,
/// Jupiter 5, Saturn 6, Uranus 7, Neptune 8, Pluto 9; each chart planet is
/// computed from the body of the same name, and the chart lists the seven
/// planets from the Sun to Saturn.
pub proof fn lemma_body_numbers()
    ensures
        body_index(Body::Sun) == 0,
        body_index(Body::Moon) == 1,
        body_index(Body::Mercury) == 2,
        body_index(Body::Venus) == 3,
        body_index(Body::Mars) == 4,
        body_index(Body::Jupiter) == 5,
        body_index(Body::Saturn) == 6,
        body_index(Body::Uranus) == 7,
        body_index(Body::Neptune) == 8,
        body_index(Body::Pluto) == 9,
        planet_body(Planet::Sun) == Body::Sun,
        planet_body(Planet::Moon) == Body::Moon,
        planet_body(Planet::Mercury) == Body::Mercury,
        planet_body(Planet::Venus) == Body::Venus,
        planet_body(Planet::Mars) == Body::Mars,
        planet_body(Planet::Jupiter) == Body::Jupiter,
        planet_body(Planet::Saturn) == Body::Saturn,
        chart_order()[0] == Planet::Sun && chart_order()[6] == Planet::Saturn,
{
}

} // verus!
