use astro_aski::planet::{body_from_index, charted_planets, Body, Dignity, Planet};
use astro_aski::zodiac::{sign_from_index, Sign};

const ALL_PLANETS: [Planet; 7] = [
    Planet::Sun,
    Planet::Moon,
    Planet::Mercury,
    Planet::Venus,
    Planet::Mars,
    Planet::Jupiter,
    Planet::Saturn,
];

#[test]
fn body_from_index_maps_ephemeris_numbers() {
    assert_eq!(body_from_index(0), Some(Body::Sun));
    assert_eq!(body_from_index(1), Some(Body::Moon));
    assert_eq!(body_from_index(2), Some(Body::Mercury));
    assert_eq!(body_from_index(3), Some(Body::Venus));
    assert_eq!(body_from_index(4), Some(Body::Mars));
    assert_eq!(body_from_index(5), Some(Body::Jupiter));
    assert_eq!(body_from_index(6), Some(Body::Saturn));
    assert_eq!(body_from_index(7), Some(Body::Uranus));
    assert_eq!(body_from_index(8), Some(Body::Neptune));
    assert_eq!(body_from_index(9), Some(Body::Pluto));
}

#[test]
fn body_from_index_rejects_other_numbers() {
    assert_eq!(body_from_index(-1), None);
    assert_eq!(body_from_index(10), None);
    assert_eq!(body_from_index(i32::MIN), None);
    assert_eq!(body_from_index(i32::MAX), None);
}

#[test]
fn body_index_round_trip() {
    for i in 0..10 {
        let b = body_from_index(i).unwrap();
        assert_eq!(b.index(), i);
    }
}

#[test]
fn charted_planets_in_order() {
    assert_eq!(charted_planets(), ALL_PLANETS.to_vec());
    for (i, p) in charted_planets().iter().enumerate() {
        assert_eq!(p.body().index(), i as i32);
    }
}

#[test]
fn dignities_of_the_sun() {
    assert_eq!(Planet::Sun.dignity(&Sign::Leo), Dignity::Domicile);
    assert_eq!(Planet::Sun.dignity(&Sign::Aries), Dignity::Exaltation);
    assert_eq!(Planet::Sun.dignity(&Sign::Aquarius), Dignity::Detriment);
    assert_eq!(Planet::Sun.dignity(&Sign::Libra), Dignity::Fall);
    assert_eq!(Planet::Sun.dignity(&Sign::Gemini), Dignity::Peregrine);
}

#[test]
fn overlapping_dignities_of_mercury() {
    assert_eq!(Planet::Mercury.dignity(&Sign::Virgo), Dignity::Domicile);
    assert_eq!(Planet::Mercury.dignity(&Sign::Gemini), Dignity::Domicile);
    assert_eq!(Planet::Mercury.dignity(&Sign::Pisces), Dignity::Detriment);
    assert_eq!(Planet::Mercury.dignity(&Sign::Sagittarius), Dignity::Detriment);
    assert_eq!(Planet::Mercury.dignity(&Sign::Aries), Dignity::Peregrine);
}

#[test]
fn more_dignities() {
    assert_eq!(Planet::Moon.dignity(&Sign::Taurus), Dignity::Exaltation);
    assert_eq!(Planet::Moon.dignity(&Sign::Scorpio), Dignity::Fall);
    assert_eq!(Planet::Venus.dignity(&Sign::Pisces), Dignity::Exaltation);
    assert_eq!(Planet::Venus.dignity(&Sign::Virgo), Dignity::Fall);
    assert_eq!(Planet::Mars.dignity(&Sign::Capricorn), Dignity::Exaltation);
    assert_eq!(Planet::Mars.dignity(&Sign::Taurus), Dignity::Detriment);
    assert_eq!(Planet::Jupiter.dignity(&Sign::Cancer), Dignity::Exaltation);
    assert_eq!(Planet::Jupiter.dignity(&Sign::Capricorn), Dignity::Fall);
    assert_eq!(Planet::Saturn.dignity(&Sign::Libra), Dignity::Exaltation);
    assert_eq!(Planet::Saturn.dignity(&Sign::Aries), Dignity::Fall);
    assert_eq!(Planet::Saturn.dignity(&Sign::Leo), Dignity::Detriment);
}

#[test]
fn detriment_is_opposite_domicile() {
    for p in ALL_PLANETS.iter() {
        let mut domiciles: u32 = 0;
        let mut exaltations: u32 = 0;
        for i in 0..12usize {
            let s = sign_from_index(i);
            let opposite = sign_from_index(i + 6);
            assert_eq!(
                p.dignity(&s) == Dignity::Domicile,
                p.dignity(&opposite) == Dignity::Detriment
            );
            if p.dignity(&s) == Dignity::Domicile {
                domiciles += 1;
            }
            if p.dignity(&s) == Dignity::Exaltation {
                exaltations += 1;
                let d = p.dignity(&opposite);
                assert!(d == Dignity::Fall || d == Dignity::Detriment);
            }
        }
        assert!(domiciles == 1 || domiciles == 2);
        assert!(exaltations <= 1);
    }
}
