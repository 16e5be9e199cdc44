use vstd::prelude::*;

verus! {

/// The twelve signs of the zodiac, in zodiac order starting at Aries.
/// Each sign covers thirty degrees of ecliptic longitude.
#[derive(Clone, Copy, Debug, PartialEq, Eq, Structural)]
pub enum Sign {
    Aries,
    Taurus,
    Gemini,
    Cancer,
    Leo,
    Virgo,
    Libra,
    Scorpio,
    Sagittarius,
    Capricorn,
    Aquarius,
    Pisces,
}

/// The four classical elements.
#[derive(Clone, Copy, Debug, PartialEq, Eq, Structural)]
pub enum Element {
    Fire,
    Earth,
    Air,
    Water,
}

/// The sign at zodiac position `n` (0 is Aries), counted modulo twelve.
pub open spec fn sign_at(n: int) -> Sign {
    let k = n % 12;
    if k == 0 {
        Sign::Aries
    } else if k == 1 {
        Sign::Taurus
    } else if k == 2 {
        Sign::Gemini
    } else if k == 3 {
        Sign::Cancer
    } else if k == 4 {
        Sign::Leo
    } else if k == 5 {
        Sign::Virgo
    } else if k == 6 {
        Sign::Libra
    } else if k == 7 {
        Sign::Scorpio
    } else if k == 8 {
        Sign::Sagittarius
    } else if k == 9 {
        Sign::Capricorn
    } else if k == 10 {
        Sign::Aquarius
    } else {
        Sign::Pisces
    }
}

/// The position of a sign in the zodiac, Aries being 0 and Pisces 11.
pub open spec fn sign_index(s: Sign) -> nat {
    match s {
        Sign::Aries => 0,
        Sign::Taurus => 1,
        Sign::Gemini => 2,
        Sign::Cancer => 3,
        Sign::Leo => 4,
        Sign::Virgo => 5,
        Sign::Libra => 6,
        Sign::Scorpio => 7,
        Sign::Sagittarius => 8,
        Sign::Capricorn => 9,
        Sign::Aquarius => 10,
        Sign::Pisces => 11,
    }
}

/// The element of the sign at zodiac position `n`: the elements follow one
/// another as fire, earth, air, water, starting with Aries.
pub open spec fn element_at(n: int) -> Element {
    let k = n % 4;
    if k == 0 {
        Element::Fire
    } else if k == 1 {
        Element::Earth
    } else if k == 2 {
        Element::Air
    } else {
        Element::Water
    }
}

/// The sign opposite `s`, six signs (180 degrees) away.
pub open spec fn opposite(s: Sign) -> Sign {
    sign_at(sign_index(s) as int + 6)
}

/// The sign of the thirty-degree segment with the given index, counted from
/// 0 degrees Aries; the index wraps around every twelve segments.
pub fn sign_from_index(index: usize) -> (s: Sign)
    ensures
        s == sign_at(index as int),
{
    match index % 12 {
        0 => Sign::Aries,
        1 => Sign::Taurus,
        2 => Sign::Gemini,
        3 => Sign::Cancer,
        4 => Sign::Leo,
        5 => Sign::Virgo,
        6 => Sign::Libra,
        7 => Sign::Scorpio,
        8 => Sign::Sagittarius,
        9 => Sign::Capricorn,
        10 => Sign::Aquarius,
        _ => Sign::Pisces,
    }
}

impl Sign {
    /// The position of this sign in the zodiac, Aries being 0 and Pisces 11.
    pub fn index(&self) -> (i: usize)
        ensures
            i == sign_index(*self),
            i < 12,
    {
        match self {
            Sign::Aries => 0,
            Sign::Taurus => 1,
            Sign::Gemini => 2,
            Sign::Cancer => 3,
            Sign::Leo => 4,
            Sign::Virgo => 5,
            Sign::Libra => 6,
            Sign::Scorpio => 7,
            Sign::Sagittarius => 8,
            Sign::Capricorn => 9,
            Sign::Aquarius => 10,
            Sign::Pisces => 11,
        }
    }

    /// The element of this sign.
    pub fn element(&self) -> (e: Element)
        ensures
            e == element_at(sign_index(*self) as int),
    {
        match self {
            Sign::Aries | Sign::Leo | Sign::Sagittarius => Element::Fire,
            Sign::Taurus | Sign::Virgo | Sign::Capricorn => Element::Earth,
            Sign::Gemini | Sign::Libra | Sign::Aquarius => Element::Air,
            Sign::Cancer | Sign::Scorpio | Sign::Pisces => Element::Water,
        }
    }
}

/// Every sign is the sign of its own index, and the index of the sign at
/// position `n` is `n` modulo twelve: the two numberings agree.
pub proof fn lemma_sign_index_round_trip(s: Sign, n: int)
    ensures
        sign_at(sign_index(s) as int) == s,
        sign_index(s) < 12,
        sign_index(sign_at(n)) == n % 12,
{
}

/// Segments twelve apart fall in the same sign: the zodiac wraps around
/// every 360 degrees.
pub proof fn lemma_sign_wraps(n: int)
    ensures
        sign_at(n + 12) == sign_at(n),
{
    assert((n + 12) % 12 == n % 12);
}

/// Signs four apart (in trine, 120 degrees) share their element, and each
/// element is held by exactly the three signs of one trine.
pub proof fn lemma_trine_shares_element(n: int)
    ensures
        element_at(n + 4) == element_at(n),
        element_at(n) == element_at(n % 12),
{
    assert((n + 4) % 4 == n % 4);
    assert((n % 12) % 4 == n % 4) by {
        vstd::arithmetic::div_mod::lemma_mod_mod(n, 4, 3);
    }
}

/// Opposition is an involution: the sign opposite the opposite sign is the
/// sign itself, and no sign is its own opposite.
pub proof fn lemma_opposite_involution(s: Sign)
    ensures
        opposite(opposite(s)) == s,
        opposite(s) != s,
{
}

/// The zodiac runs Aries, Taurus, Gemini, Cancer, Leo, Virgo, Libra,
/// Scorpio, Sagittarius, Capricorn, Aquarius, Pisces, starting again after
/// Pisces; the segment index of every sign is its place in that list.
pub proof fn lemma_zodiac_order(n: int)
    ensures
        sign_at(n) == sign_at(n % 12),
        sign_at(0) == Sign::Aries,
        sign_at(1) == Sign::Taurus,
        sign_at(2) == Sign::Gemini,
        sign_at(3) == Sign::Cancer,
        sign_at(4) == Sign::Leo,
        sign_at(5) == Sign::Virgo,
        sign_at(6) == Sign::Libra,
        sign_at(7) == Sign::Scorpio,
        sign_at(8) == Sign::Sagittarius,
        sign_at(9) == Sign::Capricorn,
        sign_at(10) == Sign::Aquarius,
        sign_at(11) == Sign::Pisces,
        sign_index(Sign::Aries) == 0 && sign_index(Sign::Pisces) == 11,
        opposite(Sign::Aries) == Sign::Libra && opposite(Sign::Cancer) == Sign::Capricorn,
{
    assert((n % 12) % 12 == n % 12);
}

/// The fire signs are Aries, Leo and Sagittarius; the earth signs Taurus,
/// Virgo and Capricorn; the air signs Gemini, Libra and Aquarius; the water
/// signs Cancer, Scorpio and Pisces.
pub proof fn lemma_element_table(s: Sign)
    ensures
        element_at(sign_index(s) as int) == Element::Fire <==> (s == Sign::Aries || s == Sign::Leo
            || s == Sign::Sagittarius),
        element_at(sign_index(s) as int) == Element::Earth <==> (s == Sign::Taurus || s
            == Sign::Virgo || s == Sign::Capricorn),
        element_at(sign_index(s) as int) == Element::Air <==> (s == Sign::Gemini || s
            == Sign::Libra || s == Sign::Aquarius),
        element_at(sign_index(s) as int) == Element::Water <==> (s == Sign::Cancer || s
            == Sign::Scorpio || s == Sign::Pisces),
{
}

} // verus!
