//! Domain logic of a natal-chart library: zodiac signs and their elements,
//! the chart's planets and their essential dignities, the ephemeris bodies
//! addressed by index, aspects between planets, and the queue of drawing
//! commands that a renderer replays.

pub mod aspect;
pub mod draw;
pub mod planet;
pub mod zodiac;
