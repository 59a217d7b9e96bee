//! Score keeping for a table of players: each player owns one score per
//! category, and a store applies messages to the roster one at a time.

pub mod player;
pub mod score;
pub mod store;
pub mod util;

pub use player::Player;
pub use score::Score;
pub use store::Message;
pub use store::WingScore;
