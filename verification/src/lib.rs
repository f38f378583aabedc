//! A two-player line-forming board game on a 15x15 grid: board state and
//! win detection, a heuristic move-search engine, a session coordinator
//! that serializes moves and fans out events, and user bookkeeping.

pub mod ai;
pub mod board;
pub mod message;
pub mod session;
pub mod user;

pub use board::Board;
pub use board::GameError;
pub use board::Move;
pub use board::Outcome;
pub use board::PlayerRole;
pub use message::GameMessage;
pub use message::Outgoing;
pub use message::handle_game_message;
pub use session::Game;
pub use user::User;
pub use user::UserManager;
pub use user::UserSession;
