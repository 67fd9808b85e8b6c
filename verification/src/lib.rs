//! A swarm of card-game bots: the election that lets concurrently connecting
//! clients agree on one lobby, and the state machine that each client runs
//! over its connection to the game server.

pub mod card;
pub mod client;
pub mod election;
pub mod message;
pub mod play;
pub mod session;
pub mod swarm;
