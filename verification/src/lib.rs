//! Core simulation of a wave-survival arcade game: enemies advance in
//! escalating waves, the player fires card-driven projectiles, and a
//! stack of modifiers reshapes damage, healing, stun and pierce rules.
//!
//! All quantities are exact integers: positions in micro-tiles, times in
//! milliseconds, speeds in micro-tiles per second (or per millisecond for
//! projectiles), probabilities as integer thresholds on uniform rolls, and
//! health and damage in whole points. Rendering, audio and input polling
//! live outside this crate; randomness enters only through the narrow
//! wrappers in `rng`.

pub mod bullet;
pub mod consts;
pub mod deck;
pub mod enemy;
pub mod event;
pub mod game_state;
pub mod geom;
pub mod hand;
pub mod hitbox;
pub mod laws;
pub mod player;
pub mod powerup;
pub mod rng;
pub mod session;
pub mod timer;
pub mod util;
pub mod weapon;
pub mod world;
