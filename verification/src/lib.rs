//! Server-side movement for a networked space game, in deterministic
//! fixed-point arithmetic.
//!
//! Every quantity is an integer, so that the authority and every peer that
//! replays a tick compute the same forces bit for bit. Fractions and unit
//! vectors are stored in thousandths ([`vector::UNIT`] stands for one).
//!
//! One fixed step runs, for every client that sent input, the stages
//! orientation, classification, strength, combination and application,
//! after the batch of inputs has been reduced to the latest one per client.

pub mod vector;

pub mod stages;

pub mod player;

pub mod info_gathering;

pub mod info_processors;

pub mod info_enactors;

pub mod thrust;

pub mod seen;

pub mod reconcile;

pub mod netcode;

pub mod start_screen;

pub mod main_plugin;
