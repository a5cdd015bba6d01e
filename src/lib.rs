//! Card-feed engine: card model, altitude classifier, parking scheduler,
//! feed composer, event bus and the mail triage rules that produce cards.

pub mod card;
pub mod text;
pub mod ids;
pub mod altimeter;
pub mod parking;
pub mod registry;
pub mod feed;
pub mod bus;
pub mod mail;
pub mod service;
pub mod slack;
pub mod intents;
pub mod demo;
pub mod lifecycle;
pub mod hub;
