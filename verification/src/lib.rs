//! The aggregation core of a desktop status surface.
//!
//! Several unlike sources of system state are watched: power, network,
//! volume, microphone, brightness, a notification log and two configuration
//! files. What they yield is noisy and differently shaped. This library
//! turns it into a small set of deduplicated events and turns those events
//! into render commands.
//!
//! The library decides and never waits, reads or draws. Whoever uses it
//! reads the files, runs the commands and sleeps between probes; it hands
//! the library what was read, and carries out what the library returns.
//!
//! * Probes: [`power`], [`network`], [`audio`], [`backlight`], [`launcher`],
//!   [`layout`], [`notification`], built on [`text`] and [`decimal`]; what
//!   can go wrong is named in [`failure`].
//! * Change detection and scheduling: [`detector`], [`monitor`], [`sources`].
//! * Events and their consumer: [`event`], [`reducer`], with [`debounce`],
//!   [`animation`] and [`banner`], and the commands of [`render`].
//! * What is shown beside that: [`status`], [`panel`], [`clock`],
//!   [`phrases`].

pub mod failure;
pub mod text;
pub mod decimal;

pub mod power;
pub mod network;
pub mod audio;
pub mod backlight;
pub mod launcher;
pub mod layout;
pub mod notification;

pub mod detector;
pub mod monitor;
pub mod sources;

pub mod event;
pub mod render;
pub mod debounce;
pub mod animation;
pub mod banner;
pub mod reducer;

pub mod status;
pub mod panel;
pub mod clock;
pub mod phrases;
