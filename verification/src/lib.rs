//! Secure device credential rotation: the product's facts, the device's
//! durable command protocol, the broker and credential checks in front of it,
//! and the control application's decisions.
//!
//! Everything here computes on plain values. Whoever drives the library does
//! the reading, sending and storing in between, and hands the results back.
//!
//! * [`reference`], [`model`]: product references and observed facts.
//! * [`contract`], [`client`], [`mapping`], [`journey`]: the public contract
//!   as values, its projections, and traces of it.
//! * [`identity`], [`ledger`], [`state`], [`agent`]: one device's identity and
//!   its durable command state; [`soundness`], [`protocol`], [`preimages`] and
//!   [`identity_laws`] prove what holds of them together.
//! * [`catalog`], [`catalog_path`], [`material`], [`store`]: artifacts,
//!   credentials, and where they are kept.
//! * [`assertion`], [`mqtt`], [`session`], [`wire`], [`config`]: the device's
//!   authenticated transport.
//! * [`failure`], [`locator`], [`json`], [`callback`], [`id_token`],
//!   [`login`], [`control`]: the control application.
//! * [`observation`], [`platform`]: observed request headers, and a record and
//!   an operation over platform values.
//! * [`text`], [`digest`], [`display`], [`nonzero`]: shared vocabulary.
//!
//! What the operations are for is stated apart from how they are defined, as
//! laws over what a call is given and what it returns:
//!
//! * [`command_laws`], [`fact_laws`], [`state_laws`]: what becomes of a
//!   command, of the facts it leaves, and of the state that holds them.
//! * [`contract_laws`], [`model_laws`], [`reference_laws`],
//!   [`projection_laws`]: what is told of the public contract.
//! * [`transport_laws`], [`session_laws`]: which frames count, and what a
//!   session does next.
//! * [`setup_laws`], [`value_laws`], [`text_laws`], [`display_laws`]: what an
//!   agent is set up with, how things are named, and how they are written.
//! * [`control_laws`], [`login_laws`], [`token_laws`], [`boundary_laws`]: what
//!   the control application takes and reports, how a login ends, and what
//!   stands at the product's edges.

pub mod agent;
pub mod assertion;
pub mod boundary_laws;
pub mod callback;
pub mod catalog;
pub mod catalog_path;
pub mod client;
pub mod command_laws;
pub mod config;
pub mod contract;
pub mod contract_laws;
pub mod control;
pub mod control_laws;
pub mod digest;
pub mod display;
pub mod display_laws;
pub mod fact_laws;
pub mod failure;
pub mod id_token;
pub mod identity;
pub mod identity_laws;
pub mod journey;
pub mod json;
pub mod ledger;
pub mod locator;
pub mod login;
pub mod login_laws;
pub mod mapping;
pub mod material;
pub mod model;
pub mod model_laws;
pub mod mqtt;
pub mod nonzero;
pub mod observation;
pub mod platform;
pub mod preimages;
pub mod projection_laws;
pub mod protocol;
pub mod reference;
pub mod reference_laws;
pub mod session;
pub mod session_laws;
pub mod setup_laws;
pub mod soundness;
pub mod state;
pub mod state_laws;
pub mod store;
pub mod text;
pub mod text_laws;
pub mod token_laws;
pub mod transport_laws;
pub mod value_laws;
pub mod wire;
