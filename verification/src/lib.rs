//! Source text for CRUD backends, generated from a table schema, and the
//! decisions of the users service that such a backend is built around.
//!
//! The generator turns one table into three artifacts: a storage entity, the
//! input DTOs with their validation rules, and handlers whose SQL parameters
//! follow one canonical column order. A table is loaded by [`schema`]; its
//! columns become fields in [`mapping`] and get their wire names in
//! [`naming`]; [`bind_order`] decides the order of every parameter list and
//! [`statement`] writes the SQL; [`entity`], [`dto`] and [`handler`] render
//! the text over what [`render`] and [`text`] offer; [`generate`] runs the
//! whole.
//!
//! What the emitted handlers do at run time is decided here as well:
//! [`validation`] runs the declared rules, [`outcome`] says whether storage is
//! called and what its result means, and [`pagination`] fills in a page.
//!
//! The users service: its rows and inputs ([`models`], [`usuarios`]), its
//! settings ([`config`]) and errors ([`error`]), the slot of its connection
//! pool ([`pool`]), what its routes decide ([`api`], [`response`]) and what
//! its repository hands to storage ([`repository`]).

pub mod api;
pub mod bind_order;
pub mod config;
pub mod dto;
pub mod entity;
pub mod error;
pub mod generate;
pub mod handler;
pub mod mapping;
pub mod models;
pub mod naming;
pub mod outcome;
pub mod pagination;
pub mod pool;
pub mod render;
pub mod repository;
pub mod response;
pub mod schema;
pub mod statement;
pub mod text;
pub mod usuarios;
pub mod validation;
