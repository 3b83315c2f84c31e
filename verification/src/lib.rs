//! Core of a Helm-plugin style publishing tool: the credential and
//! configuration store.  The crate models the two on-disk documents — an
//! authentication document mapping contexts to credentials, and a project
//! configuration document mapping registries and repositories — together
//! with the small string grammars (credential representations, `owner/repo`
//! paths, certificate references) that feed them.

pub mod api;
pub mod auth;
pub mod config;
pub mod entries;
pub mod http;
pub mod name;
pub mod text;
