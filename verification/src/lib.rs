//! Query-side logic of a transaction indexer web service: the parsing of
//! query parameters, the token filter over transfer data, the assembly of
//! responses and the description of the database queries.

pub mod text;
pub mod kind;
pub mod dto;
pub mod entity;
pub mod json;
pub mod token_filter;
pub mod handler;
pub mod repository;
pub mod pagination;
