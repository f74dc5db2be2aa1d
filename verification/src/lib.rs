pub mod cookies;
pub mod dto;
pub mod error;
pub mod models;
pub mod policy;
pub mod responses;
pub mod seqs;
pub mod state;
pub mod store;
pub mod text;
pub mod trusted;
pub mod shared;
pub mod auth;
pub mod guard;
pub mod sources;
pub mod admin;
pub mod laws;
pub mod organizers;
pub mod json;
pub mod events;
pub mod email;
pub mod cache;
pub mod newsletter;
pub mod queries;
pub mod ical;
pub mod ordering;
pub mod audit;
