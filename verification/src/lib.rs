//! Verified core of the NerdNuggets research-funding backend: status codes,
//! notification catalogues, request and response records, identifier and
//! username rules, and the decisions that the services take between their
//! database round trips.

pub mod admin_flow;
pub mod apple;
pub mod archive;
pub mod bounty;
pub mod bounty_service;
pub mod calendar;
pub mod categories;
pub mod chain_events;
pub mod city_list;
pub mod commons;
pub mod donation_flow;
pub mod dto;
pub mod env;
pub mod error;
pub mod ids;
pub mod index_store;
pub mod listing;
pub mod mail;
pub mod models;
pub mod notices;
pub mod notification;
pub mod paper_info;
pub mod places;
pub mod parse;
pub mod prediction;
pub mod project_flow;
pub mod push;
pub mod query;
pub mod records;
pub mod repository;
pub mod research_check;
pub mod service;
pub mod speech;
pub mod subscription;
pub mod text;
pub mod types;
pub mod user_flow;
pub mod username;
