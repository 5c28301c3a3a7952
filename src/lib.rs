pub mod configuration;
pub mod crypto_utils;
pub mod error;
pub mod errors;
pub mod ids;
pub mod service;
pub mod text;
pub mod user_controller;
pub mod user_dto;
pub mod user_entity;
pub mod user_laws;
pub mod user_model;
pub mod user_record;
pub mod user_service;
