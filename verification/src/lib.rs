pub mod text;
pub mod keyed;
pub mod member_id;
pub mod permissions;
pub mod validation;
pub mod dates;
pub mod membership_rules;
pub mod rate_limit;
pub mod receipt;
pub mod approval_labels;
pub mod audit;
pub mod whatsapp;
pub mod crypto;
pub mod encrypt;
pub mod auth;
pub mod temp_password;
pub mod razorpay;
pub mod webhook;
pub mod membership_service;
pub mod approval_service;
pub mod sql;
pub mod repositories;
pub mod api;
pub mod member_service;
pub mod transaction_service;
pub mod sponsor_service;
pub mod notification_service;
pub mod receipt_service;
pub mod scheduler;
pub mod models;
pub mod bootstrap;
