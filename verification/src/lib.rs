//! Verified core of the maangframe multi-tenant web platform.

pub mod text;
pub mod hexenc;
pub mod crypto;
pub mod random;
pub mod clock;
pub mod passwords;
pub mod sessions;
pub mod csrf;
pub mod ratelimit;
pub mod jobs;
pub mod html;
pub mod email;
pub mod storage;
pub mod labels;
pub mod accounts;
pub mod content;
pub mod billing;
pub mod webhook_signature;
pub mod provision;
pub mod web;
pub mod health;
pub mod archive_files;
pub mod archive_maang;
pub mod release;
pub mod tenant_ops;
pub mod snapshots;
