//! Verified core of the audit application: sign-in and the identity vault,
//! input validation, the engagement dashboard roll-ups, cloning library
//! controls and installing library bundles, finding and evidence decisions,
//! matcher dispatch and reporting, CSV metadata and blob framing. Database
//! access, the file system and the desktop shell live outside this crate.

pub mod error;
pub mod text;
pub mod codec;
pub mod crypto;
pub mod keyvault;
pub mod auth;
pub mod engagements;
pub mod coverage;
pub mod overview;
pub mod attention;
pub mod findings;
pub mod testing;
pub mod csv;
pub mod blobs;
pub mod ids;
pub mod library_clone;
pub mod rules;
pub mod audit;
pub mod clients;
pub mod evidence;
pub mod library_install;
pub mod library;
pub mod identity;
pub mod migrations;
