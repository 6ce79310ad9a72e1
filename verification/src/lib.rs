//! Access control and quota enforcement for a file-hosting service.
//!
//! Every decision the service takes at its boundary is a function of this
//! crate: who a credential belongs to, whether an upload fits the caller's
//! subscription tier, whether a file may be read, and what has to be written
//! to the store afterwards. The functions work on plain values; reading and
//! writing the store is left to the caller.
//!
//! The core is made of five parts:
//!
//! - `tier`: the subscription tiers, their ceilings, and the table from plan
//!   identifiers to tiers;
//! - `credentials`: from a header and the rows of a lookup to a principal;
//! - `quota` and `uploads`: whether an upload is admitted, and what an
//!   admitted upload writes;
//! - `view_tokens`: issuing and redeeming the tokens that open
//!   password-protected files;
//! - `access`: whether a file may be read, and whether the read counts.
//!
//! Around it stand the operations on accounts (`account`, `auth`), on upload
//! tokens (`upload_tokens`) and on subscriptions (`billing`), the values they
//! exchange (`principal`, `files`, `payloads`, `errors`), and what they lean
//! on: hashing (`password`), random secrets (`string_generator`), the
//! validation of colours (`verify_hex_color`), configuration (`settings`) and
//! helpers on text (`text`).
//!
//! Three things are taken on trust, each where it is used: that `bcrypt`
//! hashes and verifies as it documents, that `rand` draws letters and digits,
//! and that `regex` matches the one pattern it is given as its syntax says.

pub mod access;
pub mod account;
pub mod auth;
pub mod billing;
pub mod credentials;
pub mod databases;
pub mod errors;
pub mod feature_flags;
pub mod files;
pub mod format_upload_url;
pub mod password;
pub mod payloads;
pub mod principal;
pub mod quota;
pub mod settings;
pub mod string_generator;
pub mod stripe_event_payload;
pub mod text;
pub mod tier;
pub mod upload_tokens;
pub mod uploads;
pub mod verify_hex_color;
pub mod view_tokens;
