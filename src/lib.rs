//! Decision core of a small privilege-elevation tool: who is asking, which
//! authentication backend the policy selects for them, how each backend
//! reaches its verdict, and whether the target command may be started.

pub mod exec;
pub mod identity;
pub mod pam;
pub mod pam_types;
pub mod policy;
pub mod shadow;
pub mod text;
