//! Named git identity profiles: validation, the identity index that keeps
//! username/email pairs unique, ssh key lifecycle decisions and the git
//! identity switch. File, process and network access stay with the caller;
//! every function here computes on plain values.

pub mod paths;
pub mod codec;
pub mod index;
pub mod profile;
pub mod num;
pub mod keys;
pub mod git;
