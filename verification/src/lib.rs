//! Build-time registration helper for an install-tree package index.
//!
//! Registering a package means placing two artifacts under an install root:
//! an empty marker file whose name is the package name, and a copy of the
//! package's manifest. This crate holds the verified core of that operation:
//! the computation of the destination paths, the test that decides whether a
//! registration is requested at all, and the registrar's decisions after each
//! filesystem step, including the compensating cleanup that keeps a marker
//! from outliving a failed manifest copy. The filesystem and environment
//! access themselves are left to the caller, who performs each step and hands
//! its outcome back.

pub mod paths;
pub mod registrar;
