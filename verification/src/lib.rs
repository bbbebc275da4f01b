//! Resolution of reference names in a content-addressed object store.
//!
//! A partial name such as `main` is validated, expanded into candidate
//! paths in priority order, looked up in a [`store::Store`], decoded into
//! a [`reference::Reference`] and, where that reference is symbolic,
//! followed hop by hop to the object id at the end of the chain.

pub mod bytes;
pub mod hash;
pub mod validate;
pub mod safe_name;
pub mod reference;
pub mod decode;
pub mod store;
pub mod find_one;
pub mod peel;
pub mod laws;
pub mod handle;
