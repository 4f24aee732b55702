//! Appends a PKCS#7/CMS signature trailer to a loadable kernel module image,
//! in the layout that the kernel's module loader checks at load time.

pub mod crypto;
pub mod error;
pub mod options;
pub mod signer;
pub mod trailer;
