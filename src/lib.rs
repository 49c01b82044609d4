//! A hardened static file server's request logic: path normalization, the
//! picky file-access policy, variant selection and response planning.
pub mod normalize;
pub mod policy;
pub mod select;
pub mod respond;
pub mod credentials;
pub mod privilege;
