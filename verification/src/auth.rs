//! Authentication context handed to the transport with every request.
//!
//! The pagination engine treats these values as opaque: it stores a token at
//! construction and attaches it, unchanged, to every request it describes.

use vstd::prelude::*;

verus! {

/// A consumer or access key with its secret.
pub struct KeyPair {
    pub key: String,
    pub secret: String,
}

impl Clone for KeyPair {
    fn clone(&self) -> (r: Self)
        ensures
            r == *self,
    {
        KeyPair { key: self.key.clone(), secret: self.secret.clone() }
    }
}

impl KeyPair {
    /// Bundles a key and its secret.
    pub fn new(key: String, secret: String) -> (r: KeyPair)
        ensures
            r.key == key,
            r.secret == secret,
    {
        KeyPair { key, secret }
    }
}

/// The credentials attached to every request: either an application-only
/// bearer token or a consumer/access key pair.
pub enum Token {
    Bearer(String),
    Access { consumer: KeyPair, access: KeyPair },
}

impl Clone for Token {
    fn clone(&self) -> (r: Self)
        ensures
            r == *self,
    {
        match self {
            Token::Bearer(b) => Token::Bearer(b.clone()),
            Token::Access { consumer, access } => Token::Access {
                consumer: consumer.clone(),
                access: access.clone(),
            },
        }
    }
}

} // verus!
