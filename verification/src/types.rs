use vstd::prelude::*;
use crate::yaml::Yaml;

verus! {

/// The connection data of one named cluster.
#[derive(Debug)]
pub struct ClusterDetails {
    pub server: String,
    pub certificate_authority_data: Option<String>,
}

/// A named cluster entry of the document.
#[derive(Debug)]
pub struct Cluster {
    pub name: String,
    pub cluster: ClusterDetails,
}

/// A user's credentials: exactly one of a bearer token or a client
/// certificate pair, told apart by which fields its serialized form carries.
#[derive(Debug)]
pub enum UserAuth {
    Token { token: String },
    Certificate { client_certificate_data: String, client_key_data: String },
}

/// The credential block of one named user.
#[derive(Debug)]
pub struct UserDetails {
    pub auth: UserAuth,
}

/// A named user entry of the document.
#[derive(Debug)]
pub struct User {
    pub name: String,
    pub user: UserDetails,
}

/// The pair of names a context ties together.  Both are soft references:
/// they may dangle and nothing here enforces that they resolve.
#[derive(Debug)]
pub struct ContextDetails {
    pub user: String,
    pub cluster: String,
}

/// A named context entry of the document.
#[derive(Debug)]
pub struct Context {
    pub name: String,
    pub context: ContextDetails,
}

/// The in-memory form of the configuration document: the three managed
/// lists, the optional current-context name, and the optional preferences
/// block, which is carried through untouched.  Top-level fields the tool
/// does not model never enter this type; saving overlays the managed lists
/// onto the on-disk tree, so those fields survive unchanged.
#[derive(Debug)]
pub struct Config {
    pub clusters: Vec<Cluster>,
    pub users: Vec<User>,
    pub contexts: Vec<Context>,
    pub current_context: Option<String>,
    pub preferences: Option<Yaml>,
}

/// The minimal sub-document handed to the external editor for one edit
/// round-trip: one cluster, the context tied to it (if one resolves), and
/// the user that context names (if one resolves).
#[derive(Debug)]
pub struct TempConfig {
    pub cluster: Cluster,
    pub context: Option<Context>,
    pub user: Option<User>,
}

impl Clone for ClusterDetails {
    fn clone(&self) -> (r: Self)
        ensures
            r == *self,
    {
        ClusterDetails {
            server: self.server.clone(),
            certificate_authority_data: match &self.certificate_authority_data {
                Some(s) => Some(s.clone()),
                None => None,
            },
        }
    }
}

impl Clone for Cluster {
    fn clone(&self) -> (r: Self)
        ensures
            r == *self,
    {
        Cluster { name: self.name.clone(), cluster: self.cluster.clone() }
    }
}

impl Clone for UserAuth {
    fn clone(&self) -> (r: Self)
        ensures
            r == *self,
    {
        match self {
            UserAuth::Token { token } => UserAuth::Token { token: token.clone() },
            UserAuth::Certificate { client_certificate_data, client_key_data } => {
                UserAuth::Certificate {
                    client_certificate_data: client_certificate_data.clone(),
                    client_key_data: client_key_data.clone(),
                }
            },
        }
    }
}

impl Clone for UserDetails {
    fn clone(&self) -> (r: Self)
        ensures
            r == *self,
    {
        UserDetails { auth: self.auth.clone() }
    }
}

impl Clone for User {
    fn clone(&self) -> (r: Self)
        ensures
            r == *self,
    {
        User { name: self.name.clone(), user: self.user.clone() }
    }
}

impl Clone for ContextDetails {
    fn clone(&self) -> (r: Self)
        ensures
            r == *self,
    {
        ContextDetails { user: self.user.clone(), cluster: self.cluster.clone() }
    }
}

impl Clone for Context {
    fn clone(&self) -> (r: Self)
        ensures
            r == *self,
    {
        Context { name: self.name.clone(), context: self.context.clone() }
    }
}

} // verus!
