//! A user of the Delivery server.
use vstd::prelude::*;
use crate::config::{Config, field, user_missing};
use crate::errors::{DeliveryError, DeliveryResult, Kind, missing};
use crate::text::owned;

verus! {

/// A user as the server describes them.
#[derive(Debug)]
pub struct User {
    pub first: String,
    pub last: String,
    pub name: String,
    pub email: String,
    pub user_type: String,
    ssh_pub_key: String,
}

/// The view of a user.
pub struct UserView {
    pub first: Seq<char>,
    pub last: Seq<char>,
    pub name: Seq<char>,
    pub email: Seq<char>,
    pub user_type: Seq<char>,
    pub ssh_pub_key: Seq<char>,
}

impl View for User {
    type V = UserView;

    closed spec fn view(&self) -> UserView {
        UserView {
            first: self.first@,
            last: self.last@,
            name: self.name@,
            email: self.email@,
            user_type: self.user_type@,
            ssh_pub_key: self.ssh_pub_key@,
        }
    }
}

impl Default for User {
    fn default() -> (r: User)
        ensures
            r@.first.len() == 0,
            r@.last.len() == 0,
            r@.name.len() == 0,
            r@.email.len() == 0,
            r@.user_type == "internal"@,
            r@.ssh_pub_key.len() == 0,
    {
        User {
            first: String::new(),
            last: String::new(),
            name: String::new(),
            email: String::new(),
            ssh_pub_key: String::new(),
            user_type: owned("internal"),
        }
    }
}

impl User {
    /// A user from all that describes them.
    pub fn new(first: &str, last: &str, name: &str, email: &str, user_type: &str, ssh_pub_key: &str) -> (r: User)
        ensures
            r@ == (UserView {
                first: first@,
                last: last@,
                name: name@,
                email: email@,
                user_type: user_type@,
                ssh_pub_key: ssh_pub_key@,
            }),
    {
        User {
            first: owned(first),
            last: owned(last),
            name: owned(name),
            email: owned(email),
            user_type: owned(user_type),
            ssh_pub_key: owned(ssh_pub_key),
        }
    }

    /// Whether the server knows a public SSH key of the user.
    pub fn verify_pub_key(&self) -> (r: bool)
        ensures
            r == (self@.ssh_pub_key.len() > 0),
    {
        !crate::config::is_empty(self.ssh_pub_key.as_str())
    }

    /// Sets the user's public SSH key.
    pub fn set_ssh_pub_key(&mut self, key: &str)
        ensures
            final(self)@ == (UserView { ssh_pub_key: key@, ..old(self)@ }),
    {
        self.ssh_pub_key = owned(key);
    }

    /// The user to load: `username` when given, else the configured user
    /// (which must then be set).
    pub fn load_target(config: &Config, username: Option<&str>) -> (r: DeliveryResult<String>)
        ensures
            match field(config@.user, user_missing()) {
                Err(m) => missing(r, m),
                Ok(u) => r matches Ok(n) && n@ == (match username {
                    Some(x) => x@,
                    None => u,
                }),
            },
    {
        let c_user = config.user()?;
        match username {
            Some(n) => Ok(owned(n)),
            None => Ok(c_user),
        }
    }

    /// A user the server does not know is an error that names them.
    pub fn exists_outcome(name: &str, exists: bool) -> (r: DeliveryResult<()>)
        ensures
            exists ==> r is Ok,
            !exists ==> (r matches Err(e) && e.kind matches Kind::UserNotFound(n) && n@ == name@ && e.detail is None),
    {
        if exists {
            Ok(())
        } else {
            Err(DeliveryError::throw(Kind::UserNotFound(owned(name)), None))
        }
    }
}

} // verus!
