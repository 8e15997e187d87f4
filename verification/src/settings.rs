//! The rules on a relay's settings: which credentials must be present and
//! which quality-of-service levels exist.

use vstd::prelude::*;

verus! {

/// How the relay's callers authenticate. The relay only asks whether
/// credentials must be given; it does not tell the three modes apart.
#[derive(Clone, Copy, Debug, PartialEq, Eq, Structural)]
pub enum Authentication {
    /// No authentication; nothing has to be given.
    NoAuth,
    Basic,
    Rabbit,
    Oauth,
}

impl Authentication {
    /// Every mode but `NoAuth` needs a user and a token.
    pub open spec fn needs_credentials(self) -> bool {
        self != Authentication::NoAuth
    }

    /// Whether this mode needs a user and a token.
    pub fn requires_credentials(self) -> (needed: bool)
        ensures
            needed == self.needs_credentials(),
    {
        match self {
            Authentication::NoAuth => false,
            Authentication::Basic | Authentication::Rabbit | Authentication::Oauth => true,
        }
    }
}

/// Whether the settings carry what the authentication mode needs: nothing for
/// `NoAuth`, both a user and a token for every other mode.
pub open spec fn credentials_complete(auth: Authentication, user: bool, token: bool) -> bool {
    auth.needs_credentials() ==> user && token
}

/// Whether `user` and `token` carry what `auth` needs.
pub fn credentials_satisfied(
    auth: Authentication,
    user: &Option<String>,
    token: &Option<String>,
) -> (ok: bool)
    ensures
        ok == credentials_complete(auth, user is Some, token is Some),
{
    !auth.requires_credentials() || (user.is_some() && token.is_some())
}

/// The login a broker connection is opened with: user and password are given
/// together or not at all.
pub open spec fn login_of(user: Option<String>, token: Option<String>) -> Option<(String, String)> {
    match (user, token) {
        (Some(name), Some(password)) => Some((name, password)),
        _ => None,
    }
}

/// The login a broker connection is opened with. One of the two alone is
/// dropped, and the connection is anonymous.
pub fn broker_login(user: Option<String>, token: Option<String>) -> (login: Option<
    (String, String),
>)
    ensures
        login == login_of(user, token),
{
    match (user, token) {
        (Some(name), Some(password)) => Some((name, password)),
        _ => None,
    }
}

/// The three delivery guarantees of MQTT.
#[derive(Clone, Copy, Debug, PartialEq, Eq, Structural)]
pub enum Qos {
    AtMostOnce,
    AtLeastOnce,
    ExactlyOnce,
}

impl Qos {
    /// The level as it is written in settings and on the wire.
    pub open spec fn rank(self) -> int {
        match self {
            Qos::AtMostOnce => 0,
            Qos::AtLeastOnce => 1,
            Qos::ExactlyOnce => 2,
        }
    }

    /// The level as it is written in settings and on the wire.
    pub fn level(self) -> (level: i32)
        ensures
            level == self.rank(),
    {
        match self {
            Qos::AtMostOnce => 0,
            Qos::AtLeastOnce => 1,
            Qos::ExactlyOnce => 2,
        }
    }

    /// The guarantee written as `level`, if there is one: only 0, 1 and 2 are
    /// levels.
    pub fn from_level(level: i32) -> (qos: Option<Qos>)
        ensures
            qos is Some <==> 0 <= level <= 2,
            qos matches Some(found) ==> found.rank() == level,
    {
        if level == 0 {
            Some(Qos::AtMostOnce)
        } else if level == 1 {
            Some(Qos::AtLeastOnce)
        } else if level == 2 {
            Some(Qos::ExactlyOnce)
        } else {
            None
        }
    }
}

} // verus!
