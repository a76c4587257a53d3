//! `xdg_activation`: tokens that let one surface hand focus to another.
use vstd::prelude::*;
use crate::entity::Entity;

verus! {

/// Asks that a surface be activated, with the token it was given.
pub struct SurfaceActivate {
    pub token: String,
}

impl SurfaceActivate {
    pub fn new(token: String) -> (r: Self)
        ensures
            r.token@ == token@,
    {
        Self { token }
    }
}

/// `c` is a lower-case hexadecimal digit.
pub open spec fn is_lower_hex(c: char) -> bool {
    ('0' <= c && c <= '9') || ('a' <= c && c <= 'f')
}

/// `s` is a random (version 4) UUID in its hyphenated lower-case form: 36
/// characters, hyphens at 8, 13, 18 and 23, hexadecimal digits elsewhere,
/// the version digit `4` at 14 and a variant digit of `8` to `b` at 19.
pub open spec fn is_v4_uuid_text(s: Seq<char>) -> bool {
    &&& s.len() == 36
    &&& forall|i: int|
        0 <= i < 36 ==> if i == 8 || i == 13 || i == 18 || i == 23 {
            s[i] == '-'
        } else {
            is_lower_hex(#[trigger] s[i])
        }
    &&& s[14] == '4'
    &&& (s[19] == '8' || s[19] == '9' || s[19] == 'a' || s[19] == 'b')
}

/// `uuid::Uuid::new_v4().to_string()`: a fresh random UUID. The crate's
/// source masks in the version and variant bits and formats the value as
/// lower-case hyphenated hexadecimal; which UUID comes out is chance.
#[verifier::external_body]
fn new_token() -> (r: String)
    ensures
        is_v4_uuid_text(r@),
{
    uuid::Uuid::new_v4().to_string()
}

/// An `xdg_activation_token_v1` being built.
pub struct XdgActivationToken {
    pub seat: Option<Entity>,
    pub app_id: Option<String>,
    pub surface: Option<Entity>,
    pub token: Option<String>,
}

impl XdgActivationToken {
    pub fn new() -> (r: XdgActivationToken)
        ensures
            r.seat is None,
            r.app_id is None,
            r.surface is None,
            r.token is None,
    {
        XdgActivationToken { seat: None, app_id: None, surface: None, token: None }
    }

    /// The token, once committed.
    pub fn id(&self) -> (r: Option<&str>)
        ensures
            match self.token {
                Some(t) => r matches Some(s) && s@ == t@,
                None => r is None,
            },
    {
        match &self.token {
            Some(t) => Some(t.as_str()),
            None => None,
        }
    }

    pub fn set_seat(&mut self, seat: Entity)
        ensures
            final(self).seat == Some(seat),
            final(self).surface == old(self).surface,
            final(self).token == old(self).token,
            final(self).app_id == old(self).app_id,
    {
        self.seat = Some(seat);
    }

    pub fn set_app_id(&mut self, app_id: String)
        ensures
            final(self).app_id matches Some(a) && a@ == app_id@,
            final(self).seat == old(self).seat,
            final(self).surface == old(self).surface,
            final(self).token == old(self).token,
    {
        self.app_id = Some(app_id);
    }

    pub fn set_surface(&mut self, surface: Entity)
        ensures
            final(self).surface == Some(surface),
            final(self).seat == old(self).seat,
            final(self).token == old(self).token,
            final(self).app_id == old(self).app_id,
    {
        self.surface = Some(surface);
    }

    /// Commits the token: a fresh UUID becomes its text, which is also given
    /// back to be sent to the client.
    pub fn commit(&mut self) -> (r: String)
        ensures
            is_v4_uuid_text(r@),
            final(self).token matches Some(t) && t@ == r@,
            final(self).seat == old(self).seat,
            final(self).surface == old(self).surface,
            final(self).app_id == old(self).app_id,
    {
        let uuid = new_token();
        self.token = Some(uuid.clone());
        uuid
    }
}

} // verus!
