//! Campus credentials: what the command line gave, what a config file
//! adds, and the final record. Priority is command line, then config file,
//! then a prompt; the caller reads the file and prompts.

use vstd::prelude::*;

verus! {

/// Credentials once every field is settled.
#[derive(Debug)]
pub struct BitUser {
    pub username: String,
    pub password: String,
    pub dm: bool,
}

/// Credentials as far as they are known.
#[derive(Debug)]
pub struct BitUserPartial {
    pub username: Option<String>,
    pub password: Option<String>,
    pub dm: Option<bool>,
}

impl Default for BitUserPartial {
    fn default() -> (r: BitUserPartial)
        ensures
            r.username is None,
            r.password is None,
            r.dm is None,
    {
        BitUserPartial { username: None, password: None, dm: None }
    }
}

/// The text held, or the empty text.
pub open spec fn text_or_empty(t: Option<String>) -> Seq<char> {
    match t {
        Some(s) => s@,
        None => Seq::empty(),
    }
}

impl BitUserPartial {
    pub fn new(username: &Option<String>, password: &Option<String>, dm: Option<bool>) -> (r: Self)
        ensures
            r.username == *username,
            r.password == *password,
            r.dm == dm,
    {
        BitUserPartial { username: username.clone(), password: password.clone(), dm }
    }

    /// Whether the config file must be consulted: the user name is
    /// missing, or the password is and it is required.
    pub fn needs_config(&self, require_password: bool) -> (r: bool)
        ensures
            r == (self.username is None || (require_password && self.password is None)),
    {
        self.username.is_none() || (require_password && self.password.is_none())
    }

    /// Fills the missing user name and password from `file`; what is
    /// already known stays, and so does `dm`.
    pub fn fill_from(&mut self, file: BitUserPartial)
        ensures
            final(self).username == (if old(self).username is Some {
                old(self).username
            } else {
                file.username
            }),
            final(self).password == (if old(self).password is Some {
                old(self).password
            } else {
                file.password
            }),
            final(self).dm == old(self).dm,
    {
        if self.username.is_none() {
            self.username = file.username;
        }
        if self.password.is_none() {
            self.password = file.password;
        }
    }

    /// Whether a password prompt is due: none is known and it is required.
    /// Where it is not required a missing password stays empty.
    pub fn password_prompt_needed(&self, require_password: bool) -> (r: bool)
        ensures
            r == (require_password && self.password is None),
    {
        require_password && self.password.is_none()
    }

    /// The settled record: missing texts become empty, a missing `dm` false.
    pub fn finalize(self) -> (r: BitUser)
        ensures
            r.username@ == text_or_empty(self.username),
            r.password@ == text_or_empty(self.password),
            r.dm == (self.dm == Some(true)),
    {
        let username = match self.username {
            Some(u) => u,
            None => String::new(),
        };
        let password = match self.password {
            Some(p) => p,
            None => String::new(),
        };
        let dm = match self.dm {
            Some(d) => d,
            None => false,
        };
        BitUser { username, password, dm }
    }
}

/// Whether to warn that the logout endpoint is unspecified: the config
/// file does not set `dm` and the command line did not ask for it.
pub fn dm_unspecified(file: &BitUserPartial, dm: bool) -> (r: bool)
    ensures
        r == (file.dm is None && !dm),
{
    file.dm.is_none() && !dm
}

} // verus!
