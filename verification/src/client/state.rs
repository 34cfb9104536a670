//! The state of a connected FTP client: authentication status, address,
//! current virtual directory, and whether a data channel is set up.
use crate::config::StartupConfig;
use crate::net::SocketAddress;
use crate::text::{chars_of, contains_char, decimal, decimal_chars, extend_chars, string_from_chars};
use vstd::prelude::*;

verus! {

/// Whether `p` holds two consecutive dots.
pub open spec fn has_dot_dot(p: Seq<char>) -> bool {
    exists|i: int| 0 <= i < p.len() - 1 && p[i] == '.' && #[trigger] p[i + 1] == '.'
}

/// A well-formed current virtual directory: non-empty, absolute, without
/// NUL characters and without `..`.
pub open spec fn valid_virtual_path(p: Seq<char>) -> bool {
    &&& p.len() > 0
    &&& p[0] == '/'
    &&& !p.contains('\0')
    &&& !has_dot_dot(p)
}

/// The state of a connected FTP client.
pub struct Client {
    username: Option<String>,
    client_addr: Option<SocketAddress>,
    current_virtual_path: String,
    is_user_valid: bool,
    is_logged_in: bool,
    is_data_channel_init: bool,
}

/// The mathematical value of a [`Client`].
pub struct ClientView {
    pub username: Option<Seq<char>>,
    pub client_addr: Option<SocketAddress>,
    pub current_virtual_path: Seq<char>,
    pub is_user_valid: bool,
    pub is_logged_in: bool,
    pub is_data_channel_init: bool,
}

/// The state of a client that has not sent anything yet, and of one that
/// has logged out: no user, no address, at the root, nothing validated.
pub open spec fn fresh_client() -> ClientView {
    ClientView {
        username: None,
        client_addr: None,
        current_virtual_path: seq!['/'],
        is_user_valid: false,
        is_logged_in: false,
        is_data_channel_init: false,
    }
}

impl View for Client {
    type V = ClientView;

    closed spec fn view(&self) -> ClientView {
        ClientView {
            username: match self.username {
                Some(u) => Some(u@),
                None => None,
            },
            client_addr: self.client_addr,
            current_virtual_path: self.current_virtual_path@,
            is_user_valid: self.is_user_valid,
            is_logged_in: self.is_logged_in,
            is_data_channel_init: self.is_data_channel_init,
        }
    }
}

fn root_path() -> (s: String)
    ensures
        s@ == seq!['/'],
{
    let v = vec!['/'];
    assert(v@ =~= seq!['/']);
    string_from_chars(&v)
}

impl Default for Client {
    fn default() -> (c: Self)
        ensures
            c@ == fresh_client(),
    {
        Client {
            username: None,
            client_addr: None,
            current_virtual_path: root_path(),
            is_user_valid: false,
            is_logged_in: false,
            is_data_channel_init: false,
        }
    }
}

/// What validating a new user name gives: the reason it is refused, if it
/// is. `max` bounds its length in bytes.
pub open spec fn username_problem(name: Seq<char>, max: usize) -> Option<Seq<char>> {
    if name.len() == 0 {
        Some("Username cannot be empty"@)
    } else if crate::auth::validator::utf8_len(name) > max {
        Some("Username too long (max "@ + decimal(max as nat) + " characters)"@)
    } else if name.contains('\0') || name.contains('\n') || name.contains('\r') {
        Some("Username contains invalid characters"@)
    } else {
        None
    }
}

/// What validating a new current directory gives: the reason it is refused,
/// if it is.
pub open spec fn virtual_path_problem(p: Seq<char>) -> Option<Seq<char>> {
    if p.len() == 0 {
        Some("Virtual path cannot be empty"@)
    } else if p[0] != '/' {
        Some("Virtual path must start with /"@)
    } else if p.contains('\0') {
        Some("Virtual path contains null characters"@)
    } else if has_dot_dot(p) {
        Some("Virtual path cannot contain directory traversal"@)
    } else {
        None
    }
}

/// Whether a path holds `..` anywhere.
pub fn contains_dot_dot(p: &[char]) -> (r: bool)
    ensures
        r == has_dot_dot(p@),
{
    let mut k: usize = 0;
    while k < p.len() && k + 1 < p.len()
        invariant
            k <= p@.len(),
            forall|i: int| 0 <= i < k && i < p@.len() - 1 ==> !(p@[i] == '.' && #[trigger] p@[i + 1] == '.'),
        decreases p@.len() - k,
    {
        if p[k] == '.' && p[k + 1] == '.' {
            assert(p@[k as int + 1] == '.');
            return true;
        }
        k = k + 1;
    }
    false
}

impl Client {
    /// The well-formedness of a client: its current directory is valid.
    #[verifier::type_invariant]
    spec fn wf(self) -> bool {
        valid_virtual_path(self.current_virtual_path@)
    }

    /// Resets the client: logs out and clears all stored data (user name,
    /// address, flags, current directory, data channel status).
    pub fn logout(&mut self)
        ensures
            final(self)@ == fresh_client(),
    {
        proof {
            use_type_invariant(&*self);
        }
        self.username = None;
        self.client_addr = None;
        self.current_virtual_path = root_path();
        self.is_user_valid = false;
        self.is_logged_in = false;
        self.is_data_channel_init = false;
    }

    /// Whether the user name given with USER was accepted.
    pub fn is_user_valid(&self) -> (b: bool)
        ensures
            b == self@.is_user_valid,
    {
        self.is_user_valid
    }

    /// Whether the client has logged in.
    pub fn is_logged_in(&self) -> (b: bool)
        ensures
            b == self@.is_logged_in,
    {
        self.is_logged_in
    }

    /// Whether a data channel has been set up.
    pub fn is_data_channel_init(&self) -> (b: bool)
        ensures
            b == self@.is_data_channel_init,
    {
        self.is_data_channel_init
    }

    /// The user name, if set.
    pub fn username(&self) -> (u: Option<&String>)
        ensures
            match u {
                Some(s) => self@.username == Some(s@),
                None => self@.username is None,
            },
    {
        self.username.as_ref()
    }

    /// The client's socket address, if known.
    pub fn client_addr(&self) -> (a: Option<&SocketAddress>)
        ensures
            match a {
                Some(x) => self@.client_addr == Some(*x),
                None => self@.client_addr is None,
            },
    {
        self.client_addr.as_ref()
    }

    /// The current virtual directory.
    pub fn current_virtual_path(&self) -> (p: &str)
        ensures
            p@ == self@.current_virtual_path,
            valid_virtual_path(p@),
    {
        proof {
            use_type_invariant(self);
        }
        self.current_virtual_path.as_str()
    }

    /// Sets whether the user name was accepted.
    pub fn set_user_valid(&mut self, valid: bool)
        ensures
            final(self)@ == (ClientView { is_user_valid: valid, ..old(self)@ }),
    {
        proof {
            use_type_invariant(&*self);
        }
        self.is_user_valid = valid;
    }

    /// Sets the login state.
    pub fn set_logged_in(&mut self, logged_in: bool)
        ensures
            final(self)@ == (ClientView { is_logged_in: logged_in, ..old(self)@ }),
    {
        proof {
            use_type_invariant(&*self);
        }
        self.is_logged_in = logged_in;
    }

    /// Sets whether a data channel is set up.
    pub fn set_data_channel_init(&mut self, init: bool)
        ensures
            final(self)@ == (ClientView { is_data_channel_init: init, ..old(self)@ }),
    {
        proof {
            use_type_invariant(&*self);
        }
        self.is_data_channel_init = init;
    }

    /// Sets the user name, refusing an empty one, one longer than the
    /// configured maximum (in bytes), and one holding NUL, CR or LF. `None`
    /// clears it.
    pub fn set_username(&mut self, username: Option<String>, config: &StartupConfig) -> (r: Result<(), String>)
        ensures
            match username {
                Some(n) => match username_problem(n@, config.max_username_length) {
                    Some(m) => r == Err::<(), String>(r->Err_0) && r->Err_0@ == m && final(self)@
                        == old(self)@,
                    None => r is Ok && final(self)@ == (ClientView {
                        username: Some(n@),
                        ..old(self)@
                    }),
                },
                None => r is Ok && final(self)@ == (ClientView { username: None, ..old(self)@ }),
            },
    {
        proof {
            use_type_invariant(&*self);
        }
        if let Some(n) = &username {
            let chars = chars_of(n.as_str());
            if chars.len() == 0 {
                return Err(string_from_chars(&chars_of("Username cannot be empty")));
            }
            if n.as_str().len() > config.max_username_length {
                let mut m = chars_of("Username too long (max ");
                extend_chars(&mut m, &decimal_chars(config.max_username_length as u64));
                extend_chars(&mut m, &chars_of(" characters)"));
                return Err(string_from_chars(&m));
            }
            if contains_char(&chars, '\0') || contains_char(&chars, '\n') || contains_char(
                &chars,
                '\r',
            ) {
                return Err(string_from_chars(&chars_of("Username contains invalid characters")));
            }
        }
        self.username = username;
        Ok(())
    }

    /// Sets the client's socket address.
    pub fn set_client_addr(&mut self, addr: Option<SocketAddress>)
        ensures
            final(self)@ == (ClientView { client_addr: addr, ..old(self)@ }),
    {
        proof {
            use_type_invariant(&*self);
        }
        self.client_addr = addr;
    }

    /// Sets the current virtual directory, refusing an empty or relative
    /// path and one holding NUL characters or `..`.
    pub fn set_current_virtual_path(&mut self, path: String) -> (r: Result<(), String>)
        ensures
            match virtual_path_problem(path@) {
                Some(m) => r is Err && r->Err_0@ == m && final(self)@ == old(self)@,
                None => r is Ok && final(self)@ == (ClientView {
                    current_virtual_path: path@,
                    ..old(self)@
                }),
            },
    {
        proof {
            use_type_invariant(&*self);
        }
        let p = chars_of(path.as_str());
        if p.len() == 0 {
            return Err(string_from_chars(&chars_of("Virtual path cannot be empty")));
        }
        if p[0] != '/' {
            return Err(string_from_chars(&chars_of("Virtual path must start with /")));
        }
        if contains_char(&p, '\0') {
            return Err(string_from_chars(&chars_of("Virtual path contains null characters")));
        }
        if contains_dot_dot(&p) {
            return Err(
                string_from_chars(&chars_of("Virtual path cannot contain directory traversal")),
            );
        }
        self.current_virtual_path = path;
        Ok(())
    }
}

} // verus!
