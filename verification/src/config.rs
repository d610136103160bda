//! The client's settings: the server to connect to and the user to log in
//! as. Reading and writing the settings file is left to the program.
use vstd::prelude::*;

use crate::utils::{decimal, push_char, push_decimal};

verus! {

/// The settings file, in the working directory.
pub const CONFIG_PATH: &'static str = "config.toml";

/// All settings.
#[derive(Debug, Default)]
pub struct Config {
    pub server: Server,
    pub user: User,
}

/// The server: its address and port, and whether to log in on start.
#[derive(Debug)]
pub struct Server {
    pub address: String,
    pub port: u16,
    pub auto_connect: bool,
}

/// The user: name, password and the port to listen on for peers.
#[derive(Debug, Default)]
pub struct User {
    pub name: String,
    pub password: String,
    pub port: u16,
}

impl Default for Server {
    /// The public Soulseek server, logged into on start.
    fn default() -> (r: Self)
        ensures
            r.address@ == "server.slsknet.org"@,
            r.port == 2242,
            r.auto_connect,
    {
        Server { address: "server.slsknet.org".to_owned(), port: 2242, auto_connect: true }
    }
}

impl Server {
    /// `address:port`, the form a connection is opened to.
    pub fn to_string(&self) -> (r: String)
        ensures
            r@ == self.address@ + seq![':'] + decimal(self.port as nat),
    {
        let mut r = self.address.clone();
        push_char(&mut r, ':');
        push_decimal(&mut r, self.port as u64);
        r
    }
}

impl Config {
    /// Whether to log in without asking: the server says so and a user
    /// name and a password are set.
    pub fn should_auto_login(&self) -> (r: bool)
        ensures
            r == (self.server.auto_connect && self.user.name@.len() > 0
                && self.user.password@.len() > 0),
    {
        self.server.auto_connect && !self.user.name.as_str().is_empty()
            && !self.user.password.as_str().is_empty()
    }

    /// Remembers the login tried: the user's name and password.
    pub fn set_login(&mut self, username: String, password: String)
        ensures
            final(self).user.name == username,
            final(self).user.password == password,
            final(self).user.port == old(self).user.port,
            final(self).server == old(self).server,
    {
        self.user.name = username;
        self.user.password = password;
    }
}

} // verus!
