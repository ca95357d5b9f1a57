//! Application configuration: the JWT settings, the HTTP server settings and
//! the database settings, each readable through getters that hand out copies.

use vstd::prelude::*;

verus! {

/// Abstract value of a [`JwtConfig`]: the four strings it holds.
pub struct JwtConfigView {
    pub aud: Seq<char>,
    pub iss: Seq<char>,
    pub sub: Seq<char>,
    pub secret: Seq<char>,
}

/// Abstract value of an [`AxumConfig`]: the address the server binds to.
pub struct AxumConfigView {
    pub addr: Seq<char>,
}

/// Abstract value of a [`DatabaseConfig`].
pub struct DatabaseConfigView {
    pub url: Seq<char>,
    pub user: Seq<char>,
    pub password: Seq<char>,
}

/// Abstract value of a whole [`Config`].
pub struct ConfigView {
    pub jwt: JwtConfigView,
    pub axum_config: AxumConfigView,
    pub database: DatabaseConfigView,
}

/// Settings used to issue and check JSON web tokens.
#[derive(Debug, Clone)]
pub struct JwtConfig {
    aud: String,
    iss: String,
    sub: String,
    secret: String,
}

/// Settings of the HTTP server.
#[derive(Debug, Clone)]
pub struct AxumConfig {
    addr: String,
}

/// Settings of the database connection.
#[derive(Debug, Clone)]
pub struct DatabaseConfig {
    url: String,
    user: String,
    password: String,
}

/// The whole application configuration.
#[derive(Debug, Clone)]
pub struct Config {
    jwt: JwtConfig,
    axum_config: AxumConfig,
    database: DatabaseConfig,
}

impl View for JwtConfig {
    type V = JwtConfigView;

    closed spec fn view(&self) -> JwtConfigView {
        JwtConfigView { aud: self.aud@, iss: self.iss@, sub: self.sub@, secret: self.secret@ }
    }
}

impl View for AxumConfig {
    type V = AxumConfigView;

    closed spec fn view(&self) -> AxumConfigView {
        AxumConfigView { addr: self.addr@ }
    }
}

impl View for DatabaseConfig {
    type V = DatabaseConfigView;

    closed spec fn view(&self) -> DatabaseConfigView {
        DatabaseConfigView { url: self.url@, user: self.user@, password: self.password@ }
    }
}

impl View for Config {
    type V = ConfigView;

    closed spec fn view(&self) -> ConfigView {
        ConfigView { jwt: self.jwt@, axum_config: self.axum_config@, database: self.database@ }
    }
}

impl JwtConfig {
    /// Builds the JWT settings from their four strings.
    pub fn new(aud: String, iss: String, sub: String, secret: String) -> (r: JwtConfig)
        ensures
            r@ == (JwtConfigView { aud: aud@, iss: iss@, sub: sub@, secret: secret@ }),
    {
        JwtConfig { aud, iss, sub, secret }
    }

    /// A copy of these settings.
    pub fn duplicate(&self) -> (r: JwtConfig)
        ensures
            r@ == self@,
    {
        JwtConfig {
            aud: self.aud.clone(),
            iss: self.iss.clone(),
            sub: self.sub.clone(),
            secret: self.secret.clone(),
        }
    }

    /// The audience that issued tokens name and that checked tokens must name.
    pub fn get_aud(&self) -> (r: String)
        ensures
            r@ == self@.aud,
    {
        self.aud.clone()
    }

    /// The issuer that issued tokens name and that checked tokens must name.
    pub fn get_iss(&self) -> (r: String)
        ensures
            r@ == self@.iss,
    {
        self.iss.clone()
    }

    /// The subject that issued tokens name and that checked tokens must name.
    pub fn get_sub(&self) -> (r: String)
        ensures
            r@ == self@.sub,
    {
        self.sub.clone()
    }

    /// The shared secret that tokens are signed with.
    pub fn get_secret(&self) -> (r: String)
        ensures
            r@ == self@.secret,
    {
        self.secret.clone()
    }
}

impl AxumConfig {
    /// Builds the server settings from the address to bind to.
    pub fn new(addr: String) -> (r: AxumConfig)
        ensures
            r@.addr == addr@,
    {
        AxumConfig { addr }
    }

    /// A copy of these settings.
    pub fn duplicate(&self) -> (r: AxumConfig)
        ensures
            r@ == self@,
    {
        AxumConfig { addr: self.addr.clone() }
    }

    /// The address the server binds to.
    pub fn get_addr(&self) -> (r: &String)
        ensures
            r@ == self@.addr,
    {
        &self.addr
    }
}

impl DatabaseConfig {
    /// Builds the database settings.
    pub fn new(url: String, user: String, password: String) -> (r: DatabaseConfig)
        ensures
            r@ == (DatabaseConfigView { url: url@, user: user@, password: password@ }),
    {
        DatabaseConfig { url, user, password }
    }

    /// A copy of these settings.
    pub fn duplicate(&self) -> (r: DatabaseConfig)
        ensures
            r@ == self@,
    {
        DatabaseConfig {
            url: self.url.clone(),
            user: self.user.clone(),
            password: self.password.clone(),
        }
    }

    /// The connection URL.
    pub fn get_url(&self) -> (r: String)
        ensures
            r@ == self@.url,
    {
        self.url.clone()
    }

    /// The user name of the connection.
    pub fn get_user(&self) -> (r: String)
        ensures
            r@ == self@.user,
    {
        self.user.clone()
    }

    /// The password of the connection.
    pub fn get_password(&self) -> (r: String)
        ensures
            r@ == self@.password,
    {
        self.password.clone()
    }
}

impl Config {
    /// Assembles the application configuration from its three parts.
    pub fn new(jwt: JwtConfig, axum_config: AxumConfig, database: DatabaseConfig) -> (r: Config)
        ensures
            r@ == (ConfigView { jwt: jwt@, axum_config: axum_config@, database: database@ }),
    {
        Config { jwt, axum_config, database }
    }

    /// A copy of the JWT settings.
    pub fn get_jwt_config(&self) -> (r: JwtConfig)
        ensures
            r@ == self@.jwt,
    {
        self.jwt.duplicate()
    }

    /// A copy of the HTTP server settings.
    pub fn get_axum_config(&self) -> (r: AxumConfig)
        ensures
            r@ == self@.axum_config,
    {
        self.axum_config.duplicate()
    }

    /// A copy of the database settings.
    pub fn get_database_config(&self) -> (r: DatabaseConfig)
        ensures
            r@ == self@.database,
    {
        self.database.duplicate()
    }
}

} // verus!
