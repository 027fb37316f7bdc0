//! How to reach the server: a connection string handed in from outside, or
//! host, port and account given one by one.

use vstd::prelude::*;
use crate::naming::DatabaseName;

verus! {

/// The host used where no connection string is given.
pub const DEFAULT_HOST: &'static str = "127.0.0.1";

/// The port used where no connection string is given.
pub const DEFAULT_PORT: u16 = 3306;

/// The account used where no connection string is given. It has no password.
pub const DEFAULT_USERNAME: &'static str = "root";

/// Connection parameters given one by one.
#[derive(Debug, PartialEq, Eq)]
pub struct ConnectFields {
    pub host: String,
    pub port: u16,
    pub username: String,
    /// The database that a new connection selects, if any.
    pub database: Option<String>,
}

/// `ConnectFields` as mathematical values.
pub struct ConnectFieldsView {
    pub host: Seq<char>,
    pub port: u16,
    pub username: Seq<char>,
    pub database: Option<Seq<char>>,
}

impl View for ConnectFields {
    type V = ConnectFieldsView;

    open spec fn view(&self) -> ConnectFieldsView {
        ConnectFieldsView {
            host: self.host@,
            port: self.port,
            username: self.username@,
            database: match self.database {
                Some(d) => Some(d@),
                None => None,
            },
        }
    }
}

/// What a pool connects with.
#[derive(Debug, PartialEq, Eq)]
pub enum ConnectionDescriptor {
    /// A connection string from outside, kept letter for letter.
    Uri(String),
    /// Parameters given one by one.
    Fields(ConnectFields),
}

/// `ConnectionDescriptor` as mathematical values.
pub enum DescriptorView {
    Uri(Seq<char>),
    Fields(ConnectFieldsView),
}

impl View for ConnectionDescriptor {
    type V = DescriptorView;

    open spec fn view(&self) -> DescriptorView {
        match self {
            ConnectionDescriptor::Uri(s) => DescriptorView::Uri(s@),
            ConnectionDescriptor::Fields(f) => DescriptorView::Fields(f@),
        }
    }
}

/// The parameters of the local server: no database selected.
pub open spec fn default_fields_view() -> ConnectFieldsView {
    ConnectFieldsView {
        host: DEFAULT_HOST@,
        port: DEFAULT_PORT,
        username: DEFAULT_USERNAME@,
        database: None,
    }
}

/// The descriptor that an optional connection string and a fallback resolve
/// to: the string where there is one, else the fallback.
pub open spec fn resolved(external: Option<Seq<char>>, fallback: ConnectFieldsView) -> DescriptorView {
    match external {
        Some(uri) => DescriptorView::Uri(uri),
        None => DescriptorView::Fields(fallback),
    }
}

/// A descriptor bound to a database. A connection string stays as it is:
/// the database is then selected by a statement on each new connection.
pub open spec fn bound_to(target: DescriptorView, name: Seq<char>) -> DescriptorView {
    match target {
        DescriptorView::Uri(uri) => DescriptorView::Uri(uri),
        DescriptorView::Fields(f) => DescriptorView::Fields(
            ConnectFieldsView { database: Some(name), ..f },
        ),
    }
}

/// The view of an optional text.
pub open spec fn text_view(text: Option<String>) -> Option<Seq<char>> {
    match text {
        Some(s) => Some(s@),
        None => None,
    }
}

/// The parameters of the local server.
pub fn default_fields() -> (r: ConnectFields)
    ensures
        r@ == default_fields_view(),
{
    ConnectFields {
        host: String::from_str(DEFAULT_HOST),
        port: DEFAULT_PORT,
        username: String::from_str(DEFAULT_USERNAME),
        database: None,
    }
}

/// Resolves the connection parameters. No credential is checked here: a wrong
/// one shows when a connection is opened.
pub fn resolve(external: Option<String>, fallback: ConnectFields) -> (r: ConnectionDescriptor)
    ensures
        r@ == resolved(text_view(external), fallback@),
{
    match external {
        Some(uri) => ConnectionDescriptor::Uri(uri),
        None => ConnectionDescriptor::Fields(fallback),
    }
}

impl ConnectionDescriptor {
    /// The same descriptor, bound to the database of that name.
    pub fn bind(self, name: &DatabaseName) -> (r: ConnectionDescriptor)
        ensures
            r@ == bound_to(self@, name@),
    {
        match self {
            ConnectionDescriptor::Uri(uri) => ConnectionDescriptor::Uri(uri),
            ConnectionDescriptor::Fields(f) => ConnectionDescriptor::Fields(
                ConnectFields {
                    host: f.host,
                    port: f.port,
                    username: f.username,
                    database: Some(String::from_str(name.as_str())),
                },
            ),
        }
    }
}

impl Clone for ConnectFields {
    fn clone(&self) -> (r: ConnectFields)
        ensures
            r@ == self@,
    {
        ConnectFields {
            host: self.host.clone(),
            port: self.port,
            username: self.username.clone(),
            database: match &self.database {
                Some(d) => Some(d.clone()),
                None => None,
            },
        }
    }
}

impl Clone for ConnectionDescriptor {
    fn clone(&self) -> (r: ConnectionDescriptor)
        ensures
            r@ == self@,
    {
        match self {
            ConnectionDescriptor::Uri(uri) => ConnectionDescriptor::Uri(uri.clone()),
            ConnectionDescriptor::Fields(f) => ConnectionDescriptor::Fields(f.clone()),
        }
    }
}

/// A connection string always wins over the fallback, whatever the fallback
/// holds, and comes out letter for letter.
pub proof fn lemma_connection_string_takes_precedence(
    uri: Seq<char>,
    fallback: ConnectFieldsView,
    name: Seq<char>,
)
    ensures
        resolved(Some(uri), fallback) == DescriptorView::Uri(uri),
        bound_to(resolved(Some(uri), fallback), name) == DescriptorView::Uri(uri),
{
}

} // verus!
