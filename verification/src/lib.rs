//! A client core for a cookie-authenticated, JSON-over-HTTP wiki API.
//!
//! The crate holds the logic of the client and leaves the network to its
//! user: it says which request goes out, takes in what came back, and
//! decides what that means. Sessions and their cookies, capability tokens,
//! calls with their retries, and list queries that span several pages are
//! all state machines that a transport drives.

pub mod call;
pub mod cookies;
pub mod error;
pub mod exchange;
pub mod files;
pub mod json;
pub mod login;
pub mod oredict;
pub mod query;
pub mod request;
pub mod session;
pub mod text;
pub mod tilesheet;
pub mod token;

pub use call::{Action, Call, Event, Phase, RetryPolicy};
pub use error::{Error, ErrorKind};
pub use exchange::{Encoding, Method, Outgoing, Reply};
pub use json::Json;
pub use login::{LoginAction, LoginEvent};
pub use query::{Pull, Query, QueryBuilder};
pub use request::RequestBuilder;
pub use session::{Config, LoginStage, Mediawiki};
pub use token::{CreateAccount, Csrf, Login, Patrol, Rollback, Token, TokenType, UserRights, Watch};
