//! A typed client core for the Canvas LMS REST API: it validates the
//! credential, composes every request as a plain value, and unwraps the
//! response envelopes, leaving only the network round trip to the caller.

pub mod calendar;
pub mod canvas_client;
pub mod credentials;
pub mod error;
pub mod extensions;
pub mod header;
pub mod request;
pub mod text;

pub use calendar::CalendarExt;
pub use canvas_client::CanvasClient;
pub use error::CanvasError;
pub use extensions::account_domains::AccountDomainsExt;
pub use extensions::account_notifications::AccountNotificationsExt;
pub use extensions::account_reports::AccountReportsExt;
pub use request::{Method, Request};
