//! Browser feedback for the loopback callback of an OAuth login. A code is not a
//! completed login: the browser is shown success only after the caller has
//! reported that the credentials were persisted.

pub mod brand;
pub mod capture;
pub mod encoding;
pub mod http;
pub mod laws;
pub mod page;
pub mod session;
pub mod text;

pub use brand::{CallbackBrand, SYNTROPIC_LOGO};
pub use capture::{html, is_page, request_text};
pub use page::{CallbackPage, STYLE};
pub use session::{
    page_for_result, CallbackOutcome, CallbackResult, CallbackSession, Event, Phase, Step,
    RESULT_DELIVERY_TIMEOUT_SECS,
};
