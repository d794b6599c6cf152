//! Session, scraping and reminder logic of the Vertex LMS companion, verified with Verus.
pub mod types;
pub mod errors;
pub mod text;
pub mod decimal;
pub mod html;
pub mod json;
pub mod login;
pub mod assignments_lms;
pub mod reminders;
pub mod background;
pub mod tray;
