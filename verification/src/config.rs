//! Process configuration, as plain values.
//!
//! Loading the file itself is input handled outside the library; the parsed
//! values arrive here as a plain record that the surrounding program hands
//! to its collaborators.

use vstd::prelude::*;

verus! {

/// The values the captioning process is configured with.
#[derive(Debug, Clone, PartialEq)]
pub struct Config {
    /// Authentication token for the chat platform connection.
    pub bot_token: String,
    /// Application identifier the platform assigned to this program.
    pub application_id: u64,
    /// Path of the recognition model directory.
    pub model_path: String,
    /// Publishing sink endpoint.
    pub webhook_url: String,
    /// Path of the settings database file.
    pub db_path: String,
}

} // verus!
