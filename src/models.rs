//! Plain records exchanged between the library and its callers.

use vstd::prelude::*;

verus! {

/// The claims carried by a session token.
#[derive(Clone, Debug, PartialEq, Eq)]
pub struct Claims {
    /// The user id, as text.
    pub sub: String,
    pub email: String,
    pub username: String,
    /// Expiry, in seconds since the Unix epoch.
    pub exp: usize,
    /// Issue time, in seconds since the Unix epoch.
    pub iat: usize,
}

#[derive(Clone, Debug, PartialEq, Eq)]
pub struct CreateUser {
    pub username: String,
    pub email: String,
    pub password: String,
}

#[derive(Clone, Debug, PartialEq, Eq)]
pub struct LoginRequest {
    pub email: String,
    pub password: String,
}

#[derive(Clone, Debug, PartialEq, Eq)]
pub struct UserInfo {
    pub id: i32,
    pub username: String,
    pub email: String,
}

#[derive(Clone, Debug, PartialEq, Eq)]
pub struct LoginResponse {
    pub token: String,
    pub user: UserInfo,
}

#[derive(Clone, Debug, PartialEq, Eq)]
pub struct CreateEmailAccount {
    pub account_name: String,
    pub email_address: String,
    pub imap_server: Option<String>,
    pub imap_port: Option<i32>,
    pub smtp_server: Option<String>,
    pub smtp_port: Option<i32>,
    pub username: String,
    pub password: String,
}

#[derive(Clone, Debug, PartialEq, Eq)]
pub struct CreateEmailAccountWithUser {
    pub user_id: i32,
    pub account_name: String,
    pub email_address: String,
    pub imap_server: Option<String>,
    pub imap_port: Option<i32>,
    pub smtp_server: Option<String>,
    pub smtp_port: Option<i32>,
    pub username: String,
    pub password_encrypted: String,
    pub is_active: Option<bool>,
}

#[derive(Clone, Debug, PartialEq, Eq)]
pub struct CreateEmailTemplate {
    pub name: String,
    pub subject: Option<String>,
    pub body: Option<String>,
    pub template_type: Option<String>,
}

#[derive(Clone, Debug, PartialEq, Eq)]
pub struct CreateEmailTemplateWithUser {
    pub user_id: i32,
    pub name: String,
    pub subject: Option<String>,
    pub body: Option<String>,
    pub template_type: Option<String>,
}

/// An outgoing or fetched message.
#[derive(Clone, Debug, PartialEq, Eq)]
pub struct EmailMessage {
    pub to: Vec<String>,
    pub cc: Option<Vec<String>>,
    pub bcc: Option<Vec<String>>,
    pub subject: String,
    pub body: String,
    pub attachments: Option<Vec<String>>,
}

/// One recipient of a batch send, with the values that personalise it.
/// Later entries of `variables` take precedence over earlier ones of the
/// same name.
#[derive(Clone, Debug, PartialEq, Eq)]
pub struct RecipientData {
    pub email: String,
    pub variables: Vec<(String, String)>,
}

#[derive(Clone, Copy, Debug, PartialEq, Eq)]
pub struct EmailStats {
    pub total_sent: i32,
    pub total_received: i32,
    pub total_failed: i32,
    pub automation_rules_count: i32,
}

#[derive(Clone, Debug, PartialEq, Eq)]
pub struct ConnectionTest {
    pub success: bool,
    pub message: String,
}

#[derive(Clone, Debug, PartialEq, Eq)]
pub struct CreateContactList {
    pub name: String,
    pub description: Option<String>,
}

#[derive(Clone, Debug, PartialEq, Eq)]
pub struct ImportContactsRequest {
    pub contact_list_id: i32,
    pub csv_data: String,
}

#[derive(Clone, Debug, PartialEq, Eq)]
pub struct CreateInboxMonitor {
    pub email_account_id: i32,
    pub check_interval: Option<i32>,
    pub auto_reply_template_id: Option<i32>,
}

#[derive(Clone, Debug, PartialEq, Eq)]
pub struct AttachmentCategory {
    pub category: String,
    pub count: i32,
    pub total_size: i64,
}

} // verus!
