//! The stored form of an e-mail message, as the rule engine and the prompt
//! builder read it.

use vstd::prelude::*;

verus! {

/// One e-mail address with an optional display name.
#[derive(Debug, PartialEq, Eq)]
pub struct Mailbox {
    pub email: String,
    pub name: Option<String>,
}

impl Clone for Mailbox {
    fn clone(&self) -> (r: Self)
        ensures
            r == *self,
    {
        Mailbox { email: self.email.clone(), name: self.name.clone() }
    }
}

/// One raw message header, in the order the provider delivered it.
#[derive(Debug, PartialEq, Eq)]
pub struct Header {
    pub name: String,
    pub value: String,
}

impl Clone for Header {
    fn clone(&self) -> (r: Self)
        ensures
            r == *self,
    {
        Header { name: self.name.clone(), value: self.value.clone() }
    }
}

/// A message as stored. Timestamps are milliseconds since the Unix epoch.
#[derive(Debug)]
pub struct Message {
    pub id: String,
    pub account_id: String,
    pub thread_id: String,
    pub provider_message_id: String,
    pub from_email: Option<String>,
    pub from_name: Option<String>,
    pub to: Vec<Mailbox>,
    pub cc: Vec<Mailbox>,
    pub bcc: Vec<Mailbox>,
    pub subject: Option<String>,
    pub snippet: Option<String>,
    pub received_at: Option<i64>,
    pub internal_date: Option<i64>,
    pub labels: Vec<String>,
    pub headers: Vec<Header>,
    pub body_plain: Option<String>,
    pub body_html: Option<String>,
    pub raw_json: serde_json::Value,
    pub created_at: i64,
    pub updated_at: i64,
    pub org_id: i64,
    pub user_id: i64,
}

} // verus!
