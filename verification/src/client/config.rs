//! The client's saved configuration.
use vstd::prelude::*;
use crate::client::api::HandshakeRequest;
use crate::text::owned;

verus! {

/// The client's configuration.
#[derive(Debug)]
pub struct ClientConfig {
    pub server_url: String,
    pub server_guid: String,
    pub display_name: String,
    pub computer_name: String,
    pub machine_id: String,
    pub client_id: Option<String>,
    pub auth_token: Option<String>,
    pub auto_start_processing: Option<bool>,
}

impl Clone for ClientConfig {
    fn clone(&self) -> (res: Self)
        ensures
            res == *self,
    {
        ClientConfig {
            server_url: self.server_url.clone(),
            server_guid: self.server_guid.clone(),
            display_name: self.display_name.clone(),
            computer_name: self.computer_name.clone(),
            machine_id: self.machine_id.clone(),
            client_id: match &self.client_id {
                Some(c) => Some(c.clone()),
                None => None,
            },
            auth_token: match &self.auth_token {
                Some(t) => Some(t.clone()),
                None => None,
            },
            auto_start_processing: self.auto_start_processing,
        }
    }
}

/// What the user enters to connect to a server.
#[derive(Debug)]
pub struct ConfigInput {
    pub server_url: String,
    pub server_guid: String,
    pub display_name: String,
}

impl ClientConfig {
    /// A configuration for a server, before the handshake: the computer's name is the
    /// host name when it could be read, else `Unknown`; no session yet; automatic
    /// start off.
    pub fn new(server_url: String, server_guid: String, display_name: String, host_name: Option<String>, machine_id: String) -> (res:
        Self)
        ensures
            res.server_url == server_url,
            res.server_guid == server_guid,
            res.display_name == display_name,
            match host_name {
                Some(h) => res.computer_name == h,
                None => res.computer_name@ == "Unknown"@,
            },
            res.machine_id == machine_id,
            res.client_id is None,
            res.auth_token is None,
            res.auto_start_processing == Some(false),
    {
        let computer_name = match host_name {
            Some(h) => h,
            None => owned("Unknown"),
        };
        ClientConfig {
            server_url,
            server_guid,
            display_name,
            computer_name,
            machine_id,
            client_id: None,
            auth_token: None,
            auto_start_processing: Some(false),
        }
    }

    /// Fills in what an older saved configuration may lack: automatic start off when
    /// not set.
    pub fn fill_defaults(&mut self)
        ensures
            *final(self) == (ClientConfig {
                auto_start_processing: if old(self).auto_start_processing is Some {
                    old(self).auto_start_processing
                } else {
                    Some(false)
                },
                ..*old(self)
            }),
    {
        if self.auto_start_processing.is_none() {
            self.auto_start_processing = Some(false);
        }
    }

    /// The handshake this configuration sends.
    pub fn handshake_request(&self) -> (res: HandshakeRequest)
        ensures
            res.server_guid == self.server_guid,
            res.display_name == self.display_name,
            res.computer_name == self.computer_name,
            res.machine_id == self.machine_id,
    {
        HandshakeRequest {
            server_guid: self.server_guid.clone(),
            display_name: self.display_name.clone(),
            computer_name: self.computer_name.clone(),
            machine_id: self.machine_id.clone(),
        }
    }

    /// Records the session the server granted in the handshake.
    pub fn set_session(&mut self, client_id: String, auth_token: String)
        ensures
            *final(self) == (ClientConfig {
                client_id: Some(client_id),
                auth_token: Some(auth_token),
                ..*old(self)
            }),
    {
        self.client_id = Some(client_id);
        self.auth_token = Some(auth_token);
    }

    /// The auth token, needed to call the server: else the error `No auth token`.
    pub fn require_auth_token(&self) -> (res: Result<String, String>)
        ensures
            match self.auth_token {
                Some(t) => res matches Ok(r) && r == t,
                None => res matches Err(e) && e@ == "No auth token"@,
            },
    {
        match &self.auth_token {
            Some(t) => Ok(t.clone()),
            None => Err(owned("No auth token")),
        }
    }

    /// The client id, needed for the client's own statistics: else the error
    /// `No client ID`.
    pub fn require_client_id(&self) -> (res: Result<String, String>)
        ensures
            match self.client_id {
                Some(t) => res matches Ok(r) && r == t,
                None => res matches Err(e) && e@ == "No client ID"@,
            },
    {
        match &self.client_id {
            Some(t) => Ok(t.clone()),
            None => Err(owned("No client ID")),
        }
    }
}

} // verus!
