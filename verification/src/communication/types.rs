//! The records carried by control-bus messages and device frames.

use std::collections::HashMap;
use vstd::prelude::*;

verus! {

/// The abilities a device server advertises, by name.
pub struct AbilitySnapShot {
    pub abilities: HashMap<String, String>,
}

/// What is needed to open and authenticate a connection to a device server.
pub struct HouseOfIoTCredentials {
    /// Where the device server is reached.
    pub connection_str: String,
    pub name_and_type: String,
    pub password: String,
    pub admin_password: String,
    /// The name under which the control bus knows the device server.
    pub outside_name: String,
}

/// The mathematical value of [`HouseOfIoTCredentials`].
pub struct CredentialsView {
    pub connection_str: Seq<char>,
    pub name_and_type: Seq<char>,
    pub password: Seq<char>,
    pub admin_password: Seq<char>,
    pub outside_name: Seq<char>,
}

impl View for HouseOfIoTCredentials {
    type V = CredentialsView;

    open spec fn view(&self) -> CredentialsView {
        CredentialsView {
            connection_str: self.connection_str@,
            name_and_type: self.name_and_type@,
            password: self.password@,
            admin_password: self.admin_password@,
            outside_name: self.outside_name@,
        }
    }
}

impl Clone for HouseOfIoTCredentials {
    fn clone(&self) -> (copy: Self)
        ensures
            copy@ == self@,
    {
        HouseOfIoTCredentials {
            connection_str: self.connection_str.clone(),
            name_and_type: self.name_and_type.clone(),
            password: self.password.clone(),
            admin_password: self.admin_password.clone(),
            outside_name: self.outside_name.clone(),
        }
    }
}

/// The outcome of a handshake, as reported to the control bus.
pub struct AuthResponse {
    pub outside_name: String,
    pub passed_auth: bool,
    /// The id of the new session; absent when authentication failed.
    pub server_id: Option<String>,
}

/// The mathematical value of [`AuthResponse`].
pub struct AuthResponseView {
    pub outside_name: Seq<char>,
    pub passed_auth: bool,
    pub server_id: Option<Seq<char>>,
}

impl View for AuthResponse {
    type V = AuthResponseView;

    open spec fn view(&self) -> AuthResponseView {
        AuthResponseView {
            outside_name: self.outside_name@,
            passed_auth: self.passed_auth,
            server_id: match self.server_id {
                Some(id) => Some(id@),
                None => None,
            },
        }
    }
}

/// A control-bus message: a category, a payload and the session it concerns.
pub struct GeneralMessage {
    pub category: String,
    pub data: String,
    pub server_id: String,
}

/// The mathematical value of [`GeneralMessage`].
pub struct GeneralMessageView {
    pub category: Seq<char>,
    pub data: Seq<char>,
    pub server_id: Seq<char>,
}

impl View for GeneralMessage {
    type V = GeneralMessageView;

    open spec fn view(&self) -> GeneralMessageView {
        GeneralMessageView {
            category: self.category@,
            data: self.data@,
            server_id: self.server_id@,
        }
    }
}

/// A device server's answer to an action.
pub struct HOIBasicResponse {
    pub server_name: String,
    pub action: String,
    pub status: String,
    pub bot_name: String,
    pub target: String,
    pub target_value: String,
}

/// The passive data of one device unit.
pub struct HOIBasicPassiveSingle {
    pub active_status: bool,
    pub device_name: String,
    pub device_type: String,
}

/// The mathematical value of [`HOIBasicPassiveSingle`].
pub struct PassiveSingleView {
    pub active_status: bool,
    pub device_name: Seq<char>,
    pub device_type: Seq<char>,
}

impl View for HOIBasicPassiveSingle {
    type V = PassiveSingleView;

    open spec fn view(&self) -> PassiveSingleView {
        PassiveSingleView {
            active_status: self.active_status,
            device_name: self.device_name@,
            device_type: self.device_type@,
        }
    }
}

/// The values of a list of passive-data records, in order.
pub open spec fn passive_views(records: Seq<HOIBasicPassiveSingle>) -> Seq<PassiveSingleView> {
    Seq::new(records.len(), |i: int| records[i]@)
}

/// An action to run on one device unit of a session.
pub struct HOIActionData {
    pub server_id: String,
    pub bot_name: String,
    pub action: String,
}

/// The mathematical value of [`HOIActionData`].
pub struct ActionDataView {
    pub server_id: Seq<char>,
    pub bot_name: Seq<char>,
    pub action: Seq<char>,
}

impl View for HOIActionData {
    type V = ActionDataView;

    open spec fn view(&self) -> ActionDataView {
        ActionDataView {
            server_id: self.server_id@,
            bot_name: self.bot_name@,
            action: self.action@,
        }
    }
}

impl Clone for HOIActionData {
    fn clone(&self) -> (copy: Self)
        ensures
            copy@ == self@,
    {
        HOIActionData {
            server_id: self.server_id.clone(),
            bot_name: self.bot_name.clone(),
            action: self.action.clone(),
        }
    }
}

/// The values of a list of actions, in order.
pub open spec fn action_views(actions: Seq<HOIActionData>) -> Seq<ActionDataView> {
    Seq::new(actions.len(), |i: int| actions[i]@)
}

} // verus!
