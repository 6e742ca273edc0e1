//! The JSON form of each record: which documents decode to a record, and the
//! text a record is written as.

use crate::communication::json::json_string_literal;
use crate::communication::json::lemma_array_view;
use crate::communication::json::push_string_literal;
use crate::communication::json::Json;
use crate::communication::json::JsonValue;
use crate::communication::types::ActionDataView;
use crate::communication::types::AuthResponse;
use crate::communication::types::AuthResponseView;
use crate::communication::types::CredentialsView;
use crate::communication::types::GeneralMessage;
use crate::communication::types::GeneralMessageView;
use crate::communication::types::HOIActionData;
use crate::communication::types::HOIBasicPassiveSingle;
use crate::communication::types::HouseOfIoTCredentials;
use crate::communication::types::PassiveSingleView;
use crate::communication::types::passive_views;
use vstd::prelude::*;

verus! {

/// The credentials a document describes: an object whose five members are
/// all strings.
pub open spec fn credentials_of_json(value: JsonValue) -> Option<CredentialsView> {
    match (
        value.text_member("connection_str"@),
        value.text_member("name_and_type"@),
        value.text_member("password"@),
        value.text_member("admin_password"@),
        value.text_member("outside_name"@),
    ) {
        (Some(connection_str), Some(name_and_type), Some(password), Some(admin_password), Some(outside_name)) => Some(
            CredentialsView { connection_str, name_and_type, password, admin_password, outside_name },
        ),
        _ => None,
    }
}

/// The action a document describes: an object whose three members are all
/// strings.
pub open spec fn action_of_json(value: JsonValue) -> Option<ActionDataView> {
    match (value.text_member("server_id"@), value.text_member("bot_name"@), value.text_member("action"@)) {
        (Some(server_id), Some(bot_name), Some(action)) => Some(
            ActionDataView { server_id, bot_name, action },
        ),
        _ => None,
    }
}

/// The passive-data record a document describes: an object with a boolean
/// status and two strings.
pub open spec fn passive_single_of_json(value: JsonValue) -> Option<PassiveSingleView> {
    match (
        value.bool_member("active_status"@),
        value.text_member("device_name"@),
        value.text_member("device_type"@),
    ) {
        (Some(active_status), Some(device_name), Some(device_type)) => Some(
            PassiveSingleView { active_status, device_name, device_type },
        ),
        _ => None,
    }
}

/// The passive-data records a document describes: an array of which every
/// item is a record.
pub open spec fn passive_list_of_json(value: JsonValue) -> Option<Seq<PassiveSingleView>> {
    match value {
        JsonValue::Array(items) => if forall|i: int|
            0 <= i < items.len() ==> passive_single_of_json(#[trigger] items[i]) is Some {
            Some(Seq::new(items.len(), |i: int| passive_single_of_json(items[i])->0))
        } else {
            None
        },
        _ => None,
    }
}

/// The telemetry a device frame carries: the records under the member
/// `bots` of an object, where that member is there and not `null`.
pub open spec fn telemetry_of_json(value: JsonValue) -> Option<Seq<PassiveSingleView>> {
    match value.member("bots"@) {
        Some(list) => if list is Null {
            None
        } else {
            passive_list_of_json(list)
        },
        None => None,
    }
}

/// Decodes credentials from a document.
pub fn decode_credentials(json: &Json) -> (credentials: Option<HouseOfIoTCredentials>)
    ensures
        match credentials {
            Some(c) => credentials_of_json(json@) == Some(c@),
            None => credentials_of_json(json@) is None,
        },
{
    let connection_str = json.text_member("connection_str");
    let name_and_type = json.text_member("name_and_type");
    let password = json.text_member("password");
    let admin_password = json.text_member("admin_password");
    let outside_name = json.text_member("outside_name");
    match (connection_str, name_and_type, password, admin_password, outside_name) {
        (Some(connection_str), Some(name_and_type), Some(password), Some(admin_password), Some(outside_name)) => Some(
            HouseOfIoTCredentials {
                connection_str,
                name_and_type,
                password,
                admin_password,
                outside_name,
            },
        ),
        _ => None,
    }
}

/// Decodes an action from a document.
pub fn decode_action(json: &Json) -> (action: Option<HOIActionData>)
    ensures
        match action {
            Some(a) => action_of_json(json@) == Some(a@),
            None => action_of_json(json@) is None,
        },
{
    let server_id = json.text_member("server_id");
    let bot_name = json.text_member("bot_name");
    let action = json.text_member("action");
    match (server_id, bot_name, action) {
        (Some(server_id), Some(bot_name), Some(action)) => Some(
            HOIActionData { server_id, bot_name, action },
        ),
        _ => None,
    }
}

/// Decodes one passive-data record from a document.
pub fn decode_passive_single(json: &Json) -> (record: Option<HOIBasicPassiveSingle>)
    ensures
        match record {
            Some(r) => passive_single_of_json(json@) == Some(r@),
            None => passive_single_of_json(json@) is None,
        },
{
    let active_status = json.bool_member("active_status");
    let device_name = json.text_member("device_name");
    let device_type = json.text_member("device_type");
    match (active_status, device_name, device_type) {
        (Some(active_status), Some(device_name), Some(device_type)) => Some(
            HOIBasicPassiveSingle { active_status, device_name, device_type },
        ),
        _ => None,
    }
}

/// Decodes a list of passive-data records from a document.
pub fn decode_passive_list(json: &Json) -> (records: Option<Vec<HOIBasicPassiveSingle>>)
    ensures
        match records {
            Some(r) => passive_list_of_json(json@) == Some(passive_views(r@)),
            None => passive_list_of_json(json@) is None,
        },
{
    match json {
        Json::Array(items) => {
            proof {
                lemma_array_view(*items);
            }
            let ghost all = json@->Array_0;
            let mut records: Vec<HOIBasicPassiveSingle> = Vec::new();
            let mut i: usize = 0;
            while i < items.len()
                invariant
                    i <= items@.len(),
                    json@ == JsonValue::Array(all),
                    all.len() == items@.len(),
                    forall|k: int| 0 <= k < items@.len() ==> #[trigger] all[k] == items@[k]@,
                    records@.len() == i,
                    forall|k: int|
                        0 <= k < i ==> passive_single_of_json(#[trigger] all[k]) == Some(
                            records@[k]@,
                        ),
                decreases items@.len() - i,
            {
                match decode_passive_single(&items[i]) {
                    Some(record) => {
                        records.push(record);
                    },
                    None => {
                        assert(passive_single_of_json(all[i as int]) is None);
                        return None;
                    },
                }
                i += 1;
            }
            proof {
                assert(passive_list_of_json(json@) is Some);
                assert(passive_list_of_json(json@)->0 =~= passive_views(records@));
            }
            Some(records)
        },
        _ => None,
    }
}

/// Decodes the telemetry that a device frame carries.
pub fn decode_telemetry(json: &Json) -> (records: Option<Vec<HOIBasicPassiveSingle>>)
    ensures
        match records {
            Some(r) => telemetry_of_json(json@) == Some(passive_views(r@)),
            None => telemetry_of_json(json@) is None,
        },
{
    match json.member("bots") {
        Some(Json::Null) => None,
        Some(list) => decode_passive_list(list),
        None => None,
    }
}

/// `true` or `false`, as JSON writes them.
pub open spec fn bool_text(value: bool) -> Seq<char> {
    if value {
        "true"@
    } else {
        "false"@
    }
}

/// The JSON text of a control-bus message.
pub open spec fn general_message_text(message: GeneralMessageView) -> Seq<char> {
    "{\"category\":"@ + json_string_literal(message.category) + ",\"data\":"@
        + json_string_literal(message.data) + ",\"server_id\":"@ + json_string_literal(
        message.server_id,
    ) + "}"@
}

/// The JSON text of an authentication result. An absent session id is
/// written as `null`.
pub open spec fn auth_response_text(response: AuthResponseView) -> Seq<char> {
    "{\"outside_name\":"@ + json_string_literal(response.outside_name) + ",\"passed_auth\":"@
        + bool_text(response.passed_auth) + ",\"server_id\":"@ + match response.server_id {
        Some(id) => json_string_literal(id),
        None => "null"@,
    } + "}"@
}

/// The JSON text of one passive-data record.
pub open spec fn passive_single_text(record: PassiveSingleView) -> Seq<char> {
    "{\"active_status\":"@ + bool_text(record.active_status) + ",\"device_name\":"@
        + json_string_literal(record.device_name) + ",\"device_type\":"@ + json_string_literal(
        record.device_type,
    ) + "}"@
}

/// The JSON texts of the records, separated by commas.
pub open spec fn passive_items_text(records: Seq<PassiveSingleView>) -> Seq<char>
    decreases records.len(),
{
    if records.len() == 0 {
        Seq::empty()
    } else if records.len() == 1 {
        passive_single_text(records[0])
    } else {
        passive_items_text(records.drop_last()) + ","@ + passive_single_text(records.last())
    }
}

/// The JSON text of a list of passive-data records: an array.
pub open spec fn passive_list_text(records: Seq<PassiveSingleView>) -> Seq<char> {
    "["@ + passive_items_text(records) + "]"@
}

fn push_bool(out: &mut String, value: bool)
    ensures
        final(out)@ == old(out)@ + bool_text(value),
{
    if value {
        out.append("true");
    } else {
        out.append("false");
    }
}

/// Writes a control-bus message as JSON text.
pub fn encode_general_message(message: &GeneralMessage) -> (text: String)
    ensures
        text@ == general_message_text(message@),
{
    let mut out = String::new();
    out.append("{\"category\":");
    push_string_literal(&mut out, message.category.as_str());
    out.append(",\"data\":");
    push_string_literal(&mut out, message.data.as_str());
    out.append(",\"server_id\":");
    push_string_literal(&mut out, message.server_id.as_str());
    out.append("}");
    assert(out@ =~= general_message_text(message@));
    out
}

/// Writes an authentication result as JSON text.
pub fn encode_auth_response(response: &AuthResponse) -> (text: String)
    ensures
        text@ == auth_response_text(response@),
{
    let mut out = String::new();
    out.append("{\"outside_name\":");
    push_string_literal(&mut out, response.outside_name.as_str());
    out.append(",\"passed_auth\":");
    push_bool(&mut out, response.passed_auth);
    out.append(",\"server_id\":");
    match &response.server_id {
        Some(id) => {
            push_string_literal(&mut out, id.as_str());
        },
        None => {
            out.append("null");
        },
    }
    out.append("}");
    assert(out@ =~= auth_response_text(response@));
    out
}

fn push_passive_single(out: &mut String, record: &HOIBasicPassiveSingle)
    ensures
        final(out)@ == old(out)@ + passive_single_text(record@),
{
    out.append("{\"active_status\":");
    push_bool(out, record.active_status);
    out.append(",\"device_name\":");
    push_string_literal(out, record.device_name.as_str());
    out.append(",\"device_type\":");
    push_string_literal(out, record.device_type.as_str());
    out.append("}");
    assert(out@ =~= old(out)@ + passive_single_text(record@));
}

/// Writes a list of passive-data records as JSON text.
pub fn encode_passive_list(records: &Vec<HOIBasicPassiveSingle>) -> (text: String)
    ensures
        text@ == passive_list_text(passive_views(records@)),
{
    let ghost views = passive_views(records@);
    let mut out = String::new();
    out.append("[");
    let mut i: usize = 0;
    while i < records.len()
        invariant
            i <= records@.len(),
            views == passive_views(records@),
            out@ == "["@ + passive_items_text(views.take(i as int)),
        decreases records@.len() - i,
    {
        let ghost before = out@;
        if i > 0 {
            out.append(",");
        }
        push_passive_single(&mut out, &records[i]);
        proof {
            let next = views.take(i + 1);
            assert(next.drop_last() =~= views.take(i as int));
            assert(next.last() == records@[i as int]@);
            assert(out@ =~= "["@ + passive_items_text(next));
        }
        i += 1;
    }
    proof {
        assert(views.take(i as int) =~= views);
    }
    out.append("]");
    out
}

} // verus!
