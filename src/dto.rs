//! The request and response documents of the two endpoints.
use vstd::prelude::*;
use crate::wire::{json_quoted, json_string};

verus! {

/// The body of a configuration poll.
#[derive(Debug)]
pub struct ConfigurationRequestDTO {
    pub mac_address: String,
}

/// The desired relay state that the configuration endpoint returns.
#[derive(Debug)]
pub struct ConfigurationResponseDTO {
    pub power_on: bool,
    pub mac_address: String,
}

/// The body of the one-time device registration.
#[derive(Debug)]
pub struct RegisterDeviceDTO {
    pub mac_address: String,
    pub device_type: String,
    pub device_name: String,
    pub device_description: String,
}

/// `{"<key>":<value>` with `key` written as is and `value` already JSON.
pub open spec fn json_member(key: Seq<char>, value: Seq<char>) -> Seq<char> {
    seq!['"'] + key + seq!['"', ':'] + value
}

/// The JSON text of a configuration poll for `mac`.
pub open spec fn configuration_request_json(mac: Seq<char>) -> Seq<char> {
    seq!['{'] + json_member("macAddress"@, json_quoted(mac)) + seq!['}']
}

/// The JSON text of a registration, members in the order the endpoint lists them.
pub open spec fn register_device_json(
    mac: Seq<char>,
    device_type: Seq<char>,
    name: Seq<char>,
    description: Seq<char>,
) -> Seq<char> {
    seq!['{'] + json_member("macAddress"@, json_quoted(mac)) + seq![','] + json_member(
        "deviceType"@,
        json_quoted(device_type),
    ) + seq![','] + json_member("deviceName"@, json_quoted(name)) + seq![','] + json_member(
        "deviceDescription"@,
        json_quoted(description),
    ) + seq!['}']
}

/// Appends `"<key>":<value as a JSON string>` to `out`.
fn push_member(out: &mut String, key: &str, value: &str)
    ensures
        final(out)@ == old(out)@ + json_member(key@, json_quoted(value@)),
{
    out.append("\"");
    out.append(key);
    out.append("\":");
    let quoted = json_string(value);
    out.append(quoted.as_str());
    proof {
        reveal_strlit("\"");
        reveal_strlit("\":");
        assert(final(out)@ =~= old(out)@ + json_member(key@, json_quoted(value@)));
    }
}

impl ConfigurationRequestDTO {
    pub fn new(mac_address: String) -> (r: ConfigurationRequestDTO)
        ensures
            r.mac_address@ == mac_address@,
    {
        ConfigurationRequestDTO { mac_address }
    }

    /// The request serialised as JSON.
    pub fn to_json(&self) -> (r: String)
        ensures
            r@ == configuration_request_json(self.mac_address@),
    {
        let mut out = String::from_str("{");
        push_member(&mut out, "macAddress", self.mac_address.as_str());
        out.append("}");
        proof {
            reveal_strlit("{");
            reveal_strlit("}");
            assert(out@ =~= configuration_request_json(self.mac_address@));
        }
        out
    }
}

impl RegisterDeviceDTO {
    pub fn new(
        mac_address: String,
        device_type: String,
        device_name: String,
        device_description: String,
    ) -> (r: RegisterDeviceDTO)
        ensures
            r.mac_address@ == mac_address@,
            r.device_type@ == device_type@,
            r.device_name@ == device_name@,
            r.device_description@ == device_description@,
    {
        RegisterDeviceDTO { mac_address, device_type, device_name, device_description }
    }

    /// The registration serialised as JSON.
    pub fn to_json(&self) -> (r: String)
        ensures
            r@ == register_device_json(
                self.mac_address@,
                self.device_type@,
                self.device_name@,
                self.device_description@,
            ),
    {
        let mut out = String::from_str("{");
        push_member(&mut out, "macAddress", self.mac_address.as_str());
        out.append(",");
        push_member(&mut out, "deviceType", self.device_type.as_str());
        out.append(",");
        push_member(&mut out, "deviceName", self.device_name.as_str());
        out.append(",");
        push_member(&mut out, "deviceDescription", self.device_description.as_str());
        out.append("}");
        proof {
            reveal_strlit("{");
            reveal_strlit(",");
            reveal_strlit("}");
            assert(out@ =~= register_device_json(
                self.mac_address@,
                self.device_type@,
                self.device_name@,
                self.device_description@,
            ));
        }
        out
    }
}

} // verus!
