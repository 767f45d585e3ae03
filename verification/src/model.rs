//! The data that JavaScript hands the bindings and gets back: client info,
//! implementation info, protocol versions and peer info.
pub mod capabilities;

use vstd::prelude::*;
use vstd::string::StringExecFns;
use crate::error::BindingError;
use crate::json::{has_no_backslash, is_backslash_free_string, is_plain_string_body, json_string_parse, parse_json_string, string_body};
use crate::model::capabilities::{capabilities_from_core, capabilities_to_core, JsClientCapabilities};
use crate::protocol::{ClientInfo, ClientInfoView, Implementation, InitializeRequestParam, InitializeResult};

verus! {

/// The JSON text of a string literal whose body is `v`: `v` between double quotes.
pub open spec fn quoted(v: Seq<char>) -> Seq<char> {
    "\""@ + v + "\""@
}

/// Client info: the protocol version, capabilities and implementation info that
/// a client opens a session with.
#[derive(Debug, PartialEq)]
pub struct JsClientInfo {
    pub inner: ClientInfo,
}

impl View for JsClientInfo {
    type V = ClientInfoView;

    open spec fn view(&self) -> ClientInfoView {
        self.inner@
    }
}

impl JsClientInfo {
    /// Client info from a protocol version text, capabilities and implementation
    /// info.
    ///
    /// The version is read as the body of a JSON string literal; if that is not a
    /// JSON string, the error holds the parser's message.
    pub fn new(
        protocol_version: String,
        capabilities: &JsClientCapabilities,
        client_info: &JsImplementation,
    ) -> (r: Result<JsClientInfo, BindingError>)
        ensures
            r is Ok <==> json_string_parse(quoted(protocol_version@)) is Ok,
            r matches Ok(info) ==> info@ == (ClientInfoView {
                protocol_version: json_string_parse(quoted(protocol_version@))->Ok_0,
                capabilities: capabilities_to_core(capabilities@),
                client_info: client_info.protocol_form(),
            }),
            r matches Err(e) ==> (e matches BindingError::InvalidProtocolVersion(m)
                && m@ == json_string_parse(quoted(protocol_version@))->Err_0),
            has_no_backslash(protocol_version@) ==> (r is Ok <==> is_plain_text(protocol_version@)),
            is_plain_text(protocol_version@) ==> (r matches Ok(info)
                && info@.protocol_version == protocol_version@),
    {
        let mut text = String::from_str("\"");
        text.append(protocol_version.as_str());
        text.append("\"");
        proof {
            reveal_strlit("\"");
            assert(string_body(text@) =~= protocol_version@);
            if has_no_backslash(protocol_version@) {
                assert(is_backslash_free_string(text@));
            }
        }
        match parse_json_string(text.as_str()) {
            Ok(version) => {
                let inner = ClientInfo {
                    protocol_version: version,
                    capabilities: capabilities.to_rust(),
                    client_info: client_info.to_rust(),
                };
                Ok(JsClientInfo { inner })
            },
            Err(message) => Err(BindingError::InvalidProtocolVersion(message)),
        }
    }

    /// The protocol version.
    pub fn protocol_version(&self) -> (r: String)
        ensures
            r == self.inner.protocol_version,
    {
        self.inner.protocol_version.clone()
    }

    /// The client capabilities.
    pub fn capabilities(&self) -> (r: JsClientCapabilities)
        ensures
            r@ == capabilities_from_core(self.inner.capabilities@),
    {
        JsClientCapabilities::from_rust(&self.inner.capabilities)
    }

    /// The implementation info.
    pub fn client_info(&self) -> (r: JsImplementation)
        ensures
            r.protocol_form() == self.inner.client_info,
    {
        JsImplementation::from_rust(&self.inner.client_info)
    }

    /// The protocol's form of this client info.
    pub fn to_rust(&self) -> (r: ClientInfo)
        ensures
            r@ == self@,
    {
        self.inner.deep_clone()
    }

    /// Client info from the protocol's form.
    pub fn from_rust(core: &ClientInfo) -> (r: JsClientInfo)
        ensures
            r@ == core@,
    {
        JsClientInfo { inner: core.deep_clone() }
    }
}

/// Whether a version text can be written between quotes as a JSON string as it
/// stands: it holds no quote, no backslash and no control character.
pub open spec fn is_plain_text(v: Seq<char>) -> bool {
    is_plain_string_body(v)
}

/// Implementation info: a name and a version.
#[derive(Debug, PartialEq, Eq)]
pub struct JsImplementation {
    pub name: String,
    pub version: String,
}

impl JsImplementation {
    /// The protocol's form of this implementation info.
    pub open spec fn protocol_form(self) -> Implementation {
        Implementation { name: self.name, version: self.version }
    }

    /// Implementation info with a name and a version.
    pub fn new(name: String, version: String) -> (r: JsImplementation)
        ensures
            r.name == name,
            r.version == version,
    {
        JsImplementation { name, version }
    }

    /// The name.
    pub fn name(&self) -> (r: String)
        ensures
            r == self.name,
    {
        self.name.clone()
    }

    /// The version.
    pub fn version(&self) -> (r: String)
        ensures
            r == self.version,
    {
        self.version.clone()
    }

    /// The protocol's form of this implementation info.
    pub fn to_rust(&self) -> (r: Implementation)
        ensures
            r == self.protocol_form(),
    {
        Implementation { name: self.name.clone(), version: self.version.clone() }
    }

    /// Implementation info from the protocol's form.
    pub fn from_rust(core: &Implementation) -> (r: JsImplementation)
        ensures
            r.protocol_form() == *core,
    {
        JsImplementation { name: core.name.clone(), version: core.version.clone() }
    }
}

impl Default for JsImplementation {
    /// The implementation info of these bindings: this package's name and version.
    fn default() -> (r: JsImplementation)
        ensures
            r.name@ == "rmcp_typescript"@,
            r.version@ == "0.1.0"@,
    {
        JsImplementation {
            name: String::from_str("rmcp_typescript"),
            version: String::from_str("0.1.0"),
        }
    }
}

/// A protocol version.
#[derive(Debug, Clone, PartialEq, Eq)]
pub struct ProtocolVersion {
    pub value: String,
}

impl ProtocolVersion {
    /// The protocol version with this text.
    pub fn new(value: String) -> (r: ProtocolVersion)
        ensures
            r.value == value,
    {
        ProtocolVersion { value }
    }

    /// The version's text.
    pub fn value(&self) -> (r: String)
        ensures
            r == self.value,
    {
        self.value.clone()
    }

    /// The version's text.
    pub fn to_string(&self) -> (r: String)
        ensures
            r == self.value,
    {
        self.value.clone()
    }

    /// The latest version the bindings know: `2.0`.
    pub fn latest() -> (r: ProtocolVersion)
        ensures
            r.value@ == "2.0"@,
    {
        ProtocolVersion { value: String::from_str("2.0") }
    }
}

/// The JSON-RPC version the protocol runs on: `2.0`.
pub fn json_rpc_version_2_0() -> (r: String)
    ensures
        r@ == "2.0"@,
{
    String::from_str("2.0")
}

/// What is known of a peer: its protocol version, name and version.
#[derive(Debug, Clone, PartialEq, Eq)]
pub struct JsInfo {
    pub protocol_version: String,
    pub name: String,
    pub version: String,
}

impl JsInfo {
    /// Peer info made of its parts.
    pub fn new(protocol_version: String, name: String, version: String) -> (r: JsInfo)
        ensures
            r == (JsInfo { protocol_version, name, version }),
    {
        JsInfo { protocol_version, name, version }
    }

    /// The protocol version.
    pub fn protocol_version(&self) -> (r: String)
        ensures
            r == self.protocol_version,
    {
        self.protocol_version.clone()
    }

    /// The name.
    pub fn name(&self) -> (r: String)
        ensures
            r == self.name,
    {
        self.name.clone()
    }

    /// The version.
    pub fn version(&self) -> (r: String)
        ensures
            r == self.version,
    {
        self.version.clone()
    }

    /// The info of a server, from its answer to the initialize request.
    pub fn server(info: InitializeResult) -> (r: JsInfo)
        ensures
            r.protocol_version == info.protocol_version,
            r.name == info.server_info.name,
            r.version == info.server_info.version,
    {
        JsInfo {
            protocol_version: info.protocol_version,
            name: info.server_info.name,
            version: info.server_info.version,
        }
    }

    /// The info of a client, from its initialize request.
    pub fn client(param: InitializeRequestParam) -> (r: JsInfo)
        ensures
            r.protocol_version == param.protocol_version,
            r.name == param.client_info.name,
            r.version == param.client_info.version,
    {
        JsInfo {
            protocol_version: param.protocol_version,
            name: param.client_info.name,
            version: param.client_info.version,
        }
    }
}

} // verus!
