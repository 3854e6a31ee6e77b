//! The messages of the bridge: requests, notifications and what is answered to them.

use vstd::prelude::*;

use crate::bridge::catalog::{catalog_view, tools_json};
use crate::json::{
    lookup, members_view, object1, object2, object3, set_member_is_read_back, take_member, text, Json,
    JsonView, Member,
};
use crate::text::{concat2, concat3, same_text, signed_decimal, signed_decimal_text};

verus! {

/// The version of the tool protocol.
pub const PROTOCOL_VERSION: &'static str = "2024-11-05";

/// The name under which the bridge announces itself.
pub const SERVER_NAME: &'static str = "zed-lsp-bridge";

/// The version of the bridge.
pub const SERVER_VERSION: &'static str = "0.1.0";

/// A handle to a bridge that is being served.
pub struct LspMcpBridge {
    url: String,
}

impl LspMcpBridge {
    /// The URL at which the bridge is served.
    pub closed spec fn address(&self) -> Seq<char> {
        self.url@
    }

    /// The bridge that is served at a socket address.
    pub fn at(address: &str) -> (r: Self)
        ensures
            r.address() == "http://"@ + address@ + "/"@,
    {
        LspMcpBridge { url: concat3("http://", address, "/") }
    }

    /// The URL at which the bridge is served.
    pub fn url(&self) -> (r: &str)
        ensures
            r@ == self.address(),
    {
        self.url.as_str()
    }
}

/// An error of JSON-RPC.
#[derive(Debug)]
pub struct JsonRpcError {
    pub code: i32,
    pub message: String,
}

impl JsonRpcError {
    pub fn invalid_params(message: String) -> (r: Self)
        ensures
            r.code == -32602,
            r.message == message,
    {
        JsonRpcError { code: -32602, message }
    }

    pub fn internal(message: String) -> (r: Self)
        ensures
            r.code == -32603,
            r.message == message,
    {
        JsonRpcError { code: -32603, message }
    }

    pub fn method_not_found(message: String) -> (r: Self)
        ensures
            r.code == -32601,
            r.message == message,
    {
        JsonRpcError { code: -32601, message }
    }

    /// The error as JSON.
    pub open spec fn json(&self) -> JsonView {
        JsonView::Object(
            seq![
                ("code"@, JsonView::Number(signed_decimal(self.code as int))),
                ("message"@, JsonView::Text(self.message@)),
            ],
        )
    }

    /// The error as JSON.
    pub fn to_json(&self) -> (r: Json)
        ensures
            r.view() == self.json(),
    {
        object2(
            "code",
            Json::Number(signed_decimal_text(self.code)),
            "message",
            text(self.message.as_str()),
        )
    }
}

/// The members of a value; a value that is no object has none.
pub open spec fn members_of(value: JsonView) -> Seq<(Seq<char>, JsonView)> {
    match value {
        JsonView::Object(members) => members,
        _ => Seq::empty(),
    }
}

/// The method that a message names, where it names one.
pub open spec fn method_of(message: JsonView) -> Option<Seq<char>> {
    match lookup(members_of(message), "method"@) {
        Some(JsonView::Text(method)) => Some(method),
        _ => None,
    }
}

/// The response to a request with the id: nothing for a notification, which has none.
pub open spec fn response(id: Option<JsonView>, outcome: Result<JsonView, JsonRpcError>) -> Option<
    JsonView,
> {
    match id {
        None => None,
        Some(id) => Some(
            match outcome {
                Ok(value) => JsonView::Object(
                    seq![("jsonrpc"@, JsonView::Text("2.0"@)), ("id"@, id), ("result"@, value)],
                ),
                Err(error) => JsonView::Object(
                    seq![("jsonrpc"@, JsonView::Text("2.0"@)), ("id"@, id), ("error"@, error.json())],
                ),
            },
        ),
    }
}

/// Whether what is answered holds what the view says.
pub open spec fn answers(reply: Option<Json>, expected: Option<JsonView>) -> bool {
    match expected {
        Some(value) => reply matches Some(json) && json.view() == value,
        None => reply is None,
    }
}

/// What is to be done about a message.
pub enum BridgeStep {
    /// Answer; nothing where there is no response body.
    Reply(Option<Json>),
    /// Have a tool called, then respond to the id.
    CallTool { id: Option<Json>, params: Json },
}

/// What the bridge says of itself.
pub open spec fn server_info() -> JsonView {
    JsonView::Object(
        seq![
            ("protocolVersion"@, JsonView::Text(PROTOCOL_VERSION@)),
            ("capabilities"@, JsonView::Object(seq![("tools"@, JsonView::Object(Seq::empty()))])),
            (
                "serverInfo"@,
                JsonView::Object(
                    seq![
                        ("name"@, JsonView::Text(SERVER_NAME@)),
                        ("version"@, JsonView::Text(SERVER_VERSION@)),
                    ],
                ),
            ),
        ],
    )
}

/// The outcome of a method that needs no tool; `None` for one that is not supported.
pub open spec fn method_outcome(method: Seq<char>) -> Option<JsonView> {
    if method == "initialize"@ {
        Some(server_info())
    } else if method == "notifications/initialized"@ {
        Some(JsonView::Null)
    } else if method == "tools/list"@ {
        Some(JsonView::Object(seq![("tools"@, JsonView::Array(catalog_view()))]))
    } else if method == "ping"@ {
        Some(JsonView::Object(Seq::empty()))
    } else {
        None
    }
}

/// The object without members.
fn empty_object() -> (r: Json)
    ensures
        r.view() == JsonView::Object(Seq::empty()),
{
    let members: Vec<Member> = Vec::new();
    proof {
        crate::json::object_view(members);
        assert(members_view(members@) =~= Seq::empty());
    }
    Json::Object(members)
}

/// Responds to a request with the outcome of its method; a notification gets no response.
pub fn respond(id: Option<Json>, outcome: Result<Json, JsonRpcError>) -> (reply: Option<Json>)
    ensures
        answers(
            reply,
            response(
                match id {
                    Some(id) => Some(id.view()),
                    None => None,
                },
                match outcome {
                    Ok(value) => Ok(value.view()),
                    Err(error) => Err(error),
                },
            ),
        ),
{
    match id {
        None => None,
        Some(id) => match outcome {
            Ok(value) => Some(object3("jsonrpc", text("2.0"), "id", id, "result", value)),
            Err(error) => Some(
                object3("jsonrpc", text("2.0"), "id", id, "error", error.to_json()),
            ),
        },
    }
}

/// Decides on a message: what to answer, or that a tool has to be called first.
pub fn process_message(message: Json) -> (step: BridgeStep)
    ensures
        ({
            let members = members_of(message.view());
            let id = lookup(members, "id"@);
            match method_of(message.view()) {
                None => step matches BridgeStep::Reply(None),
                Some(method) => if method == "tools/call"@ {
                    &&& step matches BridgeStep::CallTool { id: i, params }
                    &&& answers(i, id)
                    &&& params.view() == match lookup(members, "params"@) {
                        Some(params) => params,
                        None => JsonView::Null,
                    }
                } else {
                    &&& step matches BridgeStep::Reply(reply)
                    &&& match method_outcome(method) {
                        Some(value) => answers(reply, response(id, Ok(value))),
                        None => exists|error: JsonRpcError|
                            {
                                &&& error.code == -32601
                                &&& error.message@ == "method not supported: "@ + method
                                &&& #[trigger] answers(reply, response(id, Err(error)))
                            },
                    }
                },
            }
        }),
{
    let mut members = match message {
        Json::Object(members) => {
            proof {
                crate::json::object_view(members);
            }
            members
        },
        _ => {
            return BridgeStep::Reply(None);
        },
    };
    let ghost all = members_view(members@);
    proof {
        reveal_strlit("id");
        reveal_strlit("method");
        reveal_strlit("params");
        assert("id"@.len() == 2 && "method"@.len() == 6 && "params"@.len() == 6);
        assert("method"@[0] == 'm' && "params"@[0] == 'p');
    }
    let id = take_member(&mut members, "id");
    let ghost rest = members_view(members@);
    proof {
        set_member_is_read_back(all, "id"@, JsonView::Null, "method"@);
        set_member_is_read_back(all, "id"@, JsonView::Null, "params"@);
        assert(lookup(rest, "method"@) == lookup(all, "method"@));
        assert(lookup(rest, "params"@) == lookup(all, "params"@));
    }
    let method = match take_member(&mut members, "method") {
        Some(Json::Text(method)) => method,
        _ => {
            return BridgeStep::Reply(None);
        },
    };
    proof {
        set_member_is_read_back(rest, "method"@, JsonView::Null, "params"@);
    }
    let method = method.as_str();
    if same_text(method, "tools/call") {
        let params = match take_member(&mut members, "params") {
            Some(params) => params,
            None => Json::Null,
        };
        return BridgeStep::CallTool { id, params };
    }
    let outcome: Result<Json, JsonRpcError> = if same_text(method, "initialize") {
        Ok(
            object3(
                "protocolVersion",
                text(PROTOCOL_VERSION),
                "capabilities",
                object1("tools", empty_object()),
                "serverInfo",
                object2("name", text(SERVER_NAME), "version", text(SERVER_VERSION)),
            ),
        )
    } else if same_text(method, "notifications/initialized") {
        Ok(Json::Null)
    } else if same_text(method, "tools/list") {
        Ok(object1("tools", tools_json()))
    } else if same_text(method, "ping") {
        Ok(empty_object())
    } else {
        Err(JsonRpcError::method_not_found(concat2("method not supported: ", method)))
    };
    BridgeStep::Reply(respond(id, outcome))
}

/// The HTTP status of a reply: accepted where it has no body.
pub fn reply_status(reply: &Option<Json>) -> (status: u16)
    ensures
        status == if reply is Some {
            200int
        } else {
            202int
        },
{
    match reply {
        Some(_) => 200,
        None => 202,
    }
}

/// A request is answered exactly where it has an id, and the answer carries that id.
pub proof fn requests_are_answered_under_their_id(
    id: Option<JsonView>,
    outcome: Result<JsonView, JsonRpcError>,
)
    ensures
        response(id, outcome) is Some <==> id is Some,
        response(id, outcome) matches Some(JsonView::Object(members)) ==> lookup(members, "id"@) == id,
{
    reveal_strlit("jsonrpc");
    reveal_strlit("id");
    if let Some(JsonView::Object(members)) = response(id, outcome) {
        assert("jsonrpc"@.len() == 7 && "id"@.len() == 2);
        crate::json::member_index_is_first(members, "id"@);
        assert(members[0].0 != "id"@ && members[1].0 == "id"@);
    }
}

} // verus!
