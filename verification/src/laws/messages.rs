//! Laws on the messages of the bridge.

use vstd::prelude::*;

use crate::bridge::calls::{
    accept_params, error_content, extra_members, handle_tools_call, last_value, merged,
    merged_members_are_read_back, output_text, record, record_base, reject, CallOutcome, Dispatched,
    ToolOutput, ToolsCallParams,
};
use crate::bridge::catalog::{
    catalog_view, kind_for_tool, parameter_json, required_names, schema_json, tool_json,
    tool_parameters, tools_json, ParameterKind, ParameterView, Tool,
};
use crate::bridge::protocol::{
    members_of, method_of, process_message, reply_status, respond, BridgeStep, JsonRpcError,
    LspMcpBridge,
};
use crate::json::{lookup, member_index, member_index_is_first, Json, JsonView};
use crate::laws::{has_member, lacks_member, member_stands_at};
use crate::text::{decimal, signed_decimal};

verus! {

/// Looking a member up finds the first of the name.
pub proof fn members_are_looked_up(
    members: Seq<(Seq<char>, JsonView)>,
    name: Seq<char>,
    held: JsonView,
)
    ensures
        lookup(members, name) == Some(held) <==> has_member(JsonView::Object(members), name, held),
        lookup(members, name) is None <==> lacks_member(JsonView::Object(members), name),
{
    member_index_is_first(members, name);
    if let Some(i) = member_index(members, name) {
        assert(members[i] == (name, members[i].1));
        assert(has_member(JsonView::Object(members), name, members[i].1));
    }
    if has_member(JsonView::Object(members), name, held) {
        let i = choose|i: int|
            {
                &&& 0 <= i < members.len()
                &&& #[trigger] members[i] == (name, held)
                &&& (forall|j: int| 0 <= j < i ==> (#[trigger] members[j]).0 != name)
            };
        assert(members[i].0 == name);
    }
}

/// The value is what an agent reads: a single text, and whether it tells of an error.
pub open spec fn reads_as(value: JsonView, text: Seq<char>, is_error: bool) -> bool {
    &&& has_member(value, "isError"@, JsonView::Bool(is_error))
    &&& exists|item: JsonView|
        {
            &&& #[trigger] has_member(value, "content"@, JsonView::Array(seq![item]))
            &&& has_member(item, "type"@, JsonView::Text("text"@))
            &&& has_member(item, "text"@, JsonView::Text(text))
        }
}

proof fn content_is_read(text: Seq<char>, is_error: bool)
    ensures
        reads_as(crate::bridge::calls::content(text, is_error), text, is_error),
{
    reveal_strlit("content");
    reveal_strlit("isError");
    reveal_strlit("type");
    reveal_strlit("text");
    assert("content"@.len() == 7 && "isError"@.len() == 7);
    assert("content"@[0] == 'c' && "isError"@[0] == 'i');
    assert("type"@.len() == 4 && "text"@.len() == 4 && "type"@[1] == 'y' && "text"@[1] == 'e');
    let value = crate::bridge::calls::content(text, is_error);
    let members = value->Object_0;
    assert(members[0].0 == "content"@ && members[1].0 == "isError"@);
    assert(has_member(value, "isError"@, members[1].1));
    let items = members[0].1->Array_0;
    let item = items[0];
    assert(items =~= seq![item]);
    assert(has_member(value, "content"@, JsonView::Array(seq![item])));
    let inner = item->Object_0;
    assert(inner[0].0 == "type"@ && inner[1].0 == "text"@);
    assert(has_member(item, "type"@, inner[0].1));
    assert(has_member(item, "text"@, inner[1].1));
}

/// An agent reads an error as that.
pub proof fn errors_are_read(error: &str, r: Json)
    requires
        call_ensures(error_content, (error,), r),
    ensures
        reads_as(r.view(), error@, true),
{
    content_is_read(error@, true);
}

/// How calls of a tool are displayed.
pub open spec fn displayed_as(name: Seq<char>) -> Seq<char> {
    if name == "apply_text_edit"@ || name == "lsp_format_document"@ || name == "lsp_rename_symbol"@
        || name == "lsp_apply_code_action"@ {
        "edit"@
    } else if name == "lsp_find_references"@ || name == "lsp_workspace_symbol"@ {
        "search"@
    } else if name == "lsp_diagnostics"@ || name == "lsp_hover"@ || name == "read_buffer"@ || name
        == "lsp_list_language_servers"@ {
        "read"@
    } else {
        "other"@
    }
}

/// Tools that change files are displayed as edits, those that look for places as searches, those
/// that read as reading, and the rest as something else.
pub proof fn tools_are_displayed_by_kind(name: &str, kind: &'static str)
    requires
        call_ensures(kind_for_tool, (name,), kind),
    ensures
        kind@ == displayed_as(name@),
{
}

/// An agent reads the text of a tool that succeeded, and the error of one that failed; only a call
/// that succeeded is published, under the name of its tool. Where the editor gives no answer at all,
/// the call fails.
pub proof fn outcomes_are_read_by_the_agent(name: String, dispatched: Dispatched, r: CallOutcome)
    requires
        call_ensures(handle_tools_call, (name, dispatched), r),
    ensures
        dispatched matches Dispatched::Replied(Ok(output)) ==> {
            &&& r.result matches Ok(value)
            &&& reads_as(
                value.view(),
                match output {
                    ToolOutput::Text(text) => text@,
                    ToolOutput::Rich { text, .. } => text@,
                },
                false,
            )
            &&& r.published matches Some(entry)
            &&& entry.tool@ == name@
        },
        dispatched matches Dispatched::Replied(Err(error)) ==> {
            &&& r.published is None
            &&& r.result matches Ok(value)
            &&& reads_as(value.view(), error@, true)
        },
        dispatched is QueueClosed ==> {
            &&& r.published is None
            &&& r.result matches Err(e)
            &&& e.code == -32603
            &&& e.message@ == "dispatch queue closed"@
        },
        dispatched is ReplyDropped ==> {
            &&& r.published is None
            &&& r.result matches Err(e)
            &&& e.code == -32603
            &&& e.message@ == "foreground dispatch dropped reply"@
        },
{
    if let Dispatched::Replied(reply) = dispatched {
        match reply {
            Ok(output) => content_is_read(output_text(output), false),
            Err(error) => content_is_read(error@, true),
        }
    }
}

proof fn base_of_record(name: Seq<char>, text: Seq<char>)
    ensures
        ({
            let base = JsonView::Object(record_base(name, text));
            &&& has_member(base, "version"@, JsonView::Number("1"@))
            &&& has_member(base, "kind"@, JsonView::Text(displayed_as(name)))
            &&& has_member(base, "tool"@, JsonView::Text(name))
            &&& (name == "read_buffer"@ ==> has_member(base, "text"@, JsonView::Text(text)))
            &&& (name != "read_buffer"@ ==> lacks_member(base, "text"@))
        }),
{
    reveal_strlit("version");
    reveal_strlit("kind");
    reveal_strlit("tool");
    reveal_strlit("text");
    assert("version"@.len() == 7 && "kind"@.len() == 4 && "tool"@.len() == 4 && "text"@.len() == 4);
    assert("kind"@[0] == 'k' && "tool"@[0] == 't' && "text"@[0] == 't');
    assert("tool"@[1] == 'o' && "text"@[1] == 'e');
    let members = record_base(name, text);
    let base = JsonView::Object(members);
    assert(members[0].0 == "version"@ && members[1].0 == "kind"@ && members[2].0 == "tool"@);
    member_stands_at(members, 0);
    member_stands_at(members, 1);
    member_stands_at(members, 2);
    if name == "read_buffer"@ {
        assert(members[3].0 == "text"@);
        member_stands_at(members, 3);
    } else {
        assert(members.len() == 3);
    }
}

proof fn last_is_last(extra: Seq<(Seq<char>, JsonView)>, i: int)
    requires
        0 <= i < extra.len(),
        forall|j: int| i < j < extra.len() ==> (#[trigger] extra[j]).0 != extra[i].0,
    ensures
        last_value(extra, extra[i].0) == Some(extra[i].1),
    decreases extra.len(),
{
    if i < extra.len() - 1 {
        let rest = extra.drop_last();
        assert forall|j: int| i < j < rest.len() implies (#[trigger] rest[j]).0 != rest[i].0 by {
            assert(rest[j] == extra[j]);
        }
        last_is_last(rest, i);
        assert(extra[extra.len() - 1].0 != extra[i].0);
    }
}

proof fn nothing_is_last(extra: Seq<(Seq<char>, JsonView)>, name: Seq<char>)
    requires
        forall|j: int| 0 <= j < extra.len() ==> (#[trigger] extra[j]).0 != name,
    ensures
        last_value(extra, name) is None,
    decreases extra.len(),
{
    if extra.len() > 0 {
        let rest = extra.drop_last();
        assert forall|j: int| 0 <= j < rest.len() implies (#[trigger] rest[j]).0 != name by {
            assert(rest[j] == extra[j]);
        }
        nothing_is_last(rest, name);
        assert(extra[extra.len() - 1].0 != name);
    }
}

/// What is published of a call without data of its own: its tool, how that is displayed, and for a
/// buffer that was read its text.
pub proof fn plain_calls_are_published(name: String, text: String, r: CallOutcome)
    requires
        call_ensures(
            handle_tools_call,
            (name, Dispatched::Replied(Ok(ToolOutput::Text(text)))),
            r,
        ),
    ensures
        r.published matches Some(entry) && {
            let payload = entry.payload.view();
            &&& has_member(payload, "version"@, JsonView::Number("1"@))
            &&& has_member(payload, "kind"@, JsonView::Text(displayed_as(name@)))
            &&& has_member(payload, "tool"@, JsonView::Text(name@))
            &&& (name@ == "read_buffer"@ ==> has_member(payload, "text"@, JsonView::Text(text@)))
            &&& (name@ != "read_buffer"@ ==> lacks_member(payload, "text"@))
        },
{
    base_of_record(name@, text@);
}

/// What is published of a call with data for the editor: all of these, each under its own name, and
/// beside them what is published of every call, where the data say nothing else.
pub proof fn data_for_the_editor_are_published(
    name: String,
    text: String,
    meta: Json,
    extra: Seq<(Seq<char>, JsonView)>,
    i: int,
    r: CallOutcome,
)
    requires
        has_member(meta.view(), "zed_bridge"@, JsonView::Object(extra)),
        call_ensures(
            handle_tools_call,
            (name, Dispatched::Replied(Ok(ToolOutput::Rich { text, meta }))),
            r,
        ),
    ensures
        r.published matches Some(entry) && {
            let payload = entry.payload.view();
            &&& (0 <= i < extra.len() && (forall|j: int|
                i < j < extra.len() ==> (#[trigger] extra[j]).0 != extra[i].0) ==> has_member(
                payload,
                extra[i].0,
                extra[i].1,
            ))
            &&& ((forall|j: int| 0 <= j < extra.len() ==> (#[trigger] extra[j]).0 != "tool"@)
                ==> has_member(payload, "tool"@, JsonView::Text(name@)))
            &&& ((forall|j: int| 0 <= j < extra.len() ==> (#[trigger] extra[j]).0 != "kind"@)
                ==> has_member(payload, "kind"@, JsonView::Text(displayed_as(name@))))
            &&& ((forall|j: int| 0 <= j < extra.len() ==> (#[trigger] extra[j]).0 != "text"@) && name@
                == "read_buffer"@ ==> has_member(payload, "text"@, JsonView::Text(text@)))
        },
{
    let output = ToolOutput::Rich { text, meta };
    let base = record_base(name@, text@);
    let all = record(name@, output);
    members_are_looked_up(members_of(meta.view()), "zed_bridge"@, JsonView::Object(extra));
    assert(extra_members(meta.view()) == extra);
    assert(all == merged(base, extra));
    base_of_record(name@, text@);
    if 0 <= i < extra.len() && (forall|j: int|
        i < j < extra.len() ==> (#[trigger] extra[j]).0 != extra[i].0) {
        last_is_last(extra, i);
        merged_members_are_read_back(base, extra, extra[i].0);
        members_are_looked_up(all, extra[i].0, extra[i].1);
    }
    if forall|j: int| 0 <= j < extra.len() ==> (#[trigger] extra[j]).0 != "tool"@ {
        nothing_is_last(extra, "tool"@);
        merged_members_are_read_back(base, extra, "tool"@);
        members_are_looked_up(base, "tool"@, JsonView::Text(name@));
        members_are_looked_up(all, "tool"@, JsonView::Text(name@));
    }
    if forall|j: int| 0 <= j < extra.len() ==> (#[trigger] extra[j]).0 != "kind"@ {
        nothing_is_last(extra, "kind"@);
        merged_members_are_read_back(base, extra, "kind"@);
        members_are_looked_up(base, "kind"@, JsonView::Text(displayed_as(name@)));
        members_are_looked_up(all, "kind"@, JsonView::Text(displayed_as(name@)));
    }
    if (forall|j: int| 0 <= j < extra.len() ==> (#[trigger] extra[j]).0 != "text"@) && name@
        == "read_buffer"@ {
        nothing_is_last(extra, "text"@);
        merged_members_are_read_back(base, extra, "text"@);
        members_are_looked_up(base, "text"@, JsonView::Text(text@));
        members_are_looked_up(all, "text"@, JsonView::Text(text@));
    }
}

/// Parameters of a call that could be read are taken as they are, and others refused with the reason.
pub proof fn parameters_are_accepted(
    params: Result<ToolsCallParams, String>,
    r: Result<ToolsCallParams, JsonRpcError>,
)
    requires
        call_ensures(accept_params, (params,), r),
    ensures
        params matches Ok(p) ==> (r matches Ok(q) && q == p),
        params matches Err(error) ==> (r matches Err(e) && e.code == -32602 && e.message@
            == "invalid tools/call params: "@ + error@),
{
}

/// The value answers the request of the id: it has the version of the protocol and the id, and
/// either a result or an error with its code and message.
pub open spec fn is_response(value: JsonView, id: JsonView) -> bool {
    &&& has_member(value, "jsonrpc"@, JsonView::Text("2.0"@))
    &&& has_member(value, "id"@, id)
}

proof fn response_is_read(id: JsonView, outcome: Result<JsonView, JsonRpcError>, value: JsonView)
    requires
        crate::bridge::protocol::response(Some(id), outcome) == Some(value),
    ensures
        is_response(value, id),
        outcome matches Ok(result) ==> has_member(value, "result"@, result) && lacks_member(
            value,
            "error"@,
        ),
        outcome matches Err(error) ==> {
            &&& lacks_member(value, "result"@)
            &&& exists|told: JsonView|
                {
                    &&& #[trigger] has_member(value, "error"@, told)
                    &&& has_member(
                        told,
                        "code"@,
                        JsonView::Number(signed_decimal(error.code as int)),
                    )
                    &&& has_member(told, "message"@, JsonView::Text(error.message@))
                }
        },
{
    reveal_strlit("jsonrpc");
    reveal_strlit("id");
    reveal_strlit("result");
    reveal_strlit("error");
    reveal_strlit("code");
    reveal_strlit("message");
    assert("jsonrpc"@.len() == 7 && "id"@.len() == 2 && "result"@.len() == 6 && "error"@.len() == 5);
    assert("code"@.len() == 4 && "message"@.len() == 7);
    let members = value->Object_0;
    assert(members.len() == 3);
    assert(members[0].0 == "jsonrpc"@ && members[1].0 == "id"@);
    assert(has_member(value, "jsonrpc"@, members[0].1));
    assert(has_member(value, "id"@, members[1].1));
    match outcome {
        Ok(result) => {
            assert(members[2] == ("result"@, result));
            assert(has_member(value, "result"@, result));
        },
        Err(error) => {
            let told = error.json();
            assert(members[2] == ("error"@, told));
            assert(has_member(value, "error"@, told));
            let inner = told->Object_0;
            assert(inner[0].0 == "code"@ && inner[1].0 == "message"@);
            assert(has_member(told, "code"@, inner[0].1));
            assert(has_member(told, "message"@, inner[1].1));
        },
    }
}

/// A request is answered under its id, with its result or with its error, and a notification is not
/// answered at all.
pub proof fn requests_get_their_outcome(
    id: Option<Json>,
    outcome: Result<Json, JsonRpcError>,
    reply: Option<Json>,
)
    requires
        call_ensures(respond, (id, outcome), reply),
    ensures
        reply is Some <==> id is Some,
        id matches Some(id) ==> {
            &&& is_response((reply->0).view(), id.view())
            &&& (outcome matches Ok(result) ==> has_member(
                (reply->0).view(),
                "result"@,
                result.view(),
            ) && lacks_member((reply->0).view(), "error"@))
            &&& (outcome matches Err(error) ==> {
                &&& lacks_member((reply->0).view(), "result"@)
                &&& exists|told: JsonView|
                    {
                        &&& #[trigger] has_member((reply->0).view(), "error"@, told)
                        &&& has_member(
                            told,
                            "code"@,
                            JsonView::Number(signed_decimal(error.code as int)),
                        )
                        &&& has_member(told, "message"@, JsonView::Text(error.message@))
                    }
            })
        },
{
    if let Some(id) = id {
        let seen = match outcome {
            Ok(value) => Ok::<JsonView, JsonRpcError>(value.view()),
            Err(error) => Err(error),
        };
        response_is_read(id.view(), seen, (reply->0).view());
    }
}

/// A call of a tool is passed on with its id and its parameters, where the message has them.
pub proof fn calls_are_passed_on(message: Json, step: BridgeStep)
    requires
        has_member(message.view(), "method"@, JsonView::Text("tools/call"@)),
        call_ensures(process_message, (message,), step),
    ensures
        step matches BridgeStep::CallTool { id, params } && {
            &&& (forall|held: JsonView| #[trigger]
                has_member(message.view(), "id"@, held) ==> (id matches Some(i) && i.view() == held))
            &&& (lacks_member(message.view(), "id"@) ==> id is None)
            &&& (forall|held: JsonView| #[trigger]
                has_member(message.view(), "params"@, held) ==> params.view() == held)
            &&& (lacks_member(message.view(), "params"@) ==> params.view() is Null)
        },
{
    let members = members_of(message.view());
    members_are_looked_up(members, "method"@, JsonView::Text("tools/call"@));
    members_are_looked_up(members, "id"@, JsonView::Null);
    members_are_looked_up(members, "params"@, JsonView::Null);
    assert forall|held: JsonView| #[trigger] has_member(message.view(), "id"@, held) implies lookup(
        members,
        "id"@,
    ) == Some(held) by {
        members_are_looked_up(members, "id"@, held);
    }
    assert forall|held: JsonView| #[trigger] has_member(message.view(), "params"@, held) implies lookup(
        members,
        "params"@,
    ) == Some(held) by {
        members_are_looked_up(members, "params"@, held);
    }
}

/// A message that names no method is not answered.
pub proof fn messages_without_method_are_ignored(message: Json, step: BridgeStep)
    requires
        forall|method: Seq<char>|
            !#[trigger] has_member(message.view(), "method"@, JsonView::Text(method)),
        call_ensures(process_message, (message,), step),
    ensures
        step matches BridgeStep::Reply(None),
{
    let members = members_of(message.view());
    if let Some(JsonView::Text(method)) = lookup(members, "method"@) {
        members_are_looked_up(members, "method"@, JsonView::Text(method));
        assert(!has_member(message.view(), "method"@, JsonView::Text(method)));
    }
}

/// What a bridge announces of itself.
pub open spec fn introduces_itself(value: JsonView) -> bool {
    &&& has_member(value, "protocolVersion"@, JsonView::Text("2024-11-05"@))
    &&& exists|capabilities: JsonView| #[trigger]
        has_member(value, "capabilities"@, capabilities) && has_member(
            capabilities,
            "tools"@,
            JsonView::Object(Seq::empty()),
        )
    &&& exists|info: JsonView|
        {
            &&& #[trigger] has_member(value, "serverInfo"@, info)
            &&& has_member(info, "name"@, JsonView::Text("zed-lsp-bridge"@))
            &&& has_member(info, "version"@, JsonView::Text("0.1.0"@))
        }
}

proof fn introduction_is_read()
    ensures
        introduces_itself(crate::bridge::protocol::server_info()),
{
    reveal_strlit("protocolVersion");
    reveal_strlit("capabilities");
    reveal_strlit("serverInfo");
    reveal_strlit("name");
    reveal_strlit("version");
    assert("protocolVersion"@.len() == 15 && "capabilities"@.len() == 12 && "serverInfo"@.len() == 10);
    assert("name"@.len() == 4 && "version"@.len() == 7);
    let value = crate::bridge::protocol::server_info();
    let members = value->Object_0;
    assert(members[0].0 == "protocolVersion"@ && members[1].0 == "capabilities"@ && members[2].0
        == "serverInfo"@);
    assert(has_member(value, "protocolVersion"@, members[0].1));
    let capabilities = members[1].1;
    assert(has_member(value, "capabilities"@, capabilities));
    let inner = capabilities->Object_0;
    assert(inner[0].0 == "tools"@);
    assert(has_member(capabilities, "tools"@, inner[0].1));
    let info = members[2].1;
    assert(has_member(value, "serverInfo"@, info));
    let parts = info->Object_0;
    assert(parts[0].0 == "name"@ && parts[1].0 == "version"@);
    assert(has_member(info, "name"@, parts[0].1));
    assert(has_member(info, "version"@, parts[1].1));
}

/// The methods of the protocol are answered: an introduction, the list of the tools, an empty object
/// for a ping, nothing for what needs no answer, and an error for a method that there is not. All
/// this under the id of the request; without one there is no answer.
pub proof fn methods_are_answered(
    message: Json,
    method: Seq<char>,
    id: JsonView,
    announced: Json,
    step: BridgeStep,
)
    requires
        method != "tools/call"@,
        has_member(message.view(), "method"@, JsonView::Text(method)),
        call_ensures(tools_json, (), announced),
        call_ensures(process_message, (message,), step),
    ensures
        lacks_member(message.view(), "id"@) ==> step matches BridgeStep::Reply(None),
        has_member(message.view(), "id"@, id) ==> {
            &&& step matches BridgeStep::Reply(Some(reply))
            &&& is_response(reply.view(), id)
            &&& (method == "initialize"@ ==> exists|result: JsonView| #[trigger]
                has_member(reply.view(), "result"@, result) && introduces_itself(result))
            &&& (method == "notifications/initialized"@ ==> has_member(
                reply.view(),
                "result"@,
                JsonView::Null,
            ))
            &&& (method == "ping"@ ==> has_member(
                reply.view(),
                "result"@,
                JsonView::Object(Seq::empty()),
            ))
            &&& (method == "tools/list"@ ==> exists|result: JsonView| #[trigger]
                has_member(reply.view(), "result"@, result) && has_member(
                    result,
                    "tools"@,
                    announced.view(),
                ))
            &&& (method != "initialize"@ && method != "notifications/initialized"@ && method
                != "ping"@ && method != "tools/list"@ ==> exists|told: JsonView|
                {
                    &&& #[trigger] has_member(reply.view(), "error"@, told)
                    &&& has_member(told, "code"@, JsonView::Number("-32601"@))
                    &&& has_member(
                        told,
                        "message"@,
                        JsonView::Text("method not supported: "@ + method),
                    )
                })
        },
{
    let members = members_of(message.view());
    members_are_looked_up(members, "method"@, JsonView::Text(method));
    members_are_looked_up(members, "id"@, id);
    assert(method_of(message.view()) == Some(method));
    reveal_strlit("initialize");
    reveal_strlit("notifications/initialized");
    reveal_strlit("ping");
    reveal_strlit("tools/list");
    assert("initialize"@.len() == 10 && "tools/list"@.len() == 10 && "ping"@.len() == 4);
    assert("notifications/initialized"@.len() == 25);
    assert("initialize"@[0] == 'i' && "tools/list"@[0] == 't');
    if has_member(message.view(), "id"@, id) {
        let reply = step->Reply_0->0;
        match crate::bridge::protocol::method_outcome(method) {
            Some(value) => {
                response_is_read(id, Ok(value), reply.view());
                assert(has_member(reply.view(), "result"@, value));
                if method == "initialize"@ {
                    introduction_is_read();
                }
                if method == "tools/list"@ {
                    let inner = value->Object_0;
                    assert(inner[0] == ("tools"@, announced.view()));
                    assert(has_member(value, "tools"@, announced.view()));
                }
            },
            None => {
                let error = choose|error: JsonRpcError|
                    {
                        &&& error.code == -32601
                        &&& error.message@ == "method not supported: "@ + method
                        &&& #[trigger] crate::bridge::protocol::answers(
                            Some(reply),
                            crate::bridge::protocol::response(Some(id), Err(error)),
                        )
                    };
                response_is_read(id, Err(error), reply.view());
                reveal_strlit("-");
                reveal_strlit("-32601");
                reveal_with_fuel(decimal, 6);
                assert(signed_decimal(-32601) =~= "-32601"@);
            },
        }
    }
}

/// A reply with a body is fine, and one without is accepted.
pub proof fn replies_have_their_status(reply: &Option<Json>, status: u16)
    requires
        call_ensures(reply_status, (reply,), status),
    ensures
        *reply is Some ==> status == 200,
        *reply is None ==> status == 202,
{
}

/// The schema takes the parameters: of each the name, whether it is a number, whether it has to be
/// given, and what it is for.
pub open spec fn takes(schema: JsonView, parameters: Seq<(Seq<char>, bool, bool, Seq<char>)>) -> bool {
    let required = parameters.filter(|p: (Seq<char>, bool, bool, Seq<char>)| p.2);
    &&& has_member(schema, "type"@, JsonView::Text("object"@))
    &&& exists|properties: Seq<(Seq<char>, JsonView)>|
        {
            &&& #[trigger] has_member(schema, "properties"@, JsonView::Object(properties))
            &&& properties.len() == parameters.len()
            &&& (forall|i: int|
                0 <= i < parameters.len() ==> (#[trigger] properties[i]).0 == parameters[i].0
                    && has_member(
                    properties[i].1,
                    "type"@,
                    JsonView::Text(
                        if parameters[i].1 {
                            "integer"@
                        } else {
                            "string"@
                        },
                    ),
                ) && has_member(
                    properties[i].1,
                    "description"@,
                    JsonView::Text(parameters[i].3),
                ))
        }
    &&& (required.len() == 0 ==> lacks_member(schema, "required"@))
    &&& (required.len() > 0 ==> has_member(
        schema,
        "required"@,
        JsonView::Array(required.map_values(|p: (Seq<char>, bool, bool, Seq<char>)| JsonView::Text(p.0))),
    ))
}

/// A parameter as name, whether it is a number, whether it has to be given, and what it is for.
spec fn parameter_row(parameter: ParameterView) -> (Seq<char>, bool, bool, Seq<char>) {
    (
        parameter.name,
        parameter.kind == ParameterKind::Integer,
        parameter.required,
        parameter.description,
    )
}

spec fn parameter_rows(parameters: Seq<ParameterView>) -> Seq<(Seq<char>, bool, bool, Seq<char>)> {
    parameters.map_values(|p: ParameterView| parameter_row(p))
}

proof fn required_rows(parameters: Seq<ParameterView>)
    ensures
        required_names(parameters) == parameter_rows(parameters).filter(
            |p: (Seq<char>, bool, bool, Seq<char>)| p.2,
        ).map_values(|p: (Seq<char>, bool, bool, Seq<char>)| JsonView::Text(p.0)),
    decreases parameters.len(),
{
    reveal(Seq::filter);
    let needed = |p: (Seq<char>, bool, bool, Seq<char>)| p.2;
    let text = |p: (Seq<char>, bool, bool, Seq<char>)| JsonView::Text(p.0);
    let rows = parameter_rows(parameters);
    if parameters.len() > 0 {
        let rest = parameters.drop_last();
        required_rows(rest);
        assert(rows.drop_last() =~= parameter_rows(rest));
        assert(rows.last() == parameter_row(parameters.last()));
        if parameters.last().required {
            assert(rows.filter(needed) == parameter_rows(rest).filter(needed).push(rows.last()));
            assert(rows.filter(needed).map_values(text) =~= parameter_rows(rest).filter(
                needed,
            ).map_values(text).push(text(rows.last())));
        }
    } else {
        assert(rows.filter(needed).map_values(text) =~= required_names(parameters));
    }
}

proof fn schema_takes(parameters: Seq<ParameterView>)
    ensures
        takes(schema_json(parameters), parameter_rows(parameters)),
{
    reveal_strlit("type");
    reveal_strlit("properties");
    reveal_strlit("required");
    reveal_strlit("enum");
    reveal_strlit("description");
    assert("type"@.len() == 4 && "properties"@.len() == 10 && "required"@.len() == 8);
    assert("enum"@.len() == 4 && "description"@.len() == 11);
    required_rows(parameters);
    let schema = schema_json(parameters);
    let members = schema->Object_0;
    let rows = parameter_rows(parameters);
    assert(members[0].0 == "type"@ && members[1].0 == "properties"@);
    assert(has_member(schema, "type"@, members[0].1));
    let properties = parameters.map_values(|p: ParameterView| (p.name, parameter_json(p)));
    assert(members[1] == ("properties"@, JsonView::Object(properties)));
    assert(has_member(schema, "properties"@, JsonView::Object(properties)));
    assert forall|i: int| 0 <= i < rows.len() implies (#[trigger] properties[i]).0 == rows[i].0
        && has_member(
        properties[i].1,
        "type"@,
        JsonView::Text(
            if rows[i].1 {
                "integer"@
            } else {
                "string"@
            },
        ),
    ) && has_member(properties[i].1, "description"@, JsonView::Text(rows[i].3)) by {
        let inner = parameter_json(parameters[i])->Object_0;
        assert(inner[0].0 == "type"@);
        member_stands_at(inner, 0);
        let at = inner.len() - 1;
        assert(inner[at].0 == "description"@ && (at == 2 ==> inner[1].0 == "enum"@));
        member_stands_at(inner, at);
    }
    if required_names(parameters).len() > 0 {
        assert(members[2] == ("required"@, JsonView::Array(required_names(parameters))));
        assert(has_member(schema, "required"@, members[2].1));
    } else {
        assert(members.len() == 2);
    }
}

/// The value announces a tool: its name, what it is for, and what it takes.
pub open spec fn announces(
    value: JsonView,
    name: Seq<char>,
    purpose: Seq<char>,
    parameters: Seq<(Seq<char>, bool, bool, Seq<char>)>,
) -> bool {
    &&& has_member(value, "name"@, JsonView::Text(name))
    &&& has_member(value, "description"@, JsonView::Text(purpose))
    &&& exists|schema: JsonView| #[trigger]
        has_member(value, "inputSchema"@, schema) && takes(schema, parameters)
}

proof fn tool_is_announced(tool: Tool)
    ensures
        announces(
            tool_json(tool),
            crate::bridge::catalog::tool_name(tool),
            crate::bridge::catalog::tool_description(tool),
            parameter_rows(tool_parameters(tool)),
        ),
{
    reveal_strlit("name");
    reveal_strlit("description");
    reveal_strlit("inputSchema");
    assert("name"@.len() == 4 && "description"@.len() == 11 && "inputSchema"@.len() == 11);
    assert("description"@[0] == 'd' && "inputSchema"@[0] == 'i');
    schema_takes(tool_parameters(tool));
    let value = tool_json(tool);
    let members = value->Object_0;
    assert(members[0].0 == "name"@ && members[1].0 == "description"@ && members[2].0 == "inputSchema"@);
    assert(has_member(value, "name"@, members[0].1));
    assert(has_member(value, "description"@, members[1].1));
    assert(has_member(value, "inputSchema"@, members[2].1));
}

/// The parameters by which a symbol is located.
pub open spec fn symbol_rows(file: Seq<char>) -> Seq<(Seq<char>, bool, bool, Seq<char>)> {
    seq![
        ("file_path"@, false, true, file),
        ("line"@, true, true, "1-based line number of the symbol."@),
        ("symbol_name"@, false, true, "The exact identifier text to locate on that line."@),
    ]
}

/// The tools are announced in order, each by its name, with what it is for and what it takes.
pub proof fn tools_are_announced(announced: Json)
    requires
        call_ensures(tools_json, (), announced),
    ensures
        announced.view() matches JsonView::Array(items) && {
            &&& items.len() == 12
            &&& announces(
                items[0],
                "lsp_find_references"@,
                crate::bridge::catalog::FIND_REFERENCES@,
                symbol_rows("Relative project path of the file containing the symbol."@),
            )
            &&& announces(
                items[1],
                "lsp_diagnostics"@,
                crate::bridge::catalog::DIAGNOSTICS@,
                seq![("path"@, false, false, "Optional relative project path. Omit for a project-wide summary."@), ("min_severity"@, false, false, crate::bridge::catalog::MIN_SEVERITY@)],
            )
            &&& announces(
                items[2],
                "lsp_rename_symbol"@,
                crate::bridge::catalog::RENAME_SYMBOL@,
                symbol_rows("Relative project path of the file containing the symbol."@).push(("new_name"@, false, true, "The new identifier to rename the symbol to."@)),
            )
            &&& announces(
                items[3],
                "lsp_format_document"@,
                crate::bridge::catalog::FORMAT_DOCUMENT@,
                seq![("file_path"@, false, true, "Relative project path of the file to format."@)],
            )
            &&& announces(
                items[4],
                "lsp_get_code_actions"@,
                crate::bridge::catalog::GET_CODE_ACTIONS@,
                symbol_rows("Relative project path of the file."@),
            )
            &&& announces(
                items[5],
                "lsp_apply_code_action"@,
                crate::bridge::catalog::APPLY_CODE_ACTION@,
                seq![("index"@, true, true, "1-based index of the code action to apply."@)],
            )
            &&& announces(
                items[6],
                "lsp_hover"@,
                crate::bridge::catalog::HOVER@,
                symbol_rows("Relative project path of the file containing the symbol."@),
            )
            &&& announces(
                items[7],
                "lsp_workspace_symbol"@,
                crate::bridge::catalog::WORKSPACE_SYMBOL@,
                seq![("query"@, false, true, "Non-empty search query (typically a substring of the symbol name)."@)],
            )
            &&& announces(
                items[8],
                "lsp_list_language_servers"@,
                crate::bridge::catalog::LIST_LANGUAGE_SERVERS@,
                Seq::empty(),
            )
            &&& announces(
                items[9],
                "lsp_restart_language_server"@,
                crate::bridge::catalog::RESTART_LANGUAGE_SERVER@,
                seq![("name"@, false, true, "Language server name as reported by lsp_list_language_servers (e.g. 'rust-analyzer')."@), ("reason"@, false, true, "Short justification visible to the user (e.g. 'diagnostics stale after large refactor')."@)],
            )
            &&& announces(
                items[10],
                "read_buffer"@,
                crate::bridge::catalog::READ_BUFFER@,
                seq![
                    ("file_path"@, false, true, "Relative project path."@),
                    ("start_line"@, true, false, "Optional 1-based line to start from."@),
                    ("end_line"@, true, false, "Optional inclusive 1-based line to end at."@),
                ],
            )
            &&& announces(
                items[11],
                "apply_text_edit"@,
                crate::bridge::catalog::APPLY_TEXT_EDIT@,
                seq![
                    ("file_path"@, false, true, "Relative project path."@),
                    ("old_string"@, false, true, "Exact text to replace. Must appear exactly once in the buffer."@),
                    ("new_string"@, false, true, "Replacement text."@),
                ],
            )
        },
{
    let items = announced.view()->Array_0;
    assert(items == catalog_view());
    rows_of_tools();
    tool_is_announced(Tool::FindReferences);
    tool_is_announced(Tool::Diagnostics);
    tool_is_announced(Tool::RenameSymbol);
    tool_is_announced(Tool::FormatDocument);
    tool_is_announced(Tool::GetCodeActions);
    tool_is_announced(Tool::ApplyCodeAction);
    tool_is_announced(Tool::Hover);
    tool_is_announced(Tool::WorkspaceSymbol);
    tool_is_announced(Tool::ListLanguageServers);
    tool_is_announced(Tool::RestartLanguageServer);
    tool_is_announced(Tool::ReadBuffer);
    tool_is_announced(Tool::ApplyTextEdit);
}

proof fn rows_of_tools()
    ensures
        parameter_rows(tool_parameters(Tool::FindReferences)) == symbol_rows("Relative project path of the file containing the symbol."@),
        parameter_rows(tool_parameters(Tool::GetCodeActions)) == symbol_rows(
            "Relative project path of the file."@,
        ),
        parameter_rows(tool_parameters(Tool::Hover)) == symbol_rows("Relative project path of the file containing the symbol."@),
        parameter_rows(tool_parameters(Tool::RenameSymbol)) == symbol_rows("Relative project path of the file containing the symbol."@).push(
            ("new_name"@, false, true, "The new identifier to rename the symbol to."@),
        ),
        parameter_rows(tool_parameters(Tool::Diagnostics)) == seq![
            ("path"@, false, false, "Optional relative project path. Omit for a project-wide summary."@),
            ("min_severity"@, false, false, crate::bridge::catalog::MIN_SEVERITY@),
        ],
        parameter_rows(tool_parameters(Tool::FormatDocument)) == seq![("file_path"@, false, true, "Relative project path of the file to format."@)],
        parameter_rows(tool_parameters(Tool::ApplyCodeAction)) == seq![("index"@, true, true, "1-based index of the code action to apply."@)],
        parameter_rows(tool_parameters(Tool::WorkspaceSymbol)) == seq![("query"@, false, true, "Non-empty search query (typically a substring of the symbol name)."@)],
        parameter_rows(tool_parameters(Tool::ListLanguageServers)) == Seq::<
            (Seq<char>, bool, bool, Seq<char>),
        >::empty(),
        parameter_rows(tool_parameters(Tool::RestartLanguageServer)) == seq![
            ("name"@, false, true, "Language server name as reported by lsp_list_language_servers (e.g. 'rust-analyzer')."@),
            ("reason"@, false, true, "Short justification visible to the user (e.g. 'diagnostics stale after large refactor')."@),
        ],
        parameter_rows(tool_parameters(Tool::ReadBuffer)) == seq![
            ("file_path"@, false, true, "Relative project path."@),
            ("start_line"@, true, false, "Optional 1-based line to start from."@),
            ("end_line"@, true, false, "Optional inclusive 1-based line to end at."@),
        ],
        parameter_rows(tool_parameters(Tool::ApplyTextEdit)) == seq![
            ("file_path"@, false, true, "Relative project path."@),
            ("old_string"@, false, true, "Exact text to replace. Must appear exactly once in the buffer."@),
            ("new_string"@, false, true, "Replacement text."@),
        ],
{
}

/// A call that waits while the editor stops taking calls is turned away.
pub proof fn waiting_calls_are_turned_away(r: Result<ToolOutput, String>)
    requires
        call_ensures(reject, (), r),
    ensures
        r matches Err(error) && error@ == "foreground dispatch queue closed"@,
{
}

/// A bridge is served over HTTP at its address.
pub proof fn bridges_are_served_at_their_address(address: &str, bridge: LspMcpBridge, url: &str)
    requires
        call_ensures(LspMcpBridge::at, (address,), bridge),
        call_ensures(LspMcpBridge::url, (&bridge,), url),
    ensures
        url@ == "http://"@ + address@ + "/"@,
{
}

/// The severities that can be asked for are announced with the parameter that takes one of them.
pub proof fn severities_are_announced()
    ensures
        exists|parameter: ParameterView|
            {
                &&& #[trigger] tool_parameters(Tool::Diagnostics)[1] == parameter
                &&& parameter.name == "min_severity"@
                &&& has_member(
                    parameter_json(parameter),
                    "enum"@,
                    JsonView::Array(
                        seq![
                            JsonView::Text("error"@),
                            JsonView::Text("warning"@),
                            JsonView::Text("information"@),
                            JsonView::Text("hint"@),
                        ],
                    ),
                )
            },
{
    reveal_strlit("type");
    reveal_strlit("enum");
    assert("type"@[0] == 't' && "enum"@[0] == 'e');
    let parameter = tool_parameters(Tool::Diagnostics)[1];
    let members = parameter_json(parameter)->Object_0;
    assert(members[0].0 == "type"@ && members[1].0 == "enum"@);
    member_stands_at(members, 1);
    assert(members[1].1->Array_0 =~= seq![
        JsonView::Text("error"@),
        JsonView::Text("warning"@),
        JsonView::Text("information"@),
        JsonView::Text("hint"@),
    ]);
}

} // verus!
