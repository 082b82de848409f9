//! Classification of a verified body and the role-grant command handler:
//! the decision functions of the pipeline. Anything that suspends (the one
//! outbound role-grant call) happens outside; these functions map state and
//! event to the next action and the reply.

use vstd::prelude::*;
use vstd::string::*;
use crate::json::{Json, spec_obj_get, obj_get, spec_parse_json, parse_json, str_eq};
use crate::event::{
    DiscordEvent, EventType, spec_is_handshake, is_handshake, spec_command_event,
    parse_command_event, spec_req_str_field, req_str_field,
};
use crate::response::{
    InteractionResponse, InteractionResponseType, is_message_reply, reply, reply_with, pong,
    spec_dec, append_dec_u64,
};

verus! {

/// What to do with a verified body: answer at once, or run the command
/// handler on the parsed envelope.
#[derive(Debug, PartialEq, Eq)]
pub enum Dispatch {
    Respond(InteractionResponse),
    RunCommand(DiscordEvent<Json>),
}

/// Classify a verified body. A handshake is acknowledged before anything
/// else is looked at; a command envelope goes to the handler; a body that
/// is not JSON, or any other discriminator, earns a "failed to parse"
/// reply — an acknowledged outcome, never a transport error or an abort.
pub fn classify_body(body: &str) -> (d: Dispatch)
    ensures
        spec_parse_json(body@) is None ==> (d matches Dispatch::Respond(r) && is_message_reply(
            r,
            "failed to parse"@,
        )),
        spec_parse_json(body@) matches Some(j) ==> if spec_is_handshake(j) {
            d == Dispatch::Respond(
                InteractionResponse { ir_type: InteractionResponseType::Pong, data: None },
            )
        } else {
            match spec_command_event(j) {
                Some(evv) => d matches Dispatch::RunCommand(ev) && ev@ == evv,
                None => d matches Dispatch::Respond(r) && is_message_reply(r, "failed to parse"@),
            }
        },
{
    let parsed = parse_json(body);
    match parsed {
        None => Dispatch::Respond(reply("failed to parse")),
        Some(j) => {
            if is_handshake(&j) {
                Dispatch::Respond(pong())
            } else {
                match parse_command_event(j) {
                    Some(ev) => Dispatch::RunCommand(ev),
                    None => Dispatch::Respond(reply("failed to parse")),
                }
            }
        },
    }
}

/// The role-grant command payload: the one recognized command names a
/// target role; anything else is an unknown command.
#[derive(Debug, PartialEq, Eq)]
pub enum Event {
    Role { id: String, options: Vec<RoleOption> },
    Unknown,
}

/// The one recognized command option: the role the user asks for.
#[derive(Debug, PartialEq, Eq)]
pub enum RoleOption {
    IWantToBeA { value: String },
}

/// The model of a role-grant payload: the requested role values in order.
pub enum EventView {
    Role { id: String, options: Seq<String> },
    Unknown,
}

/// The role value each option carries.
pub open spec fn spec_option_values(options: Seq<RoleOption>) -> Seq<String> {
    options.map_values(
        |o: RoleOption|
            match o {
                RoleOption::IWantToBeA { value } => value,
            },
    )
}

impl View for Event {
    type V = EventView;

    open spec fn view(&self) -> EventView {
        match *self {
            Event::Role { id, options } => EventView::Role {
                id,
                options: spec_option_values(options@),
            },
            Event::Unknown => EventView::Unknown,
        }
    }
}

/// The requested role values among the first `n` option items: each item
/// must be an object naming the recognized option and a string value.
pub open spec fn spec_options_prefix(items: Seq<Json>, n: int) -> Option<Seq<String>>
    decreases n,
{
    if n <= 0 {
        Some(Seq::empty())
    } else {
        match (spec_options_prefix(items, n - 1), items[n - 1]) {
            (Some(pre), Json::Obj(g)) => {
                if spec_req_str_field(g@, "name"@) matches Some(nm) && nm@ == "i-want-to-be-a"@ {
                    match spec_req_str_field(g@, "value"@) {
                        Some(v) => Some(pre.push(v)),
                        None => None,
                    }
                } else {
                    None
                }
            },
            _ => None,
        }
    }
}

/// The role-grant payload denoted by a JSON subtree, if any: the command
/// name picks the variant, an unrecognized name is the unknown command,
/// and the `role` command requires its identifier and its option list.
pub open spec fn spec_role_event(j: Json) -> Option<EventView> {
    match j {
        Json::Obj(fields) => match spec_req_str_field(fields@, "name"@) {
            Some(n) => if n@ == "role"@ {
                match (spec_req_str_field(fields@, "id"@), spec_obj_get(fields@, "options"@)) {
                    (Some(id), Some(Json::Arr(items))) => match spec_options_prefix(
                        items@,
                        items@.len() as int,
                    ) {
                        Some(options) => Some(EventView::Role { id, options }),
                        None => None,
                    },
                    _ => None,
                }
            } else {
                Some(EventView::Unknown)
            },
            None => None,
        },
        _ => None,
    }
}

/// Once an option item fails to parse, every longer prefix fails too.
proof fn lemma_options_prefix_fails(items: Seq<Json>, i: int, n: int)
    requires
        0 <= i < n <= items.len(),
        !(match items[i] {
            Json::Obj(g) => spec_req_str_field(g@, "name"@) matches Some(nm) && nm@
                == "i-want-to-be-a"@ && spec_req_str_field(g@, "value"@) is Some,
            _ => false,
        }),
    ensures
        spec_options_prefix(items, n) is None,
    decreases n,
{
    if n - 1 > i {
        lemma_options_prefix_fails(items, i, n - 1);
    }
}

fn options_from_items(items: &Vec<Json>) -> (r: Option<Vec<RoleOption>>)
    ensures
        match r {
            Some(v) => spec_options_prefix(items@, items@.len() as int) == Some(
                spec_option_values(v@),
            ),
            None => spec_options_prefix(items@, items@.len() as int) is None,
        },
{
    let mut out: Vec<RoleOption> = Vec::new();
    let mut i: usize = 0;
    assert(spec_option_values(out@) =~= Seq::<String>::empty());
    while i < items.len()
        invariant
            i <= items.len(),
            spec_options_prefix(items@, i as int) == Some(spec_option_values(out@)),
        decreases items.len() - i,
    {
        let ok: Option<String> = match &items[i] {
            Json::Obj(g) => match req_str_field(g, "name") {
                Some(nm) => {
                    if str_eq(nm.as_str(), "i-want-to-be-a") {
                        req_str_field(g, "value")
                    } else {
                        None
                    }
                },
                None => None,
            },
            _ => None,
        };
        match ok {
            Some(value) => {
                let ghost old_out = out@;
                let ghost v = value;
                out.push(RoleOption::IWantToBeA { value });
                proof {
                    assert(spec_option_values(out@) =~= spec_option_values(old_out).push(v));
                }
            },
            None => {
                proof {
                    lemma_options_prefix_fails(items@, i as int, items@.len() as int);
                }
                return None;
            },
        }
        i = i + 1;
    }
    Some(out)
}

/// What a command envelope asks the process to do: reply at once, or issue
/// the one outbound role-grant call and conclude from its outcome.
#[derive(Debug, PartialEq, Eq)]
pub enum RolePlan {
    Reply(InteractionResponse),
    Grant(GrantRequest),
}

/// The one outbound side effect: grant `role_id` to `user_id` in
/// `guild_id`; `username` is kept for the concluding reply.
#[derive(Debug, Clone, PartialEq, Eq)]
pub struct GrantRequest {
    pub guild_id: String,
    pub user_id: String,
    pub role_id: String,
    pub username: String,
}

/// Decide what a command envelope asks for. Every combination of missing
/// optional context earns a descriptive reply; only a recognized option
/// together with a member and a guild leads to the outbound call.
pub fn plan_role_command(ev: &DiscordEvent<Json>) -> (p: RolePlan)
    ensures
        ev.data is None ==> (p matches RolePlan::Reply(r) && is_message_reply(
            r,
            "no data for command"@,
        )),
        ev.data matches Some(j) ==> match spec_role_event(j) {
            None => p matches RolePlan::Reply(r) && is_message_reply(r, "failed to parse"@),
            Some(EventView::Unknown) => p matches RolePlan::Reply(r) && is_message_reply(
                r,
                "unknown_command"@,
            ),
            Some(EventView::Role { id, options }) => {
                if options.len() == 0 {
                    p matches RolePlan::Reply(r) && is_message_reply(r, "must request a role"@)
                } else if ev.member is None {
                    p matches RolePlan::Reply(r) && is_message_reply(
                        r,
                        "no member to apply role to"@,
                    )
                } else if ev.guild_id is None {
                    p matches RolePlan::Reply(r) && is_message_reply(
                        r,
                        "no guild to apply role in"@,
                    )
                } else {
                    p == RolePlan::Grant(
                        GrantRequest {
                            guild_id: ev.guild_id->Some_0,
                            user_id: ev.member->Some_0.user.id,
                            role_id: options[0],
                            username: ev.member->Some_0.user.username,
                        },
                    )
                }
            },
        },
{
    let j = match &ev.data {
        None => { return RolePlan::Reply(reply("no data for command")); },
        Some(j) => j,
    };
    let fields = match j {
        Json::Obj(fields) => fields,
        _ => { return RolePlan::Reply(reply("failed to parse")); },
    };
    let name = match req_str_field(fields, "name") {
        Some(n) => n,
        None => { return RolePlan::Reply(reply("failed to parse")); },
    };
    if !str_eq(name.as_str(), "role") {
        return RolePlan::Reply(reply("unknown_command"));
    }
    let _id = match req_str_field(fields, "id") {
        Some(id) => id,
        None => { return RolePlan::Reply(reply("failed to parse")); },
    };
    let options = match obj_get(fields, "options") {
        Some(Json::Arr(items)) => match options_from_items(items) {
            Some(v) => v,
            None => { return RolePlan::Reply(reply("failed to parse")); },
        },
        _ => { return RolePlan::Reply(reply("failed to parse")); },
    };
    if options.len() == 0 {
        return RolePlan::Reply(reply("must request a role"));
    }
    let member = match &ev.member {
        Some(m) => m,
        None => { return RolePlan::Reply(reply("no member to apply role to")); },
    };
    let guild_id = match &ev.guild_id {
        Some(g) => g.clone(),
        None => { return RolePlan::Reply(reply("no guild to apply role in")); },
    };
    let value = match &options[0] {
        RoleOption::IWantToBeA { value } => value.clone(),
    };
    RolePlan::Grant(
        GrantRequest {
            guild_id,
            user_id: member.user.id.clone(),
            role_id: value,
            username: member.user.username.clone(),
        },
    )
}

/// How the one outbound call ended: it never completed, or it completed
/// with a status code.
#[derive(Debug, Clone, Copy, PartialEq, Eq)]
pub enum GrantOutcome {
    TransportError,
    Status(u16),
}

/// A success status code.
pub open spec fn spec_is_success(s: u16) -> bool {
    200 <= s < 300
}

/// The static reverse lookup from role identifiers to human labels,
/// configured once at process start.
pub struct RoleTable {
    pub entries: Vec<(String, String)>,
}

/// The label bound to `key`, if any: the first matching entry.
pub open spec fn spec_role_label(entries: Seq<(String, String)>, key: Seq<char>) -> Option<String>
    decreases entries.len(),
{
    if entries.len() == 0 {
        None
    } else if entries[0].0@ == key {
        Some(entries[0].1)
    } else {
        spec_role_label(entries.skip(1), key)
    }
}

fn role_label_index(entries: &Vec<(String, String)>, key: &str) -> (r: Option<usize>)
    ensures
        match r {
            Some(i) => i < entries@.len() && spec_role_label(entries@, key@) == Some(
                entries@[i as int].1,
            ),
            None => spec_role_label(entries@, key@) is None,
        },
{
    let mut i: usize = 0;
    assert(entries@.skip(0) =~= entries@);
    while i < entries.len()
        invariant
            i <= entries.len(),
            spec_role_label(entries@, key@) == spec_role_label(entries@.skip(i as int), key@),
        decreases entries.len() - i,
    {
        assert(entries@.skip(i as int)[0] == entries@[i as int]);
        if str_eq(entries[i].0.as_str(), key) {
            return Some(i);
        }
        assert(entries@.skip(i as int).skip(1) =~= entries@.skip(i as int + 1));
        i = i + 1;
    }
    assert(entries@.skip(i as int).len() == 0);
    None
}

fn role_label<'a>(table: &'a RoleTable, key: &str) -> (r: Option<&'a String>)
    ensures
        match r {
            Some(s) => spec_role_label(table.entries@, key@) == Some(*s),
            None => spec_role_label(table.entries@, key@) is None,
        },
{
    match role_label_index(&table.entries, key) {
        Some(i) => Some(&table.entries[i].1),
        None => None,
    }
}

/// The reply owed after the outbound role-grant call: a transport failure
/// names the user and states the grant failed; a non-success status names
/// the literal code; success acknowledges the user by name, with the
/// role's label where the table knows it.
pub fn conclude_grant(
    username: &str,
    role_id: &str,
    outcome: &GrantOutcome,
    table: &RoleTable,
) -> (r: InteractionResponse)
    ensures
        *outcome is TransportError ==> is_message_reply(
            r,
            "failed to set role for "@ + username@,
        ),
        *outcome matches GrantOutcome::Status(s) ==> if spec_is_success(s) {
            match spec_role_label(table.entries@, role_id@) {
                Some(label) => is_message_reply(
                    r,
                    username@ + " has accepted the "@ + label@ + " role"@,
                ),
                None => is_message_reply(r, username@ + " has accepted a role"@),
            }
        } else {
            is_message_reply(r, "Failed with status code "@ + spec_dec(s as nat))
        },
{
    match outcome {
        GrantOutcome::TransportError => {
            let mut content = String::from_str("failed to set role for ");
            content.append(username);
            reply_with(InteractionResponseType::ChannelMessageWithSource, content)
        },
        GrantOutcome::Status(s) => {
            if 200 <= *s && *s < 300 {
                match role_label(table, role_id) {
                    Some(label) => {
                        let mut content = String::from_str(username);
                        content.append(" has accepted the ");
                        content.append(label.as_str());
                        content.append(" role");
                        assert(content@ =~= username@ + " has accepted the "@ + label@
                            + " role"@);
                        reply_with(InteractionResponseType::ChannelMessageWithSource, content)
                    },
                    None => {
                        let mut content = String::from_str(username);
                        content.append(" has accepted a role");
                        reply_with(InteractionResponseType::ChannelMessageWithSource, content)
                    },
                }
            } else {
                let mut content = String::from_str("Failed with status code ");
                append_dec_u64(&mut content, *s as u64);
                reply_with(InteractionResponseType::ChannelMessageWithSource, content)
            }
        },
    }
}

/// The rejection body sent when signature verification fails: a generic
/// message that leaks nothing about why.
pub fn rejection_body() -> (s: String)
    ensures
        s@ == "{\"error\":\"failed to verify the thing!\"}"@,
{
    String::from_str("{\"error\":\"failed to verify the thing!\"}")
}

/// The HTTP status owed for a request: a plain success for anything that
/// passed verification (even a malformed payload must be acknowledged
/// within the platform's response contract), a generic not-found rejection
/// otherwise.
pub fn response_status_code(accepted: bool) -> (s: u16)
    ensures
        accepted ==> s == 200,
        !accepted ==> s == 404,
{
    if accepted {
        200
    } else {
        404
    }
}

} // verus!
