//! The interaction envelope: the typed event an inbound body denotes, and
//! its extraction from the JSON tree. The payload under `data` stays an
//! opaque subtree here; a concrete command schema interprets it later.

use vstd::prelude::*;
use vstd::string::*;
use crate::json::{Json, spec_obj_get, obj_get, obj_get_index, str_eq};

verus! {

/// The event discriminator: a liveness handshake or an application command.
/// Any other wire value is rejected, never coerced.
#[derive(Debug, Clone, Copy, PartialEq, Eq)]
pub enum EventType {
    Ping,
    ApplicationCommand,
}

/// Information about a user.
#[derive(Debug, Clone, PartialEq, Eq)]
pub struct User {
    pub id: String,
    pub avatar: Option<String>,
    pub bot: bool,
    pub discriminator: String,
    pub username: String,
}

/// The invoking guild member: the user plus membership attributes.
#[derive(Debug, Clone, PartialEq, Eq)]
pub struct GuildMember {
    pub deaf: bool,
    pub joined_at: Option<String>,
    pub mute: bool,
    pub nick: Option<String>,
    pub roles: Vec<String>,
    pub user: User,
}

/// The mathematical model of a member: roles as a sequence.
pub struct MemberView {
    pub deaf: bool,
    pub joined_at: Option<String>,
    pub mute: bool,
    pub nick: Option<String>,
    pub roles: Seq<String>,
    pub user: User,
}

impl View for GuildMember {
    type V = MemberView;

    open spec fn view(&self) -> MemberView {
        MemberView {
            deaf: self.deaf,
            joined_at: self.joined_at,
            mute: self.mute,
            nick: self.nick,
            roles: self.roles@,
            user: self.user,
        }
    }
}

/// An inbound interaction envelope, generic over the command payload type.
/// `data` and `member` are independently optional: absence is a normal
/// state, not an error.
#[derive(Debug, PartialEq, Eq)]
pub struct DiscordEvent<T> {
    pub event_type: EventType,
    pub data: Option<T>,
    pub guild_id: Option<String>,
    pub channel_id: Option<String>,
    pub member: Option<GuildMember>,
    pub token: String,
    pub version: u64,
}

/// The mathematical model of an envelope whose payload is an opaque tree.
pub struct DiscordEventView {
    pub event_type: EventType,
    pub data: Option<Json>,
    pub guild_id: Option<String>,
    pub channel_id: Option<String>,
    pub member: Option<MemberView>,
    pub token: String,
    pub version: u64,
}

impl View for DiscordEvent<Json> {
    type V = DiscordEventView;

    open spec fn view(&self) -> DiscordEventView {
        DiscordEventView {
            event_type: self.event_type,
            data: self.data,
            guild_id: self.guild_id,
            channel_id: self.channel_id,
            member: match self.member {
                Some(m) => Some(m@),
                None => None,
            },
            token: self.token,
            version: self.version,
        }
    }
}

/// A command payload left entirely to the integrator: the raw subtree.
#[derive(Debug, PartialEq, Eq)]
pub struct ApplicationCommandInteractionData(pub Json);

/// An identifier field: the platform serializes its large identifiers as
/// strings, historical payloads sometimes as bare integer tokens; either
/// way the token is kept as an opaque string, never parsed numerically.
pub open spec fn spec_snowflake_of(j: Json) -> Option<String> {
    match j {
        Json::Str(s) => Some(s),
        Json::Num(raw) => Some(raw),
        _ => None,
    }
}

/// An optional identifier field: absent or null is a normal `None`; a
/// present field of the wrong shape rejects the envelope.
pub open spec fn spec_opt_snowflake_field(fields: Seq<(String, Json)>, key: Seq<char>) -> Option<
    Option<String>,
> {
    match spec_obj_get(fields, key) {
        None => Some(None),
        Some(Json::Null) => Some(None),
        Some(j) => match spec_snowflake_of(j) {
            Some(s) => Some(Some(s)),
            None => None,
        },
    }
}

/// An optional string field: absent or null is `None`.
pub open spec fn spec_opt_str_field(fields: Seq<(String, Json)>, key: Seq<char>) -> Option<
    Option<String>,
> {
    match spec_obj_get(fields, key) {
        None => Some(None),
        Some(Json::Null) => Some(None),
        Some(Json::Str(s)) => Some(Some(s)),
        Some(_) => None,
    }
}

/// A required string field.
pub open spec fn spec_req_str_field(fields: Seq<(String, Json)>, key: Seq<char>) -> Option<
    String,
> {
    match spec_obj_get(fields, key) {
        Some(Json::Str(s)) => Some(s),
        _ => None,
    }
}

/// A required boolean field.
pub open spec fn spec_req_bool_field(fields: Seq<(String, Json)>, key: Seq<char>) -> Option<
    bool,
> {
    match spec_obj_get(fields, key) {
        Some(Json::Bool(b)) => Some(b),
        _ => None,
    }
}

/// A boolean field that defaults to false when absent.
pub open spec fn spec_bool_field_or_false(fields: Seq<(String, Json)>, key: Seq<char>) -> Option<
    bool,
> {
    match spec_obj_get(fields, key) {
        None => Some(false),
        Some(Json::Bool(b)) => Some(b),
        Some(_) => None,
    }
}

fn opt_snowflake_field(fields: &Vec<(String, Json)>, key: &str) -> (r: Option<Option<String>>)
    ensures
        r == spec_opt_snowflake_field(fields@, key@),
{
    match obj_get(fields, key) {
        None => Some(None),
        Some(Json::Null) => Some(None),
        Some(Json::Str(s)) => Some(Some(s.clone())),
        Some(Json::Num(raw)) => Some(Some(raw.clone())),
        Some(_) => None,
    }
}

fn opt_str_field(fields: &Vec<(String, Json)>, key: &str) -> (r: Option<Option<String>>)
    ensures
        r == spec_opt_str_field(fields@, key@),
{
    match obj_get(fields, key) {
        None => Some(None),
        Some(Json::Null) => Some(None),
        Some(Json::Str(s)) => Some(Some(s.clone())),
        Some(_) => None,
    }
}

pub(crate) fn req_str_field(fields: &Vec<(String, Json)>, key: &str) -> (r: Option<String>)
    ensures
        r == spec_req_str_field(fields@, key@),
{
    match obj_get(fields, key) {
        Some(Json::Str(s)) => Some(s.clone()),
        _ => None,
    }
}

fn req_bool_field(fields: &Vec<(String, Json)>, key: &str) -> (r: Option<bool>)
    ensures
        r == spec_req_bool_field(fields@, key@),
{
    match obj_get(fields, key) {
        Some(Json::Bool(b)) => Some(*b),
        _ => None,
    }
}

fn bool_field_or_false(fields: &Vec<(String, Json)>, key: &str) -> (r: Option<bool>)
    ensures
        r == spec_bool_field_or_false(fields@, key@),
{
    match obj_get(fields, key) {
        None => Some(false),
        Some(Json::Bool(b)) => Some(*b),
        Some(_) => None,
    }
}

/// The user denoted by a JSON tree, if any: a required identifier,
/// discriminator and username, an optional avatar, and a bot flag that
/// defaults to false.
pub open spec fn spec_user_from_json(j: Json) -> Option<User> {
    match j {
        Json::Obj(fields) => match (
            spec_obj_get(fields@, "id"@),
            spec_opt_str_field(fields@, "avatar"@),
            spec_bool_field_or_false(fields@, "bot"@),
            spec_req_str_field(fields@, "discriminator"@),
            spec_req_str_field(fields@, "username"@),
        ) {
            (Some(idj), Some(avatar), Some(bot), Some(discriminator), Some(username)) => match
                spec_snowflake_of(idj) {
                Some(id) => Some(User { id, avatar, bot, discriminator, username }),
                None => None,
            },
            _ => None,
        },
        _ => None,
    }
}

fn user_from_json(j: &Json) -> (r: Option<User>)
    ensures
        r == spec_user_from_json(*j),
{
    let fields = match j {
        Json::Obj(fields) => fields,
        _ => { return None; },
    };
    let id = match obj_get(fields, "id") {
        Some(Json::Str(s)) => s.clone(),
        Some(Json::Num(raw)) => raw.clone(),
        _ => { return None; },
    };
    let avatar = match opt_str_field(fields, "avatar") {
        Some(a) => a,
        None => { return None; },
    };
    let bot = match bool_field_or_false(fields, "bot") {
        Some(b) => b,
        None => { return None; },
    };
    let discriminator = match req_str_field(fields, "discriminator") {
        Some(s) => s,
        None => { return None; },
    };
    let username = match req_str_field(fields, "username") {
        Some(s) => s,
        None => { return None; },
    };
    Some(User { id, avatar, bot, discriminator, username })
}

/// The role identifiers among the first `n` items, all of which must be
/// strings.
pub open spec fn spec_roles_prefix(items: Seq<Json>, n: int) -> Option<Seq<String>>
    decreases n,
{
    if n <= 0 {
        Some(Seq::empty())
    } else {
        match (spec_roles_prefix(items, n - 1), items[n - 1]) {
            (Some(pre), Json::Str(s)) => Some(pre.push(s)),
            _ => None,
        }
    }
}

fn roles_from_items(items: &Vec<Json>) -> (r: Option<Vec<String>>)
    ensures
        match r {
            Some(v) => spec_roles_prefix(items@, items@.len() as int) == Some(v@),
            None => spec_roles_prefix(items@, items@.len() as int) is None,
        },
{
    let mut out: Vec<String> = Vec::new();
    let mut i: usize = 0;
    while i < items.len()
        invariant
            i <= items.len(),
            spec_roles_prefix(items@, i as int) == Some(out@),
        decreases items.len() - i,
    {
        match &items[i] {
            Json::Str(s) => {
                out.push(s.clone());
            },
            _ => {
                proof {
                    lemma_roles_prefix_fails(items@, i as int, items@.len() as int);
                }
                return None;
            },
        }
        i = i + 1;
    }
    Some(out)
}

/// Once a prefix fails to be all strings, every longer prefix fails too.
proof fn lemma_roles_prefix_fails(items: Seq<Json>, i: int, n: int)
    requires
        0 <= i < n <= items.len(),
        !(items[i] is Str),
    ensures
        spec_roles_prefix(items, n) is None,
    decreases n,
{
    if n - 1 > i {
        lemma_roles_prefix_fails(items, i, n - 1);
    }
}

/// The member denoted by a JSON tree, if any.
pub open spec fn spec_member_from_json(j: Json) -> Option<MemberView> {
    match j {
        Json::Obj(fields) => match (
            spec_req_bool_field(fields@, "deaf"@),
            spec_opt_str_field(fields@, "joined_at"@),
            spec_req_bool_field(fields@, "mute"@),
            spec_opt_str_field(fields@, "nick"@),
            spec_obj_get(fields@, "roles"@),
            spec_obj_get(fields@, "user"@),
        ) {
            (Some(deaf), Some(joined_at), Some(mute), Some(nick), Some(Json::Arr(items)), Some(
                uj,
            )) => match (spec_roles_prefix(items@, items@.len() as int), spec_user_from_json(uj)) {
                (Some(roles), Some(user)) => Some(
                    MemberView { deaf, joined_at, mute, nick, roles, user },
                ),
                _ => None,
            },
            _ => None,
        },
        _ => None,
    }
}

fn member_from_json(j: &Json) -> (r: Option<GuildMember>)
    ensures
        match r {
            Some(m) => spec_member_from_json(*j) == Some(m@),
            None => spec_member_from_json(*j) is None,
        },
{
    let fields = match j {
        Json::Obj(fields) => fields,
        _ => { return None; },
    };
    let deaf = match req_bool_field(fields, "deaf") {
        Some(b) => b,
        None => { return None; },
    };
    let joined_at = match opt_str_field(fields, "joined_at") {
        Some(a) => a,
        None => { return None; },
    };
    let mute = match req_bool_field(fields, "mute") {
        Some(b) => b,
        None => { return None; },
    };
    let nick = match opt_str_field(fields, "nick") {
        Some(a) => a,
        None => { return None; },
    };
    let roles = match obj_get(fields, "roles") {
        Some(Json::Arr(items)) => match roles_from_items(items) {
            Some(v) => v,
            None => { return None; },
        },
        _ => { return None; },
    };
    let user = match obj_get(fields, "user") {
        Some(uj) => match user_from_json(uj) {
            Some(u) => u,
            None => { return None; },
        },
        None => { return None; },
    };
    Some(GuildMember { deaf, joined_at, mute, nick, roles, user })
}

/// The value of a decimal digit character.
pub open spec fn spec_digit_val(c: char) -> Option<int> {
    if 48 <= c as int && c as int <= 57 {
        Some(c as int - 48)
    } else {
        None
    }
}

/// The value of the first `n` characters read as a decimal numeral.
pub open spec fn spec_dec_prefix_val(s: Seq<char>, n: int) -> Option<int>
    decreases n,
{
    if n <= 0 {
        Some(0)
    } else {
        match (spec_dec_prefix_val(s, n - 1), spec_digit_val(s[n - 1])) {
            (Some(v), Some(d)) => Some(v * 10 + d),
            _ => None,
        }
    }
}

/// A decimal token's value, if it is a nonempty digit string whose value
/// fits in a machine word.
pub open spec fn spec_dec_to_u64(s: Seq<char>) -> Option<u64> {
    if s.len() == 0 {
        None
    } else {
        match spec_dec_prefix_val(s, s.len() as int) {
            Some(v) => if v <= u64::MAX {
                Some(v as u64)
            } else {
                None
            },
            None => None,
        }
    }
}

/// Parse a nonempty decimal digit token, rejecting values that do not fit.
pub fn parse_dec_u64(s: &str) -> (r: Option<u64>)
    ensures
        r == spec_dec_to_u64(s@),
{
    let n = s.unicode_len();
    if n == 0 {
        return None;
    }
    let mut acc: u128 = 0;
    let mut over: bool = false;
    let mut i: usize = 0;
    while i < n
        invariant
            n == s@.len(),
            i <= n,
            spec_dec_prefix_val(s@, i as int) is Some,
            !over ==> acc == spec_dec_prefix_val(s@, i as int)->Some_0 && acc <= u64::MAX,
            over ==> spec_dec_prefix_val(s@, i as int)->Some_0 > u64::MAX,
        decreases n - i,
    {
        let c = s.get_char(i);
        let cu = c as u32;
        if !(48 <= cu && cu <= 57) {
            proof {
                lemma_dec_prefix_fails(s@, i as int, n as int);
            }
            return None;
        }
        let d = (cu - 48) as u128;
        proof {
            lemma_dec_prefix_monotone_step_forward(s@, i as int);
        }
        if !over {
            acc = acc * 10 + d;
            if acc > 0xffff_ffff_ffff_ffffu128 {
                over = true;
            }
        } else {
            proof {
                let v = spec_dec_prefix_val(s@, i as int)->Some_0;
                assert(v * 10 >= v) by (nonlinear_arith)
                    requires v >= 0,
                ;
            }
        }
        i = i + 1;
    }
    if over {
        None
    } else {
        Some(acc as u64)
    }
}

/// A prefix ending at a non-digit has no decimal value, nor does any longer
/// prefix.
proof fn lemma_dec_prefix_fails(s: Seq<char>, i: int, n: int)
    requires
        0 <= i < n <= s.len(),
        spec_digit_val(s[i]) is None,
    ensures
        spec_dec_prefix_val(s, n) is None,
    decreases n,
{
    if n - 1 > i {
        lemma_dec_prefix_fails(s, i, n - 1);
    }
}

proof fn lemma_dec_prefix_monotone_step_forward(s: Seq<char>, i: int)
    requires
        0 <= i < s.len(),
        spec_dec_prefix_val(s, i) is Some,
        spec_digit_val(s[i]) is Some,
    ensures
        spec_dec_prefix_val(s, i + 1) matches Some(v) && v == spec_dec_prefix_val(s, i)->Some_0
            * 10 + spec_digit_val(s[i])->Some_0,
{
}

/// Whether a JSON tree is a handshake envelope: its `type` field is the
/// numeric token `1`. The handshake check takes priority over every other
/// part of the envelope: a handshake is acknowledged even when auxiliary
/// fields are malformed.
pub open spec fn spec_is_handshake(j: Json) -> bool {
    &&& j matches Json::Obj(fields)
    &&& spec_obj_get(j->Obj_0@, "type"@) matches Some(tj)
    &&& tj matches Json::Num(raw) && raw@ == "1"@
}

pub fn is_handshake(j: &Json) -> (r: bool)
    ensures
        r == spec_is_handshake(*j),
{
    match j {
        Json::Obj(fields) => match obj_get(fields, "type") {
            Some(Json::Num(raw)) => str_eq(raw.as_str(), "1"),
            _ => false,
        },
        _ => false,
    }
}

/// The command envelope denoted by a JSON tree, if any: the `type` field
/// must be the numeric token `2`, the interaction token must be a string,
/// identifiers and the member are optional, the payload is kept as an
/// opaque subtree, and the informational schema version defaults to zero
/// when absent.
pub open spec fn spec_command_event(j: Json) -> Option<DiscordEventView> {
    match j {
        Json::Obj(fields) => {
            if !(spec_obj_get(fields@, "type"@) matches Some(Json::Num(raw)) && raw@ == "2"@) {
                None
            } else {
                match (
                    spec_req_str_field(fields@, "token"@),
                    spec_opt_snowflake_field(fields@, "guild_id"@),
                    spec_opt_snowflake_field(fields@, "channel_id"@),
                    spec_obj_get(fields@, "member"@),
                    spec_obj_get(fields@, "version"@),
                ) {
                    (Some(token), Some(guild_id), Some(channel_id), member_j, version_j) => {
                        let member = match member_j {
                            None => Some(None),
                            Some(Json::Null) => Some(None),
                            Some(mj) => match spec_member_from_json(mj) {
                                Some(mv) => Some(Some(mv)),
                                None => None,
                            },
                        };
                        let version = match version_j {
                            None => Some(0u64),
                            Some(Json::Num(vraw)) => spec_dec_to_u64(vraw@),
                            Some(_) => None,
                        };
                        let data = match spec_obj_get(fields@, "data"@) {
                            None => None,
                            Some(Json::Null) => None,
                            Some(d) => Some(d),
                        };
                        match (member, version) {
                            (Some(member), Some(version)) => Some(
                                DiscordEventView {
                                    event_type: EventType::ApplicationCommand,
                                    data,
                                    guild_id,
                                    channel_id,
                                    member,
                                    token,
                                    version,
                                },
                            ),
                            _ => None,
                        }
                    },
                    _ => None,
                }
            }
        },
        _ => None,
    }
}

/// Extract the command envelope from a JSON tree, consuming the tree so
/// the payload subtree moves out without copying.
pub fn parse_command_event(j: Json) -> (r: Option<DiscordEvent<Json>>)
    ensures
        match r {
            Some(ev) => spec_command_event(j) == Some(ev@),
            None => spec_command_event(j) is None,
        },
{
    let mut fields = match j {
        Json::Obj(fields) => fields,
        _ => { return None; },
    };
    match obj_get(&fields, "type") {
        Some(Json::Num(raw)) => {
            if !str_eq(raw.as_str(), "2") {
                return None;
            }
        },
        _ => { return None; },
    }
    let token = match req_str_field(&fields, "token") {
        Some(s) => s,
        None => { return None; },
    };
    let guild_id = match opt_snowflake_field(&fields, "guild_id") {
        Some(g) => g,
        None => { return None; },
    };
    let channel_id = match opt_snowflake_field(&fields, "channel_id") {
        Some(c) => c,
        None => { return None; },
    };
    let member = match obj_get(&fields, "member") {
        None => None,
        Some(Json::Null) => None,
        Some(mj) => match member_from_json(mj) {
            Some(m) => Some(m),
            None => { return None; },
        },
    };
    let version = match obj_get(&fields, "version") {
        None => 0u64,
        Some(Json::Num(vraw)) => match parse_dec_u64(vraw.as_str()) {
            Some(v) => v,
            None => { return None; },
        },
        Some(_) => { return None; },
    };
    let data = match obj_get_index(&fields, "data") {
        None => None,
        Some(idx) => {
            let (_, dv) = fields.remove(idx);
            match dv {
                Json::Null => None,
                other => Some(other),
            }
        },
    };
    Some(
        DiscordEvent {
            event_type: EventType::ApplicationCommand,
            data,
            guild_id,
            channel_id,
            member,
            token,
            version,
        },
    )
}

} // verus!
