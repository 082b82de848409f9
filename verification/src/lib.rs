//! Webhook core for a chat platform's interaction events: signature
//! verification over raw bytes, envelope classification (handshake versus
//! application command), and the role-grant command handler with its
//! failure replies.

pub mod dispatch;
pub mod event;
pub mod json;
pub mod response;
pub mod signature;

pub use dispatch::{
    Dispatch, Event, GrantOutcome, GrantRequest, RoleOption, RolePlan, RoleTable, classify_body,
    conclude_grant, plan_role_command, rejection_body, response_status_code,
};
pub use event::{
    ApplicationCommandInteractionData, DiscordEvent, EventType, GuildMember, User,
};
pub use json::Json;
pub use json::parse_json;
pub use response::{
    InteractionApplicationCommandCallbackData, InteractionResponse, InteractionResponseType,
    pong, reply, reply_with,
};
pub use signature::{DiscordPublicKey, validate_discord_signature};
