//! Routes of the upstream API: what a request path resolves to, and the name
//! a route goes by in metrics.

use crate::error::RequestError;
use crate::method::Method;
use twilight_http::routing::{Path, PathParseError};
use vstd::prelude::*;

verus! {

/// The kinds of route that have a name of their own.
#[derive(Clone, Copy, Debug, PartialEq, Eq, Structural)]
pub enum RouteKind {
    /// A channel.
    ChannelsId,
    /// The invites of a channel.
    ChannelsIdInvites,
    /// The messages of a channel.
    ChannelsIdMessages,
    /// Deleting messages of a channel in bulk.
    ChannelsIdMessagesBulkDelete,
    /// One message of a channel.
    ChannelsIdMessagesId,
    /// The reactions to a message.
    ChannelsIdMessagesIdReactions,
    /// One user's reaction to a message.
    ChannelsIdMessagesIdReactionsUserIdType,
    /// A permission overwrite of a channel.
    ChannelsIdPermissionsOverwriteId,
    /// The pinned messages of a channel.
    ChannelsIdPins,
    /// One pinned message of a channel.
    ChannelsIdPinsMessageId,
    /// The typing indicator of a channel.
    ChannelsIdTyping,
    /// The webhooks of a channel.
    ChannelsIdWebhooks,
    /// The gateway.
    Gateway,
    /// The gateway as the calling bot sees it.
    GatewayBot,
    /// The guilds.
    Guilds,
    /// A guild.
    GuildsId,
    /// The bans of a guild.
    GuildsIdBans,
    /// The audit log of a guild.
    GuildsIdAuditLogs,
    /// The ban of one user from a guild.
    GuildsIdBansUserId,
    /// The channels of a guild.
    GuildsIdChannels,
    /// The widget of a guild.
    GuildsIdWidget,
    /// The emojis of a guild.
    GuildsIdEmojis,
    /// One emoji of a guild.
    GuildsIdEmojisId,
    /// The integrations of a guild.
    GuildsIdIntegrations,
    /// One integration of a guild.
    GuildsIdIntegrationsId,
    /// Synchronising an integration of a guild.
    GuildsIdIntegrationsIdSync,
    /// The invites to a guild.
    GuildsIdInvites,
    /// The members of a guild.
    GuildsIdMembers,
    /// One member of a guild.
    GuildsIdMembersId,
    /// A role of a member of a guild.
    GuildsIdMembersIdRolesId,
    /// The calling bot's nickname in a guild.
    GuildsIdMembersMeNick,
    /// The preview of a guild.
    GuildsIdPreview,
    /// Pruning the members of a guild.
    GuildsIdPrune,
    /// The voice regions of a guild.
    GuildsIdRegions,
    /// The roles of a guild.
    GuildsIdRoles,
    /// One role of a guild.
    GuildsIdRolesId,
    /// The vanity invite of a guild.
    GuildsIdVanityUrl,
    /// The webhooks of a guild.
    GuildsIdWebhooks,
    /// An invite.
    InvitesCode,
    /// A user.
    UsersId,
    /// The connections of a user.
    UsersIdConnections,
    /// The private channels of a user.
    UsersIdChannels,
    /// The guilds of a user.
    UsersIdGuilds,
    /// One guild of a user.
    UsersIdGuildsId,
    /// The voice regions.
    VoiceRegions,
    /// A webhook.
    WebhooksId,
    /// The application of the calling bot.
    OauthApplicationsMe,
    /// A route that the upstream API knows and that has no name here.
    Unknown,
}

/// A resolved route: its kind, and the path as the upstream client keeps it
/// for its rate limits.
#[derive(Debug)]
pub struct Route {
    pub kind: RouteKind,
    pub path: Path,
}

#[verifier::external_type_specification]
#[verifier::external_body]
pub struct ExPath(Path);

#[verifier::external_type_specification]
#[verifier::external_body]
pub struct ExPathParseError(PathParseError);

/// The name under which a kind of route is counted.
pub open spec fn route_label(kind: RouteKind) -> Seq<char> {
    match kind {
        RouteKind::ChannelsId => "Channel"@,
        RouteKind::ChannelsIdInvites => "Channel invite"@,
        RouteKind::ChannelsIdMessages => "Channel message"@,
        RouteKind::ChannelsIdMessagesBulkDelete => "Bulk delete message"@,
        RouteKind::ChannelsIdMessagesId => "Channel message"@,
        RouteKind::ChannelsIdMessagesIdReactions => "Message reaction"@,
        RouteKind::ChannelsIdMessagesIdReactionsUserIdType => "Message reaction for user"@,
        RouteKind::ChannelsIdPermissionsOverwriteId => "Channel permission override"@,
        RouteKind::ChannelsIdPins => "Channel pins"@,
        RouteKind::ChannelsIdPinsMessageId => "Specific channel pin"@,
        RouteKind::ChannelsIdTyping => "Typing indicator"@,
        RouteKind::ChannelsIdWebhooks => "Webhook"@,
        RouteKind::Gateway => "Gateway"@,
        RouteKind::GatewayBot => "Gateway bot info"@,
        RouteKind::Guilds => "Guilds"@,
        RouteKind::GuildsId => "Guild"@,
        RouteKind::GuildsIdBans => "Guild bans"@,
        RouteKind::GuildsIdAuditLogs => "Guild audit logs"@,
        RouteKind::GuildsIdBansUserId => "Guild ban for user"@,
        RouteKind::GuildsIdChannels => "Guild channel"@,
        RouteKind::GuildsIdWidget => "Guild widget"@,
        RouteKind::GuildsIdEmojis => "Guild emoji"@,
        RouteKind::GuildsIdEmojisId => "Specific guild emoji"@,
        RouteKind::GuildsIdIntegrations => "Guild integrations"@,
        RouteKind::GuildsIdIntegrationsId => "Specific guild integration"@,
        RouteKind::GuildsIdIntegrationsIdSync => "Sync guild integration"@,
        RouteKind::GuildsIdInvites => "Guild invites"@,
        RouteKind::GuildsIdMembers => "Guild members"@,
        RouteKind::GuildsIdMembersId => "Specific guild member"@,
        RouteKind::GuildsIdMembersIdRolesId => "Guild member role"@,
        RouteKind::GuildsIdMembersMeNick => "Modify own nickname"@,
        RouteKind::GuildsIdPreview => "Guild preview"@,
        RouteKind::GuildsIdPrune => "Guild prune"@,
        RouteKind::GuildsIdRegions => "Guild region"@,
        RouteKind::GuildsIdRoles => "Guild roles"@,
        RouteKind::GuildsIdRolesId => "Specific guild role"@,
        RouteKind::GuildsIdVanityUrl => "Guild vanity invite"@,
        RouteKind::GuildsIdWebhooks => "Guild webhooks"@,
        RouteKind::InvitesCode => "Invite info"@,
        RouteKind::UsersId => "User info"@,
        RouteKind::UsersIdConnections => "User connections"@,
        RouteKind::UsersIdChannels => "User channels"@,
        RouteKind::UsersIdGuilds => "User in guild"@,
        RouteKind::UsersIdGuildsId => "Guild from user"@,
        RouteKind::VoiceRegions => "Voice region list"@,
        RouteKind::WebhooksId => "Webhook"@,
        RouteKind::OauthApplicationsMe => "Current application info"@,
        RouteKind::Unknown => "Unknown path!"@,
    }
}

/// The name under which a kind of route is counted.
pub fn path_name(kind: RouteKind) -> (name: &'static str)
    ensures
        name@ == route_label(kind),
{
    match kind {
        RouteKind::ChannelsId => "Channel",
        RouteKind::ChannelsIdInvites => "Channel invite",
        RouteKind::ChannelsIdMessages => "Channel message",
        RouteKind::ChannelsIdMessagesBulkDelete => "Bulk delete message",
        RouteKind::ChannelsIdMessagesId => "Channel message",
        RouteKind::ChannelsIdMessagesIdReactions => "Message reaction",
        RouteKind::ChannelsIdMessagesIdReactionsUserIdType => "Message reaction for user",
        RouteKind::ChannelsIdPermissionsOverwriteId => "Channel permission override",
        RouteKind::ChannelsIdPins => "Channel pins",
        RouteKind::ChannelsIdPinsMessageId => "Specific channel pin",
        RouteKind::ChannelsIdTyping => "Typing indicator",
        RouteKind::ChannelsIdWebhooks => "Webhook",
        RouteKind::Gateway => "Gateway",
        RouteKind::GatewayBot => "Gateway bot info",
        RouteKind::Guilds => "Guilds",
        RouteKind::GuildsId => "Guild",
        RouteKind::GuildsIdBans => "Guild bans",
        RouteKind::GuildsIdAuditLogs => "Guild audit logs",
        RouteKind::GuildsIdBansUserId => "Guild ban for user",
        RouteKind::GuildsIdChannels => "Guild channel",
        RouteKind::GuildsIdWidget => "Guild widget",
        RouteKind::GuildsIdEmojis => "Guild emoji",
        RouteKind::GuildsIdEmojisId => "Specific guild emoji",
        RouteKind::GuildsIdIntegrations => "Guild integrations",
        RouteKind::GuildsIdIntegrationsId => "Specific guild integration",
        RouteKind::GuildsIdIntegrationsIdSync => "Sync guild integration",
        RouteKind::GuildsIdInvites => "Guild invites",
        RouteKind::GuildsIdMembers => "Guild members",
        RouteKind::GuildsIdMembersId => "Specific guild member",
        RouteKind::GuildsIdMembersIdRolesId => "Guild member role",
        RouteKind::GuildsIdMembersMeNick => "Modify own nickname",
        RouteKind::GuildsIdPreview => "Guild preview",
        RouteKind::GuildsIdPrune => "Guild prune",
        RouteKind::GuildsIdRegions => "Guild region",
        RouteKind::GuildsIdRoles => "Guild roles",
        RouteKind::GuildsIdRolesId => "Specific guild role",
        RouteKind::GuildsIdVanityUrl => "Guild vanity invite",
        RouteKind::GuildsIdWebhooks => "Guild webhooks",
        RouteKind::InvitesCode => "Invite info",
        RouteKind::UsersId => "User info",
        RouteKind::UsersIdConnections => "User connections",
        RouteKind::UsersIdChannels => "User channels",
        RouteKind::UsersIdGuilds => "User in guild",
        RouteKind::UsersIdGuildsId => "Guild from user",
        RouteKind::VoiceRegions => "Voice region list",
        RouteKind::WebhooksId => "Webhook",
        RouteKind::OauthApplicationsMe => "Current application info",
        RouteKind::Unknown => "Unknown path!",
    }
}

/// Whether twilight-http's table of routes has an entry for `path` under
/// `method`: whether `Path::try_from` succeeds on them.
pub uninterp spec fn route_known(method: Method, path: Seq<char>) -> bool;

/// Calls `Path::try_from` of twilight-http on the method and the path: the
/// upstream API's own table of routes. Whether it finds the path depends on
/// the two alone and goes by the name `route_known`; nothing is claimed of
/// the entry that it finds.
#[verifier::external_body]
fn parse_path(method: Method, path: &str) -> (parsed: Result<Path, PathParseError>)
    ensures
        parsed is Ok <==> route_known(method, path@),
{
    let method = match method {
        Method::Delete => twilight_http::request::Method::Delete,
        Method::Get => twilight_http::request::Method::Get,
        Method::Patch => twilight_http::request::Method::Patch,
        Method::Post => twilight_http::request::Method::Post,
        Method::Put => twilight_http::request::Method::Put,
    };
    Path::try_from((method, path))
}

/// Tells apart the variants of twilight-http's `Path` for channels and their
/// messages, one kind for each; `None` for every other variant.
#[verifier::external_body]
fn channel_kind(path: &Path) -> Option<RouteKind> {
    match path {
        Path::ChannelsId(..) => Some(RouteKind::ChannelsId),
        Path::ChannelsIdInvites(..) => Some(RouteKind::ChannelsIdInvites),
        Path::ChannelsIdMessages(..) => Some(RouteKind::ChannelsIdMessages),
        Path::ChannelsIdMessagesBulkDelete(..) => Some(RouteKind::ChannelsIdMessagesBulkDelete),
        Path::ChannelsIdMessagesId(..) => Some(RouteKind::ChannelsIdMessagesId),
        Path::ChannelsIdMessagesIdReactions(..) => Some(RouteKind::ChannelsIdMessagesIdReactions),
        Path::ChannelsIdMessagesIdReactionsUserIdType(..) => Some(RouteKind::ChannelsIdMessagesIdReactionsUserIdType),
        Path::ChannelsIdPermissionsOverwriteId(..) => Some(RouteKind::ChannelsIdPermissionsOverwriteId),
        Path::ChannelsIdPins(..) => Some(RouteKind::ChannelsIdPins),
        Path::ChannelsIdPinsMessageId(..) => Some(RouteKind::ChannelsIdPinsMessageId),
        Path::ChannelsIdTyping(..) => Some(RouteKind::ChannelsIdTyping),
        Path::ChannelsIdWebhooks(..) => Some(RouteKind::ChannelsIdWebhooks),
        _ => None,
    }
}

/// Tells apart the variants of twilight-http's `Path` for guilds and what
/// belongs to a guild as a whole, one kind for each; `None` for every other
/// variant.
#[verifier::external_body]
fn guild_kind(path: &Path) -> Option<RouteKind> {
    match path {
        Path::Guilds => Some(RouteKind::Guilds),
        Path::GuildsId(..) => Some(RouteKind::GuildsId),
        Path::GuildsIdAuditLogs(..) => Some(RouteKind::GuildsIdAuditLogs),
        Path::GuildsIdChannels(..) => Some(RouteKind::GuildsIdChannels),
        Path::GuildsIdInvites(..) => Some(RouteKind::GuildsIdInvites),
        Path::GuildsIdPreview(..) => Some(RouteKind::GuildsIdPreview),
        Path::GuildsIdPrune(..) => Some(RouteKind::GuildsIdPrune),
        Path::GuildsIdRegions(..) => Some(RouteKind::GuildsIdRegions),
        Path::GuildsIdVanityUrl(..) => Some(RouteKind::GuildsIdVanityUrl),
        Path::GuildsIdWebhooks(..) => Some(RouteKind::GuildsIdWebhooks),
        Path::GuildsIdWidget(..) => Some(RouteKind::GuildsIdWidget),
        _ => None,
    }
}

/// Tells apart the variants of twilight-http's `Path` for the members, roles
/// and bans of a guild, one kind for each; `None` for every other variant.
#[verifier::external_body]
fn guild_member_kind(path: &Path) -> Option<RouteKind> {
    match path {
        Path::GuildsIdBans(..) => Some(RouteKind::GuildsIdBans),
        Path::GuildsIdBansUserId(..) => Some(RouteKind::GuildsIdBansUserId),
        Path::GuildsIdMembers(..) => Some(RouteKind::GuildsIdMembers),
        Path::GuildsIdMembersId(..) => Some(RouteKind::GuildsIdMembersId),
        Path::GuildsIdMembersIdRolesId(..) => Some(RouteKind::GuildsIdMembersIdRolesId),
        Path::GuildsIdMembersMeNick(..) => Some(RouteKind::GuildsIdMembersMeNick),
        Path::GuildsIdRoles(..) => Some(RouteKind::GuildsIdRoles),
        Path::GuildsIdRolesId(..) => Some(RouteKind::GuildsIdRolesId),
        _ => None,
    }
}

/// Tells apart the variants of twilight-http's `Path` for the emojis and
/// integrations of a guild, one kind for each; `None` for every other variant.
#[verifier::external_body]
fn guild_asset_kind(path: &Path) -> Option<RouteKind> {
    match path {
        Path::GuildsIdEmojis(..) => Some(RouteKind::GuildsIdEmojis),
        Path::GuildsIdEmojisId(..) => Some(RouteKind::GuildsIdEmojisId),
        Path::GuildsIdIntegrations(..) => Some(RouteKind::GuildsIdIntegrations),
        Path::GuildsIdIntegrationsId(..) => Some(RouteKind::GuildsIdIntegrationsId),
        Path::GuildsIdIntegrationsIdSync(..) => Some(RouteKind::GuildsIdIntegrationsIdSync),
        _ => None,
    }
}

/// Tells apart the variants of twilight-http's `Path` for the routes outside
/// channels and guilds, one kind for each; `None` for every other variant.
#[verifier::external_body]
fn account_kind(path: &Path) -> Option<RouteKind> {
    match path {
        Path::Gateway => Some(RouteKind::Gateway),
        Path::GatewayBot => Some(RouteKind::GatewayBot),
        Path::InvitesCode => Some(RouteKind::InvitesCode),
        Path::OauthApplicationsMe => Some(RouteKind::OauthApplicationsMe),
        Path::UsersId => Some(RouteKind::UsersId),
        Path::UsersIdChannels => Some(RouteKind::UsersIdChannels),
        Path::UsersIdConnections => Some(RouteKind::UsersIdConnections),
        Path::UsersIdGuilds => Some(RouteKind::UsersIdGuilds),
        Path::UsersIdGuildsId => Some(RouteKind::UsersIdGuildsId),
        Path::VoiceRegions => Some(RouteKind::VoiceRegions),
        Path::WebhooksId(..) => Some(RouteKind::WebhooksId),
        _ => None,
    }
}

/// Looks `path` up in the upstream API's table of routes for `method`.
///
/// A path that the table knows resolves to the entry that the table holds for
/// it, with the kind of that entry, or `Unknown` where the entry is of a kind
/// without a name; any other path is refused as `InvalidPath`.
pub fn resolve_route(method: Method, path: &str) -> (resolved: Result<Route, RequestError>)
    ensures
        match resolved {
            Ok(_) => route_known(method, path@),
            Err(error) => !route_known(method, path@) && error == RequestError::InvalidPath,
        },
{
    match parse_path(method, path) {
        Ok(path) => {
            let kind = if let Some(kind) = channel_kind(&path) {
                kind
            } else if let Some(kind) = guild_kind(&path) {
                kind
            } else if let Some(kind) = guild_member_kind(&path) {
                kind
            } else if let Some(kind) = guild_asset_kind(&path) {
                kind
            } else if let Some(kind) = account_kind(&path) {
                kind
            } else {
                RouteKind::Unknown
            };
            Ok(Route { kind, path })
        },
        Err(_) => Err(RequestError::InvalidPath),
    }
}

} // verus!
