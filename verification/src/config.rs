//! The configuration of the application service.

use vstd::prelude::*;
use crate::api::exchange::checked;
use crate::errors::{invalid_user_id, Error, ErrorView};
use crate::identifiers::{user_id_accepted, user_id_is_valid};
use crate::text::text;

verus! {

/// The options of the application service.
#[derive(Debug, PartialEq, Eq)]
pub struct Config {
    /// The domain of the homeserver: what follows the colon in the ids of the bot, of the
    /// virtual users and of the room aliases.
    pub hs_domain: String,
    /// The address under which the homeserver reaches this service.
    pub as_url: String,
    /// The secret that the homeserver sends with each transaction.
    pub hs_token: String,
    /// The local part of the bot's id, and the prefix of the local parts of the virtual
    /// users and of the room aliases.
    pub sender_localpart: String,
    /// Whether the bot accepts invites to rooms of other homeservers.
    pub accept_remote_invites: bool,
}

/// The mathematical value of a [`Config`].
pub struct ConfigView {
    /// The domain of the homeserver.
    pub hs_domain: Seq<char>,
    /// The address of this service.
    pub as_url: Seq<char>,
    /// The secret of the homeserver.
    pub hs_token: Seq<char>,
    /// The local part of the bot's id.
    pub sender_localpart: Seq<char>,
    /// Whether the bot accepts invites to rooms of other homeservers.
    pub accept_remote_invites: bool,
}

impl DeepView for Config {
    type V = ConfigView;

    open spec fn deep_view(&self) -> ConfigView {
        ConfigView {
            hs_domain: self.hs_domain@,
            as_url: self.as_url@,
            hs_token: self.hs_token@,
            sender_localpart: self.sender_localpart@,
            accept_remote_invites: self.accept_remote_invites,
        }
    }
}

/// The id of the bot: `@`, the sender's local part, a colon and the homeserver's domain.
pub open spec fn bot_user_id(config: ConfigView) -> Seq<char> {
    seq!['@'] + config.sender_localpart + seq![':'] + config.hs_domain
}

/// What the ids of the bot and of the virtual users begin with: `@` and the sender's local
/// part.
pub open spec fn virtual_user_prefix(config: ConfigView) -> Seq<char> {
    seq!['@'] + config.sender_localpart
}

/// What holds of a configuration that the bridge can speak with: the text of the bot's id,
/// made of the sender's local part and the homeserver's domain, is a Matrix user id.
pub open spec fn usable(config: ConfigView) -> bool {
    user_id_accepted(bot_user_id(config))
}

/// The id of the bot, or the error that its text is no Matrix user id.
pub open spec fn checked_bot_user_id(config: ConfigView) -> Result<Seq<char>, ErrorView> {
    if user_id_accepted(bot_user_id(config)) {
        Ok(bot_user_id(config))
    } else {
        Err(invalid_user_id(bot_user_id(config)))
    }
}

impl Config {
    /// The text of the bot's id, whether or not it is a Matrix user id.
    pub fn bot_user_id(&self) -> (id: String)
        ensures
            id@ == bot_user_id(self.deep_view()),
    {
        proof {
            reveal_strlit("@");
            reveal_strlit(":");
        }
        let mut id = text("@");
        id.append(self.sender_localpart.as_str());
        id.append(":");
        id.append(self.hs_domain.as_str());
        id
    }

    /// What the ids of the bot and of the virtual users begin with.
    pub fn virtual_user_prefix(&self) -> (prefix: String)
        ensures
            prefix@ == virtual_user_prefix(self.deep_view()),
    {
        proof {
            reveal_strlit("@");
        }
        let mut prefix = text("@");
        prefix.append(self.sender_localpart.as_str());
        prefix
    }

    /// Whether the bridge can speak with this configuration: whether the text of the
    /// bot's id is a Matrix user id.
    pub fn is_usable(&self) -> (yes: bool)
        ensures
            yes == usable(self.deep_view()),
    {
        let id = self.bot_user_id();
        user_id_is_valid(id.as_str())
    }

    /// The id of the bot, or the error that its text is no Matrix user id.
    pub fn matrix_bot_user_id(&self) -> (id: Result<String, Error>)
        ensures
            checked(id) == checked_bot_user_id(self.deep_view()),
    {
        let id = self.bot_user_id();
        if user_id_is_valid(id.as_str()) {
            Ok(id)
        } else {
            Err(Error::invalid_user_id(id))
        }
    }
}

} // verus!
