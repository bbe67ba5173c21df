//! Logging a user in on a Rocket.Chat server.

use vstd::prelude::*;
use crate::api::exchange::{BodyView, Body, Halt, ReplyView, Transcript};
use crate::api::matrix;
use crate::api::matrix::MatrixApi;
use crate::api::rocketchat;
use crate::api::rocketchat::RocketchatApi;
use crate::config::{Config, ConfigView};
use crate::db::rocketchat_server::{RocketchatServer, RocketchatServerView};
use crate::config::checked_bot_user_id;
use crate::db::store::{Store, StoreView};
use crate::db::user_on_rocketchat_server::{
    user_on_server,
    UserOnRocketchatServer,
    UserOnRocketchatServerView,
};
use crate::errors::user_on_rocketchat_server_not_found;
use crate::handlers::rocketchat::virtual_user_handler::store_with_user;
use crate::handlers::run::{ended, failed, halted, ran, undone, with_store, Run};
use crate::i18n::{Message, MessageKey, MessageView, VarName, VarValueView};


verus! {

/// What a user logs in with.
#[derive(Debug, PartialEq, Eq)]
pub struct Credentials {
    /// The user's id on the homeserver.
    pub matrix_user_id: String,
    /// The user's name on the Rocket.Chat server.
    pub rocketchat_username: String,
    /// The user's password on the Rocket.Chat server.
    pub password: String,
    /// The address of the Rocket.Chat server.
    pub rocketchat_url: String,
}

/// The mathematical value of [`Credentials`].
pub struct CredentialsView {
    /// The user's id on the homeserver.
    pub matrix_user_id: Seq<char>,
    /// The user's name on the Rocket.Chat server.
    pub rocketchat_username: Seq<char>,
    /// The user's password on the Rocket.Chat server.
    pub password: Seq<char>,
    /// The address of the Rocket.Chat server.
    pub rocketchat_url: Seq<char>,
}

impl DeepView for Credentials {
    type V = CredentialsView;

    open spec fn deep_view(&self) -> CredentialsView {
        CredentialsView {
            matrix_user_id: self.matrix_user_id@,
            rocketchat_username: self.rocketchat_username@,
            password: self.password@,
            rocketchat_url: self.rocketchat_url@,
        }
    }
}

/// The message that the user logged in.
pub open spec fn login_successful(rocketchat_url: Seq<char>) -> MessageView {
    MessageView {
        key: MessageKey::LoginSuccessful,
        vars: seq![(VarName::RocketchatUrl, VarValueView::Text(rocketchat_url))],
    }
}

/// The record of a user who logged in: the record that was, with the id and the token
/// that the server gave and the name that the user logged in with.
pub open spec fn with_credentials(
    known: UserOnRocketchatServerView,
    rocketchat_username: Seq<char>,
    rocketchat_user_id: Seq<char>,
    rocketchat_auth_token: Seq<char>,
) -> UserOnRocketchatServerView {
    UserOnRocketchatServerView {
        rocketchat_user_id: Some(rocketchat_user_id),
        rocketchat_auth_token: Some(rocketchat_auth_token),
        rocketchat_username: Some(rocketchat_username),
        ..known
    }
}

/// What [`Login::call`] gives, over the store `store` and the answers `pending`. A run that
/// stops before its end leaves the store as it was.
pub open spec fn call(
    store: StoreView,
    pending: Seq<ReplyView>,
    config: ConfigView,
    credentials: CredentialsView,
    server: RocketchatServerView,
    admin_room_id: Option<Seq<char>>,
) -> Run<()> {
    undone(store, match user_on_server(
        store.users_on_rocketchat_servers,
        credentials.matrix_user_id,
        server.id,
    ) {
        None => failed(
            user_on_rocketchat_server_not_found(credentials.matrix_user_id, server.id),
            store,
            pending,
        ),
        Some(known) => {
            let api = rocketchat::connected(pending, server.rocketchat_url);
            match api.result {
                Err(halt) => halted(halt, store, api.pending),
                Ok(api_view) => {
                    let login = rocketchat::logged_in(
                        api.pending,
                        api_view,
                        credentials.rocketchat_username,
                        credentials.password,
                    );
                    match login.result {
                        Err(halt) => halted(halt, store, login.pending),
                        Ok((user_id, auth_token)) => {
                            let stored = store_with_user(
                                store,
                                with_credentials(
                                    known,
                                    credentials.rocketchat_username,
                                    user_id,
                                    auth_token,
                                ),
                            );
                            match admin_room_id {
                                None => ended((), stored, login.pending),
                                Some(room_id) => match checked_bot_user_id(config) {
                                    Err(error) => failed(error, stored, login.pending),
                                    Ok(bot_id) => with_store(
                                        matrix::send_text_message_event(
                                            login.pending,
                                            room_id,
                                            bot_id,
                                            BodyView::Localized(
                                                login_successful(server.rocketchat_url),
                                            ),
                                        ),
                                        stored,
                                    ),
                                },
                            }
                        },
                    }
                },
            }
        },
    })
}

/// Logs users in on Rocket.Chat servers.
#[derive(Debug, PartialEq, Eq)]
pub struct Login<'a> {
    /// The configuration of the application service.
    pub config: &'a Config,
}

impl<'a> Login<'a> {
    /// Logs a user in on a Rocket.Chat server: the server is asked for the user's id and
    /// token, which are written into the user's record; where the user gave the command in
    /// an admin room, the bot says there that the user is logged in.
    pub fn call(
        &self,
        store: &mut Store,
        calls: &mut Transcript,
        credentials: &Credentials,
        rocketchat_server: &RocketchatServer,
        admin_room_id: Option<String>,
    ) -> (result: Result<(), Halt>)
        requires
            old(store).wf(),
        ensures
            final(store).wf(),
            ran(result, final(store).deep_view(), final(calls).pending()) == call(
                old(store).deep_view(),
                old(calls).pending(),
                self.config.deep_view(),
                credentials.deep_view(),
                rocketchat_server.deep_view(),
                admin_room_id.deep_view(),
            ),
            result is Err ==> final(store).deep_view() == old(store).deep_view(),
    {
        let known = match UserOnRocketchatServer::find(
            store,
            credentials.matrix_user_id.as_str(),
            rocketchat_server.id.as_str(),
        ) {
            Ok(known) => known,
            Err(error) => return Err(Halt::Fail(error)),
        };
        let rocketchat_api = match RocketchatApi::new(calls, rocketchat_server.rocketchat_url.clone()) {
            Ok(rocketchat_api) => rocketchat_api,
            Err(halt) => return Err(halt),
        };
        let (user_id, auth_token) = match rocketchat_api.login(
            calls,
            credentials.rocketchat_username.as_str(),
            credentials.password.as_str(),
        ) {
            Ok(pair) => pair,
            Err(halt) => return Err(halt),
        };
        let row = UserOnRocketchatServer {
            is_virtual_user: known.is_virtual_user,
            matrix_user_id: known.matrix_user_id,
            rocketchat_server_id: known.rocketchat_server_id,
            rocketchat_user_id: Some(user_id),
            rocketchat_auth_token: Some(auth_token),
            rocketchat_username: Some(credentials.rocketchat_username.clone()),
        };
        let room_id = match admin_room_id {
            Some(room_id) => room_id,
            None => {
                UserOnRocketchatServer::upsert(store, &row);
                return Ok(());
            },
        };
        let bot_id = match self.config.matrix_bot_user_id() {
            Ok(bot_id) => bot_id,
            Err(error) => return Err(Halt::Fail(error)),
        };
        let message = Message::new(MessageKey::LoginSuccessful).with_text(
            VarName::RocketchatUrl,
            rocketchat_server.rocketchat_url.clone(),
        );
        match MatrixApi::send_text_message_event(
            calls,
            room_id.as_str(),
            bot_id.as_str(),
            Body::Localized(message),
        ) {
            Ok(()) => {},
            Err(halt) => return Err(halt),
        }
        // the credentials are kept only now that the run has come to its end
        UserOnRocketchatServer::upsert(store, &row);
        Ok(())
    }
}

} // verus!
