//! What the bridge does when a user is invited to a room, joins it or leaves it, and how it
//! makes the rooms of bridged channels.

use vstd::prelude::*;
use crate::config::checked_bot_user_id;
use crate::api::exchange::{
    checked,
    fail,
    give,
    reached,
    rest,
    stop,
    Body,
    BodyView,
    Halt,
    HaltView,
    PowerLevels,
    PowerLevelsView,
    ReplyView,
    RequestView,
    Step,
    Transcript,
};
use crate::api::matrix;
use crate::api::matrix::MatrixApi;
use crate::api::rocketchat;
use crate::api::rocketchat::{display_name, Channel, ChannelView, RocketchatApi, RocketchatApiView};
use crate::config::{bot_user_id, usable, Config, ConfigView};
use crate::db::room;
use crate::db::room::{direct_message_room, private_room, room_alias_id, room_alias_name, Room};
use crate::db::store::{Store, StoreView};
use crate::errors::{
    invalid_hostname,
    invalid_user_id,
    inviter_unknown,
    only_room_creator_can_invite_bot_user,
    rocketchat_channel_already_bridged,
    too_many_users_in_admin_room,
    Error,
    ErrorView,
};
use crate::handlers::error_notifier;
use crate::handlers::error_notifier::ErrorNotifier;
use crate::handlers::events::command_handler;
use crate::handlers::events::command_handler::CommandHandler;
use crate::handlers::rocketchat::virtual_user_handler;
use crate::db::user_on_rocketchat_server::{user_on_server, UserOnRocketchatServerView};
use crate::handlers::rocketchat::virtual_user_handler::{
    lemma_renamed_once,
    new_virtual_user,
    store_with_user,
    virtual_user_id,
    VirtualUserHandler,
};
use crate::handlers::run::{ended, failed, halted, ran, undone, with_store, Run};
use crate::i18n::{plain, Message, MessageKey};
use crate::identifiers::{
    host_normal_form,
    host_of,
    normalize_host,
    room_id_accepted,
    room_id_host,
    server_name_of,
    user_id_accepted,
    user_id_is_valid,
};
use crate::models::{MemberEvent, MemberEventView, MembershipState, PrevSender, PrevSenderView};
use crate::text::text;

verus! {

/// What the bridge does about a change of membership.
#[derive(Clone, Copy, Debug, PartialEq, Eq, Structural)]
pub enum Reaction {
    /// The bot was invited: it accepts, unless the room is on another homeserver and such
    /// invites are not accepted.
    AcceptInvite,
    /// The bot joined: it sets the room up as an admin room, or leaves it.
    SetUpRoom,
    /// Someone else joined: the bot leaves an admin room that has a third member.
    WatchJoin,
    /// Someone else left: the bot leaves an admin room with them.
    WatchLeave,
    /// Nothing.
    Ignore,
}

/// What the bridge does about a change of membership, by what the user now is to the room
/// and by whether the user is the bot.
pub open spec fn reaction(membership: MembershipState, addressed_to_bot: bool) -> Reaction {
    match membership {
        MembershipState::Invite => if addressed_to_bot {
            Reaction::AcceptInvite
        } else {
            Reaction::Ignore
        },
        MembershipState::Join => if addressed_to_bot {
            Reaction::SetUpRoom
        } else {
            Reaction::WatchJoin
        },
        MembershipState::Leave => if addressed_to_bot {
            Reaction::Ignore
        } else {
            Reaction::WatchLeave
        },
        _ => Reaction::Ignore,
    }
}

/// The power levels of a bridged room: the bot at 100, the user for whom the room was
/// bridged at 50, everyone else at 0; it takes 50 to change the state of the room and 0 to
/// send a message.
pub open spec fn default_power_levels(bot_id: Seq<char>, bridger_id: Seq<char>) -> PowerLevelsView {
    PowerLevelsView {
        bot_id,
        bot_level: 100,
        bridger_id,
        bridger_level: 50,
        users_default: 0,
        state_default: 50,
        events_default: 0,
    }
}

/// Whether a room is on another homeserver than the bridge's, by the host that was read
/// from the homeserver's domain and the host that was read from the room's id. A domain
/// from which no host can be read is an error; a room from whose id none can be read is on
/// another homeserver.
pub open spec fn differs_from_homeserver(
    hs_domain: Seq<char>,
    hs_host: Option<Seq<char>>,
    room_host: Option<Seq<char>>,
) -> Result<bool, ErrorView> {
    match hs_host {
        None => Err(invalid_hostname(hs_domain)),
        Some(_) => Ok(room_host != hs_host),
    }
}

/// The host of a room: what `url` reads from the host of the room's id, where the id is a
/// room id.
pub open spec fn room_host(room_id: Seq<char>) -> Option<Seq<char>> {
    if room_id_accepted(room_id) {
        host_normal_form(host_of(server_name_of(room_id)))
    } else {
        None
    }
}

/// What [`RoomHandler::is_remote_invite`] gives.
pub open spec fn is_remote_invite(config: ConfigView, room_id: Seq<char>) -> Result<bool, ErrorView> {
    differs_from_homeserver(config.hs_domain, host_normal_form(config.hs_domain), room_host(room_id))
}

/// What [`RoomHandler::leave_and_forget_room`] gives over the answers `pending`.
pub open spec fn leave_and_forget_room(pending: Seq<ReplyView>, room_id: Seq<char>, user_id: Seq<char>) -> Step<
    (),
> {
    let left = matrix::leave_room(pending, room_id, user_id);
    match left.result {
        Err(halt) => stop(halt, left.pending),
        Ok(_) => matrix::forget_room(left.pending, room_id),
    }
}

/// A step that goes on where a call failed, and stops only where an answer is missing.
pub open spec fn tolerant(step: Step<()>) -> Step<()> {
    match step.result {
        Err(HaltView::Ask(request)) => stop(HaltView::Ask(request), step.pending),
        _ => give((), step.pending),
    }
}

/// What [`RoomHandler::handle_admin_room_setup_error`] gives over the answers `pending`:
/// the user is told what went wrong, the bot leaves the room and forgets it; that one of
/// these fails does not keep the next from being tried.
pub open spec fn handle_admin_room_setup_error(
    pending: Seq<ReplyView>,
    config: ConfigView,
    error: ErrorView,
    room_id: Seq<char>,
    bot_id: Seq<char>,
) -> Step<()> {
    let told = tolerant(error_notifier::send_message_to_user(pending, config, error, room_id));
    match told.result {
        Err(halt) => stop(halt, told.pending),
        Ok(_) => tolerant(leave_and_forget_room(told.pending, room_id, bot_id)),
    }
}

/// What [`RoomHandler::handle_bot_invite`] gives over the answers `pending`.
pub open spec fn handle_bot_invite(
    pending: Seq<ReplyView>,
    config: ConfigView,
    room_id: Seq<char>,
    bot_id: Seq<char>,
) -> Step<()> {
    if config.accept_remote_invites {
        matrix::join(pending, room_id, bot_id)
    } else {
        match is_remote_invite(config, room_id) {
            Err(error) => fail(error, pending),
            Ok(true) => give((), pending),
            Ok(false) => matrix::join(pending, room_id, bot_id),
        }
    }
}

/// What [`RoomHandler::is_private_room`] gives over the answers `pending`.
pub open spec fn is_private_room(pending: Seq<ReplyView>, room_id: Seq<char>) -> Step<bool> {
    let asked = matrix::get_room_members(pending, room_id);
    match asked.result {
        Err(halt) => stop(halt, asked.pending),
        Ok(members) => give(private_room(members), asked.pending),
    }
}

/// What [`RoomHandler::is_admin_room_valid`] gives over the answers `pending`: a room is
/// an admin room only if the user who invited the bot created it, and if it has two
/// members at most.
pub open spec fn is_admin_room_valid(pending: Seq<ReplyView>, room_id: Seq<char>, inviter_id: Seq<char>) -> Step<
    (),
> {
    let asked = matrix::get_room_creator(pending, room_id);
    match asked.result {
        Err(halt) => stop(halt, asked.pending),
        Ok(creator_id) => if inviter_id != creator_id {
            fail(
                only_room_creator_can_invite_bot_user(inviter_id, room_id, creator_id),
                asked.pending,
            )
        } else {
            let counted = is_private_room(asked.pending, room_id);
            match counted.result {
                Err(halt) => stop(halt, counted.pending),
                Ok(false) => fail(too_many_users_in_admin_room(room_id), counted.pending),
                Ok(true) => give((), counted.pending),
            }
        },
    }
}

/// The end of the setting up of an admin room: the room gets its name. That the name
/// cannot be set is no error.
pub open spec fn name_admin_room(pending: Seq<ReplyView>, room_id: Seq<char>) -> Step<()> {
    tolerant(
        matrix::set_room_name(
            pending,
            room_id,
            BodyView::Localized(plain(MessageKey::AdminRoomDisplayName)),
        ),
    )
}

/// What [`RoomHandler::setup_admin_room`] gives over the answers `pending`.
pub open spec fn setup_admin_room(
    pending: Seq<ReplyView>,
    store: StoreView,
    config: ConfigView,
    room_id: Seq<char>,
    bot_id: Seq<char>,
    inviter_id: Option<Seq<char>>,
) -> Step<()> {
    match inviter_id {
        None => fail(inviter_unknown(room_id), pending),
        Some(inviter_id) => {
            let valid = is_admin_room_valid(pending, room_id, inviter_id);
            match valid.result {
                Err(HaltView::Ask(request)) => stop(HaltView::Ask(request), valid.pending),
                Err(HaltView::Fail(error)) => handle_admin_room_setup_error(
                    valid.pending,
                    config,
                    error,
                    room_id,
                    bot_id,
                ),
                Ok(_) => {
                    let help = command_handler::build_help_message(
                        valid.pending,
                        store,
                        config.as_url,
                        room_id,
                        inviter_id,
                    );
                    match help.result {
                        Err(HaltView::Ask(request)) => stop(HaltView::Ask(request), help.pending),
                        Err(HaltView::Fail(_)) => name_admin_room(help.pending, room_id),
                        Ok(body) => {
                            let sent = matrix::send_text_message_event(
                                help.pending,
                                room_id,
                                bot_id,
                                BodyView::Localized(body),
                            );
                            match sent.result {
                                Err(halt) => stop(halt, sent.pending),
                                Ok(_) => name_admin_room(sent.pending, room_id),
                            }
                        },
                    }
                },
            }
        },
    }
}

/// What [`RoomHandler::handle_bot_join`] gives over the answers `pending`.
pub open spec fn handle_bot_join(
    pending: Seq<ReplyView>,
    store: StoreView,
    config: ConfigView,
    room_id: Seq<char>,
    bot_id: Seq<char>,
    inviter_id: Option<Seq<char>>,
) -> Step<()> {
    let admin = room::is_admin_room(pending, config, room_id);
    match admin.result {
        Err(HaltView::Ask(request)) => stop(HaltView::Ask(request), admin.pending),
        Err(HaltView::Fail(error)) => {
            let left = handle_admin_room_setup_error(admin.pending, config, error, room_id, bot_id);
            match left.result {
                Err(halt) => stop(halt, left.pending),
                Ok(_) => fail(error, left.pending),
            }
        },
        Ok(is_admin_room) => {
            let set_up = if is_admin_room {
                setup_admin_room(admin.pending, store, config, room_id, bot_id, inviter_id)
            } else {
                give((), admin.pending)
            };
            match set_up.result {
                Err(halt) => stop(halt, set_up.pending),
                Ok(_) => if direct_message_room(room_id) {
                    matrix::leave_room(set_up.pending, room_id, bot_id)
                } else {
                    give((), set_up.pending)
                },
            }
        },
    }
}

/// What [`RoomHandler::handle_user_join`] gives over the answers `pending`.
pub open spec fn handle_user_join(
    pending: Seq<ReplyView>,
    config: ConfigView,
    room_id: Seq<char>,
    bot_id: Seq<char>,
) -> Step<()> {
    let admin = room::is_admin_room(pending, config, room_id);
    match admin.result {
        Err(halt) => stop(halt, admin.pending),
        Ok(false) => give((), admin.pending),
        Ok(true) => {
            let counted = is_private_room(admin.pending, room_id);
            match counted.result {
                Err(halt) => stop(halt, counted.pending),
                Ok(true) => give((), counted.pending),
                Ok(false) => {
                    let told = matrix::send_text_message_event(
                        counted.pending,
                        room_id,
                        bot_id,
                        BodyView::Localized(plain(MessageKey::OtherUserJoined)),
                    );
                    match told.result {
                        Err(halt) => stop(halt, told.pending),
                        Ok(_) => leave_and_forget_room(told.pending, room_id, bot_id),
                    }
                },
            }
        },
    }
}

/// What [`RoomHandler::handle_user_leave`] gives over the answers `pending`.
pub open spec fn handle_user_leave(
    pending: Seq<ReplyView>,
    config: ConfigView,
    room_id: Seq<char>,
    bot_id: Seq<char>,
) -> Step<()> {
    let admin = room::is_admin_room(pending, config, room_id);
    match admin.result {
        Err(halt) => stop(halt, admin.pending),
        Ok(false) => give((), admin.pending),
        Ok(true) => leave_and_forget_room(admin.pending, room_id, bot_id),
    }
}

/// The user who invited the bot, as a join event tells it: nobody where the event names
/// nobody; else the user that it names, who is the empty text where what it names is no
/// text. A text that is no user id is an error.
pub open spec fn inviter(prev_sender: PrevSenderView) -> Result<Option<Seq<char>>, ErrorView> {
    match prev_sender {
        PrevSenderView::Absent => Ok(None),
        PrevSenderView::Text(raw) => if user_id_accepted(raw) {
            Ok(Some(raw))
        } else {
            Err(invalid_user_id(raw))
        },
        PrevSenderView::Other => if user_id_accepted(Seq::empty()) {
            Ok(Some(Seq::empty()))
        } else {
            Err(invalid_user_id(Seq::empty()))
        },
    }
}

/// What [`RoomHandler::react`] gives over the answers `pending`.
pub open spec fn react(
    pending: Seq<ReplyView>,
    store: StoreView,
    config: ConfigView,
    event: MemberEventView,
    bot_id: Seq<char>,
) -> Step<()> {
    match reaction(event.membership, event.state_key == bot_id) {
        Reaction::AcceptInvite => handle_bot_invite(pending, config, event.room_id, bot_id),
        Reaction::SetUpRoom => match inviter(event.prev_sender) {
            Err(error) => fail(error, pending),
            Ok(inviter_id) => handle_bot_join(
                pending,
                store,
                config,
                event.room_id,
                bot_id,
                inviter_id,
            ),
        },
        Reaction::WatchJoin => handle_user_join(pending, config, event.room_id, bot_id),
        Reaction::WatchLeave => handle_user_leave(pending, config, event.room_id, bot_id),
        Reaction::Ignore => give((), pending),
    }
}

/// What [`RoomHandler::process`] gives over the answers `pending`.
pub open spec fn process(
    pending: Seq<ReplyView>,
    store: StoreView,
    config: ConfigView,
    event: MemberEventView,
) -> Step<()> {
    match checked_bot_user_id(config) {
        Err(error) => fail(error, pending),
        Ok(bot_id) => if !user_id_accepted(event.state_key) {
            fail(invalid_user_id(event.state_key), pending)
        } else {
            react(pending, store, config, event, bot_id)
        },
    }
}

/// What [`RoomHandler::create_room`] gives over the answers `pending`.
pub open spec fn create_room(
    pending: Seq<ReplyView>,
    config: ConfigView,
    rocketchat_channel_id: Seq<char>,
    rocketchat_server_id: Seq<char>,
    room_creator_id: Seq<char>,
    invited_user_id: Seq<char>,
    room_display_name: Option<Seq<char>>,
) -> Step<Seq<char>> {
    let created = matrix::create_room(
        pending,
        room_display_name,
        Some(room_alias_name(config, rocketchat_server_id, rocketchat_channel_id)),
        room_creator_id,
    );
    match created.result {
        Err(halt) => stop(halt, created.pending),
        Ok(room_id) => {
            let levelled = matrix::set_default_powerlevels(
                created.pending,
                room_id,
                default_power_levels(room_creator_id, invited_user_id),
            );
            match levelled.result {
                Err(halt) => stop(halt, levelled.pending),
                Ok(_) => {
                    let invited = matrix::invite(
                        levelled.pending,
                        room_id,
                        invited_user_id,
                        room_creator_id,
                    );
                    match invited.result {
                        Err(halt) => stop(halt, invited.pending),
                        Ok(_) => give(room_id, invited.pending),
                    }
                },
            }
        },
    }
}

/// What becomes of one user of a channel when the virtual users are added to the room of
/// the channel: the user's id is asked of the Rocket.Chat server, the virtual user is
/// found or registered, and brought into the room.
pub open spec fn add_virtual_user(
    store: StoreView,
    pending: Seq<ReplyView>,
    config: ConfigView,
    api: RocketchatApiView,
    username: Seq<char>,
    rocketchat_server_id: Seq<char>,
    room_id: Seq<char>,
) -> Run<()> {
    let asked = rocketchat::users_info(pending, api, username);
    match asked.result {
        Err(halt) => halted(halt, store, asked.pending),
        Ok(rocketchat_user_id) => {
            let found = virtual_user_handler::find_or_register(
                store,
                asked.pending,
                config,
                rocketchat_server_id,
                rocketchat_user_id,
                username,
            );
            match found.result {
                Err(halt) => halted(halt, found.store, found.pending),
                Ok(user) => with_store(
                    virtual_user_handler::add_to_room(
                        found.pending,
                        user.matrix_user_id,
                        bot_user_id(config),
                        room_id,
                    ),
                    found.store,
                ),
            }
        },
    }
}

/// What becomes of the users of a channel from index `from` on when the virtual users are
/// added to the room of the channel.
pub open spec fn add_virtual_users_from(
    store: StoreView,
    pending: Seq<ReplyView>,
    config: ConfigView,
    api: RocketchatApiView,
    usernames: Seq<Seq<char>>,
    rocketchat_server_id: Seq<char>,
    room_id: Seq<char>,
    from: int,
) -> Run<()>
    decreases usernames.len() - from,
{
    if from < 0 || from >= usernames.len() {
        ended((), store, pending)
    } else {
        let added = add_virtual_user(
            store,
            pending,
            config,
            api,
            usernames[from],
            rocketchat_server_id,
            room_id,
        );
        match added.result {
            Err(halt) => halted(halt, added.store, added.pending),
            Ok(_) => add_virtual_users_from(
                added.store,
                added.pending,
                config,
                api,
                usernames,
                rocketchat_server_id,
                room_id,
                from + 1,
            ),
        }
    }
}

/// What [`RoomHandler::add_virtual_users_to_room`] gives, over the store `store` and the
/// answers `pending`. A run that stops before its end leaves the store as it was.
pub open spec fn add_virtual_users_to_room(
    store: StoreView,
    pending: Seq<ReplyView>,
    config: ConfigView,
    api: RocketchatApiView,
    channel: ChannelView,
    rocketchat_server_id: Seq<char>,
    room_id: Seq<char>,
) -> Run<()> {
    match checked_bot_user_id(config) {
        Err(error) => failed(error, store, pending),
        Ok(_) => undone(
            store,
            add_virtual_users_from(
                store,
                pending,
                config,
                api,
                channel.usernames,
                rocketchat_server_id,
                room_id,
                0,
            ),
        ),
    }
}

/// The renaming of a virtual user while the users of a channel are brought into its room.
/// The channel has one user, whose virtual user has the record `known` under another name
/// and is in the room already. Once the Rocket.Chat server has given the user's id, the
/// one call that is asked for sets the new name as display name. With that done, the run
/// ends: the record holds the new name, no record was added, and nobody was registered,
/// invited or joined. When the users are brought in again, no display name is set: the
/// call that follows the user's id asks for the members of the room.
pub proof fn lemma_renamed_while_added(
    store: StoreView,
    config: ConfigView,
    api: RocketchatApiView,
    channel: ChannelView,
    rocketchat_server_id: Seq<char>,
    room_id: Seq<char>,
    rocketchat_user_id: Seq<char>,
    known: UserOnRocketchatServerView,
    members: Seq<Seq<char>>,
)
    requires
        usable(config),
        channel.usernames.len() == 1,
        user_on_server(
            store.users_on_rocketchat_servers,
            virtual_user_id(config, rocketchat_server_id, rocketchat_user_id),
            rocketchat_server_id,
        ) == Some(known),
        known.rocketchat_username != Some(channel.usernames[0]),
        members.contains(virtual_user_id(config, rocketchat_server_id, rocketchat_user_id)),
    ensures
        add_virtual_users_to_room(
            store,
            seq![ReplyView::Text(rocketchat_user_id)],
            config,
            api,
            channel,
            rocketchat_server_id,
            room_id,
        ).result == Err::<(), HaltView>(
            HaltView::Ask(
                RequestView::SetDisplayName {
                    user_id: virtual_user_id(config, rocketchat_server_id, rocketchat_user_id),
                    display_name: channel.usernames[0],
                },
            ),
        ),
        ({
            let row = UserOnRocketchatServerView {
                rocketchat_username: Some(channel.usernames[0]),
                ..known
            };
            let after = add_virtual_users_to_room(
                store,
                seq![
                    ReplyView::Text(rocketchat_user_id),
                    ReplyView::Done,
                    ReplyView::Names(members),
                ],
                config,
                api,
                channel,
                rocketchat_server_id,
                room_id,
            );
            &&& after == ended((), store_with_user(store, row), Seq::empty())
            &&& user_on_server(
                after.store.users_on_rocketchat_servers,
                virtual_user_id(config, rocketchat_server_id, rocketchat_user_id),
                rocketchat_server_id,
            ) == Some(row)
            &&& after.store.users_on_rocketchat_servers.len()
                == store.users_on_rocketchat_servers.len()
            &&& add_virtual_users_to_room(
                after.store,
                seq![ReplyView::Text(rocketchat_user_id)],
                config,
                api,
                channel,
                rocketchat_server_id,
                room_id,
            ).result == Err::<(), HaltView>(HaltView::Ask(RequestView::GetRoomMembers { room_id }))
        }),
{
    let username = channel.usernames[0];
    lemma_renamed_once(
        store,
        config,
        rocketchat_server_id,
        rocketchat_user_id,
        username,
        known,
        seq![ReplyView::Names(members)],
    );
    assert(seq![ReplyView::Done] + seq![ReplyView::Names(members)] =~= seq![
        ReplyView::Done,
        ReplyView::Names(members),
    ]);
    let one = seq![ReplyView::Text(rocketchat_user_id)];
    let three = seq![
        ReplyView::Text(rocketchat_user_id),
        ReplyView::Done,
        ReplyView::Names(members),
    ];
    assert(rest(one) =~= Seq::empty());
    assert(rest(three) =~= seq![ReplyView::Done, ReplyView::Names(members)]);
    assert(rest(seq![ReplyView::Names(members)]) =~= Seq::empty());
    let row = UserOnRocketchatServerView { rocketchat_username: Some(username), ..known };
    let stored = store_with_user(store, row);
    let id = virtual_user_id(config, rocketchat_server_id, rocketchat_user_id);
    crate::seqs::lemma_first_match_is_first(
        store.users_on_rocketchat_servers,
        |r: UserOnRocketchatServerView|
            r.matrix_user_id == id && r.rocketchat_server_id == rocketchat_server_id,
        0,
    );
    assert(known.matrix_user_id == id);
    assert(rest(three) =~= seq![ReplyView::Done] + seq![ReplyView::Names(members)]);
    let first = add_virtual_user(
        store,
        three,
        config,
        api,
        username,
        rocketchat_server_id,
        room_id,
    );
    assert(first == ended((), stored, Seq::empty()));
    assert(add_virtual_users_from(
        stored,
        Seq::empty(),
        config,
        api,
        channel.usernames,
        rocketchat_server_id,
        room_id,
        1,
    ) == ended((), stored, Seq::empty()));
}

/// What [`RoomHandler::bridge_new_room`] gives, over the store `store` and the answers
/// `pending`. A run that stops before its end leaves the store as it was.
pub open spec fn bridge_new_room(
    store: StoreView,
    pending: Seq<ReplyView>,
    config: ConfigView,
    api: RocketchatApiView,
    rocketchat_server_id: Seq<char>,
    channel: ChannelView,
    room_creator_id: Seq<char>,
    invited_user_id: Seq<char>,
) -> Run<Seq<char>> {
    let created = create_room(
        pending,
        config,
        channel.id,
        rocketchat_server_id,
        room_creator_id,
        invited_user_id,
        Some(display_name(channel)),
    );
    match created.result {
        Err(halt) => halted(halt, store, created.pending),
        Ok(room_id) => {
            let aliased = matrix::put_canonical_room_alias(
                created.pending,
                room_id,
                Some(room_alias_id(config, rocketchat_server_id, channel.id)),
            );
            match aliased.result {
                Err(halt) => halted(halt, store, aliased.pending),
                Ok(_) => {
                    let added = add_virtual_users_to_room(
                        store,
                        aliased.pending,
                        config,
                        api,
                        channel,
                        rocketchat_server_id,
                        room_id,
                    );
                    match added.result {
                        Err(halt) => halted(halt, store, added.pending),
                        Ok(_) => ended(room_id, added.store, added.pending),
                    }
                },
            }
        },
    }
}

/// The bridging of a channel that has no room yet, and one user whose virtual user the
/// store does not hold. The first call that is asked for creates the room, with the name
/// and the alias of the channel. With the room created, its power levels set, the user
/// invited for whom the channel is bridged, the alias made canonical, the id of the
/// channel's user given, the virtual user registered and, being no member of the room,
/// invited and joined, the run ends with the id of the room, and the store holds the
/// record of the virtual user besides what it held. Whether the display name of the
/// virtual user could be set or not makes no difference to that.
pub proof fn lemma_bridging_a_new_room(
    store: StoreView,
    config: ConfigView,
    api: RocketchatApiView,
    rocketchat_server_id: Seq<char>,
    channel: ChannelView,
    room_creator_id: Seq<char>,
    invited_user_id: Seq<char>,
    room_id: Seq<char>,
    rocketchat_user_id: Seq<char>,
    named: ReplyView,
    members: Seq<Seq<char>>,
)
    requires
        usable(config),
        channel.usernames.len() == 1,
        user_on_server(
            store.users_on_rocketchat_servers,
            virtual_user_id(config, rocketchat_server_id, rocketchat_user_id),
            rocketchat_server_id,
        ) is None,
        !members.contains(virtual_user_id(config, rocketchat_server_id, rocketchat_user_id)),
        named == ReplyView::Done || named is Failed,
    ensures
        bridge_new_room(
            store,
            Seq::empty(),
            config,
            api,
            rocketchat_server_id,
            channel,
            room_creator_id,
            invited_user_id,
        ).result == Err::<Seq<char>, HaltView>(
            HaltView::Ask(
                RequestView::CreateRoom {
                    room_name: Some(display_name(channel)),
                    room_alias_name: Some(
                        room_alias_name(config, rocketchat_server_id, channel.id),
                    ),
                    creator_id: room_creator_id,
                },
            ),
        ),
        bridge_new_room(
            store,
            seq![
                ReplyView::Text(room_id),
                ReplyView::Done,
                ReplyView::Done,
                ReplyView::Done,
                ReplyView::Text(rocketchat_user_id),
                ReplyView::Done,
                named,
                ReplyView::Names(members),
                ReplyView::Done,
                ReplyView::Done,
            ],
            config,
            api,
            rocketchat_server_id,
            channel,
            room_creator_id,
            invited_user_id,
        ) == ended(
            room_id,
            store_with_user(
                store,
                new_virtual_user(
                    config,
                    rocketchat_server_id,
                    rocketchat_user_id,
                    channel.usernames[0],
                ),
            ),
            Seq::empty(),
        ),
{
    let uid = ReplyView::Text(rocketchat_user_id);
    let names = ReplyView::Names(members);
    let done = ReplyView::Done;
    let all = seq![ReplyView::Text(room_id), done, done, done, uid, done, named, names, done, done];
    let r1 = rest(all);
    let r2 = rest(r1);
    let r3 = rest(r2);
    let r4 = rest(r3);
    let r5 = rest(r4);
    let r6 = rest(r5);
    let r7 = rest(r6);
    let r8 = rest(r7);
    let r9 = rest(r8);
    let r10 = rest(r9);
    assert(r1 =~= seq![done, done, done, uid, done, named, names, done, done]);
    assert(r2 =~= seq![done, done, uid, done, named, names, done, done]);
    assert(r3 =~= seq![done, uid, done, named, names, done, done]);
    assert(r4 =~= seq![uid, done, named, names, done, done]);
    assert(r5 =~= seq![done, named, names, done, done]);
    assert(r6 =~= seq![named, names, done, done]);
    assert(r7 =~= seq![names, done, done]);
    assert(r8 =~= seq![done, done]);
    assert(r9 =~= seq![done]);
    assert(r10 =~= Seq::empty());
    let row = new_virtual_user(
        config,
        rocketchat_server_id,
        rocketchat_user_id,
        channel.usernames[0],
    );
    let stored = store_with_user(store, row);
    let found = virtual_user_handler::find_or_register(
        store,
        r5,
        config,
        rocketchat_server_id,
        rocketchat_user_id,
        channel.usernames[0],
    );
    assert(found == ended(row, stored, r7));
    let first = add_virtual_user(
        store,
        r4,
        config,
        api,
        channel.usernames[0],
        rocketchat_server_id,
        room_id,
    );
    assert(first == ended((), stored, r10));
    assert(add_virtual_users_from(
        stored,
        r10,
        config,
        api,
        channel.usernames,
        rocketchat_server_id,
        room_id,
        1,
    ) == ended((), stored, r10));
}

/// What [`RoomHandler::bridge_existing_room`] gives over the answers `pending`.
pub open spec fn bridge_existing_room(
    pending: Seq<ReplyView>,
    config: ConfigView,
    room_id: Seq<char>,
    matrix_user_id: Seq<char>,
    rocketchat_channel_name: Seq<char>,
) -> Step<()> {
    let member = room::is_in_room(pending, matrix_user_id, room_id);
    match member.result {
        Err(halt) => stop(halt, member.pending),
        Ok(true) => fail(rocketchat_channel_already_bridged(rocketchat_channel_name), member.pending),
        Ok(false) => match checked_bot_user_id(config) {
            Err(error) => fail(error, member.pending),
            Ok(bot_id) => matrix::invite(member.pending, room_id, matrix_user_id, bot_id),
        },
    }
}

/// Reacts to the changes of membership, and makes the rooms of bridged channels.
#[derive(Debug, PartialEq, Eq)]
pub struct RoomHandler<'a> {
    /// The configuration of the application service.
    pub config: &'a Config,
}

impl<'a> RoomHandler<'a> {
    /// A handler of the changes of membership.
    pub fn new(config: &'a Config) -> (handler: RoomHandler<'a>)
        ensures
            handler.config == config,
    {
        RoomHandler { config }
    }

    /// What the bridge does about a change of membership.
    pub fn reaction(membership: MembershipState, addressed_to_bot: bool) -> (what: Reaction)
        ensures
            what == reaction(membership, addressed_to_bot),
    {
        match membership {
            MembershipState::Invite => if addressed_to_bot {
                Reaction::AcceptInvite
            } else {
                Reaction::Ignore
            },
            MembershipState::Join => if addressed_to_bot {
                Reaction::SetUpRoom
            } else {
                Reaction::WatchJoin
            },
            MembershipState::Leave => if addressed_to_bot {
                Reaction::Ignore
            } else {
                Reaction::WatchLeave
            },
            _ => Reaction::Ignore,
        }
    }

    /// The power levels of a bridged room.
    pub fn default_power_levels(bot_id: &str, bridger_id: &str) -> (levels: PowerLevels)
        ensures
            levels.deep_view() == default_power_levels(bot_id@, bridger_id@),
    {
        PowerLevels {
            bot_id: text(bot_id),
            bot_level: 100,
            bridger_id: text(bridger_id),
            bridger_level: 50,
            users_default: 0,
            state_default: 50,
            events_default: 0,
        }
    }

    /// Handles a change of membership: the ids of the bot and of the user that the event
    /// is about are checked, then the bridge reacts as [`RoomHandler::react`] says.
    pub fn process(&self, store: &Store, calls: &mut Transcript, event: &MemberEvent) -> (result: Result<
        (),
        Halt,
    >)
        ensures
            reached(result, final(calls).pending()) == process(
                old(calls).pending(),
                store.deep_view(),
                self.config.deep_view(),
                event.deep_view(),
            ),
    {
        let bot_id = match self.config.matrix_bot_user_id() {
            Ok(bot_id) => bot_id,
            Err(error) => return Err(Halt::Fail(error)),
        };
        if !user_id_is_valid(event.state_key.as_str()) {
            return Err(Halt::Fail(Error::invalid_user_id(event.state_key.clone())));
        }
        self.react(store, calls, event, bot_id.as_str())
    }

    /// Reacts to a change of membership, for a bot of the given id.
    pub fn react(&self, store: &Store, calls: &mut Transcript, event: &MemberEvent, bot_id: &str) -> (result:
        Result<(), Halt>)
        ensures
            reached(result, final(calls).pending()) == react(
                old(calls).pending(),
                store.deep_view(),
                self.config.deep_view(),
                event.deep_view(),
                bot_id@,
            ),
    {
        let addressed_to_bot = event.state_key == text(bot_id);
        match RoomHandler::reaction(event.membership, addressed_to_bot) {
            Reaction::AcceptInvite => self.handle_bot_invite(calls, event.room_id.as_str(), bot_id),
            Reaction::SetUpRoom => {
                let inviter_id = match RoomHandler::inviter(&event.prev_sender) {
                    Ok(inviter_id) => inviter_id,
                    Err(error) => return Err(Halt::Fail(error)),
                };
                self.handle_bot_join(store, calls, event.room_id.as_str(), bot_id, inviter_id)
            },
            Reaction::WatchJoin => self.handle_user_join(calls, event.room_id.as_str(), bot_id),
            Reaction::WatchLeave => self.handle_user_leave(calls, event.room_id.as_str(), bot_id),
            Reaction::Ignore => Ok(()),
        }
    }

    /// The user who invited the bot, as a join event tells it.
    pub fn inviter(prev_sender: &PrevSender) -> (inviter_id: Result<Option<String>, Error>)
        ensures
            checked(inviter_id) == inviter(prev_sender.deep_view()),
    {
        let raw = match prev_sender {
            PrevSender::Absent => return Ok(None),
            PrevSender::Text(raw) => raw.clone(),
            PrevSender::Other => String::new(),
        };
        if user_id_is_valid(raw.as_str()) {
            Ok(Some(raw))
        } else {
            Err(Error::invalid_user_id(raw))
        }
    }

    /// Makes the room of a channel, puts its alias on it and brings the virtual users of
    /// the channel's users into it.
    pub fn bridge_new_room(
        &self,
        store: &mut Store,
        calls: &mut Transcript,
        rocketchat_api: &RocketchatApi,
        rocketchat_server_id: &str,
        channel: &Channel,
        room_creator_id: &str,
        invited_user_id: &str,
    ) -> (result: Result<String, Halt>)
        requires
            old(store).wf(),
        ensures
            final(store).wf(),
            ran(result, final(store).deep_view(), final(calls).pending()) == bridge_new_room(
                old(store).deep_view(),
                old(calls).pending(),
                self.config.deep_view(),
                rocketchat_api.deep_view(),
                rocketchat_server_id@,
                channel.deep_view(),
                room_creator_id@,
                invited_user_id@,
            ),
            result is Err ==> final(store).deep_view() == old(store).deep_view(),
    {
        let room_id = match self.create_room(
            calls,
            channel.id.as_str(),
            rocketchat_server_id,
            room_creator_id,
            invited_user_id,
            Some(channel.display_name()),
        ) {
            Ok(room_id) => room_id,
            Err(halt) => return Err(halt),
        };
        let alias = Room::build_room_alias_id(self.config, rocketchat_server_id, channel.id.as_str());
        match MatrixApi::put_canonical_room_alias(calls, room_id.as_str(), Some(alias)) {
            Ok(()) => {},
            Err(halt) => return Err(halt),
        }
        match self.add_virtual_users_to_room(
            store,
            calls,
            rocketchat_api,
            channel,
            rocketchat_server_id,
            room_id.as_str(),
        ) {
            Ok(()) => Ok(room_id),
            Err(halt) => Err(halt),
        }
    }

    /// Bridges, for one more user, a channel that has a room already: the user is invited
    /// into the room. A user who is in the room already gets an error.
    pub fn bridge_existing_room(
        &self,
        calls: &mut Transcript,
        matrix_room_id: &str,
        matrix_user_id: &str,
        rocketchat_channel_name: String,
    ) -> (result: Result<(), Halt>)
        ensures
            reached(result, final(calls).pending()) == bridge_existing_room(
                old(calls).pending(),
                self.config.deep_view(),
                matrix_room_id@,
                matrix_user_id@,
                rocketchat_channel_name@,
            ),
    {
        match crate::db::User::is_in_room(calls, matrix_user_id, matrix_room_id) {
            Ok(true) => {
                return Err(Halt::Fail(Error::rocketchat_channel_already_bridged(rocketchat_channel_name)));
            },
            Ok(false) => {},
            Err(halt) => return Err(halt),
        }
        let bot_id = match self.config.matrix_bot_user_id() {
            Ok(bot_id) => bot_id,
            Err(error) => return Err(Halt::Fail(error)),
        };
        MatrixApi::invite(calls, matrix_room_id, matrix_user_id, bot_id.as_str())
    }

    /// Accepts the invite of the bot into a room, unless the room is on another homeserver
    /// and such invites are not accepted.
    pub fn handle_bot_invite(&self, calls: &mut Transcript, matrix_room_id: &str, invited_user_id: &str) -> (result:
        Result<(), Halt>)
        ensures
            reached(result, final(calls).pending()) == handle_bot_invite(
                old(calls).pending(),
                self.config.deep_view(),
                matrix_room_id@,
                invited_user_id@,
            ),
    {
        if !self.config.accept_remote_invites {
            match self.is_remote_invite(matrix_room_id) {
                Ok(true) => return Ok(()),
                Ok(false) => {},
                Err(error) => return Err(Halt::Fail(error)),
            }
        }
        MatrixApi::join(calls, matrix_room_id, invited_user_id)
    }

    /// Sets the room that the bot joined up as an admin room, if it is one in which the
    /// bot takes commands; leaves it, if it mirrors a conversation between two users of a
    /// Rocket.Chat server.
    pub fn handle_bot_join(
        &self,
        store: &Store,
        calls: &mut Transcript,
        matrix_room_id: &str,
        matrix_bot_user_id: &str,
        inviter_id: Option<String>,
    ) -> (result: Result<(), Halt>)
        ensures
            reached(result, final(calls).pending()) == handle_bot_join(
                old(calls).pending(),
                store.deep_view(),
                self.config.deep_view(),
                matrix_room_id@,
                matrix_bot_user_id@,
                inviter_id.deep_view(),
            ),
    {
        let is_admin_room = match Room::is_admin_room(calls, self.config, matrix_room_id) {
            Ok(is_admin_room) => is_admin_room,
            Err(Halt::Ask(request)) => return Err(Halt::Ask(request)),
            Err(Halt::Fail(error)) => {
                match self.handle_admin_room_setup_error(
                    calls,
                    &error,
                    matrix_room_id,
                    matrix_bot_user_id,
                ) {
                    Ok(()) => return Err(Halt::Fail(error)),
                    Err(halt) => return Err(halt),
                }
            },
        };
        if is_admin_room {
            match self.setup_admin_room(store, calls, matrix_room_id, matrix_bot_user_id, inviter_id) {
                Ok(()) => {},
                Err(halt) => return Err(halt),
            }
        }
        if Room::is_direct_message_room(matrix_room_id) {
            return MatrixApi::leave_room(calls, matrix_room_id, matrix_bot_user_id);
        }
        Ok(())
    }

    /// Sets a room up as an admin room: if the user who invited the bot created the room
    /// and the room has two members at most, the help is sent and the room gets its name;
    /// else the user is told why not, and the bot leaves the room and forgets it.
    pub fn setup_admin_room(
        &self,
        store: &Store,
        calls: &mut Transcript,
        matrix_room_id: &str,
        matrix_bot_user_id: &str,
        inviter_id: Option<String>,
    ) -> (result: Result<(), Halt>)
        ensures
            reached(result, final(calls).pending()) == setup_admin_room(
                old(calls).pending(),
                store.deep_view(),
                self.config.deep_view(),
                matrix_room_id@,
                matrix_bot_user_id@,
                inviter_id.deep_view(),
            ),
    {
        let inviter_id = match inviter_id {
            Some(inviter_id) => inviter_id,
            None => return Err(Halt::Fail(Error::inviter_unknown(text(matrix_room_id)))),
        };
        match self.is_admin_room_valid(calls, matrix_room_id, inviter_id.as_str()) {
            Ok(()) => {},
            Err(Halt::Ask(request)) => return Err(Halt::Ask(request)),
            Err(Halt::Fail(error)) => {
                return self.handle_admin_room_setup_error(
                    calls,
                    &error,
                    matrix_room_id,
                    matrix_bot_user_id,
                );
            },
        }
        match CommandHandler::build_help_message(
            store,
            calls,
            self.config.as_url.clone(),
            matrix_room_id,
            inviter_id.as_str(),
        ) {
            Ok(body) => {
                match MatrixApi::send_text_message_event(
                    calls,
                    matrix_room_id,
                    matrix_bot_user_id,
                    Body::Localized(body),
                ) {
                    Ok(()) => {},
                    Err(halt) => return Err(halt),
                }
            },
            Err(Halt::Ask(request)) => return Err(Halt::Ask(request)),
            Err(Halt::Fail(_)) => {},
        }
        let name = Body::Localized(Message::new(MessageKey::AdminRoomDisplayName));
        match MatrixApi::set_room_name(calls, matrix_room_id, name) {
            Err(Halt::Ask(request)) => Err(Halt::Ask(request)),
            _ => Ok(()),
        }
    }

    /// Lets the bot leave an admin room that a third user joined, after it has said why.
    pub fn handle_user_join(&self, calls: &mut Transcript, matrix_room_id: &str, matrix_bot_user_id: &str) -> (result:
        Result<(), Halt>)
        ensures
            reached(result, final(calls).pending()) == handle_user_join(
                old(calls).pending(),
                self.config.deep_view(),
                matrix_room_id@,
                matrix_bot_user_id@,
            ),
    {
        match Room::is_admin_room(calls, self.config, matrix_room_id) {
            Ok(true) => {},
            Ok(false) => return Ok(()),
            Err(halt) => return Err(halt),
        }
        match self.is_private_room(calls, matrix_room_id) {
            Ok(false) => {},
            Ok(true) => return Ok(()),
            Err(halt) => return Err(halt),
        }
        let body = Body::Localized(Message::new(MessageKey::OtherUserJoined));
        match MatrixApi::send_text_message_event(calls, matrix_room_id, matrix_bot_user_id, body) {
            Ok(()) => {},
            Err(halt) => return Err(halt),
        }
        self.leave_and_forget_room(calls, matrix_room_id, matrix_bot_user_id)
    }

    /// Lets the bot leave an admin room that its user left.
    pub fn handle_user_leave(&self, calls: &mut Transcript, matrix_room_id: &str, matrix_bot_user_id: &str) -> (result:
        Result<(), Halt>)
        ensures
            reached(result, final(calls).pending()) == handle_user_leave(
                old(calls).pending(),
                self.config.deep_view(),
                matrix_room_id@,
                matrix_bot_user_id@,
            ),
    {
        match Room::is_admin_room(calls, self.config, matrix_room_id) {
            Ok(true) => self.leave_and_forget_room(calls, matrix_room_id, matrix_bot_user_id),
            Ok(false) => Ok(()),
            Err(halt) => Err(halt),
        }
    }

    /// Lets a user leave a room and the bot forget it.
    pub fn leave_and_forget_room(&self, calls: &mut Transcript, matrix_room_id: &str, matrix_user_id: &str) -> (result:
        Result<(), Halt>)
        ensures
            reached(result, final(calls).pending()) == leave_and_forget_room(
                old(calls).pending(),
                matrix_room_id@,
                matrix_user_id@,
            ),
    {
        match MatrixApi::leave_room(calls, matrix_room_id, matrix_user_id) {
            Ok(()) => MatrixApi::forget_room(calls, matrix_room_id),
            Err(halt) => Err(halt),
        }
    }

    /// Whether a room is on another homeserver than the bridge's, by the host that was
    /// read from the homeserver's domain and the host that was read from the room's id.
    pub fn differs_from_homeserver(hs_domain: &str, hs_host: Option<String>, room_host: Option<String>) -> (remote:
        Result<bool, Error>)
        ensures
            checked(remote) == differs_from_homeserver(
                hs_domain@,
                hs_host.deep_view(),
                room_host.deep_view(),
            ),
    {
        let hs_host = match hs_host {
            Some(hs_host) => hs_host,
            None => return Err(Error::invalid_hostname(text(hs_domain))),
        };
        match room_host {
            Some(room_host) => Ok(!(room_host == hs_host)),
            None => Ok(true),
        }
    }

    /// Whether the room is on another homeserver than the bridge's.
    pub fn is_remote_invite(&self, matrix_room_id: &str) -> (remote: Result<bool, Error>)
        ensures
            checked(remote) == is_remote_invite(self.config.deep_view(), matrix_room_id@),
    {
        let hs_host = normalize_host(self.config.hs_domain.as_str());
        let room_host = match room_id_host(matrix_room_id) {
            Some(host) => normalize_host(host.as_str()),
            None => None,
        };
        RoomHandler::differs_from_homeserver(self.config.hs_domain.as_str(), hs_host, room_host)
    }

    /// Whether the room can be an admin room: the user who invited the bot created it, and
    /// it has two members at most.
    pub fn is_admin_room_valid(&self, calls: &mut Transcript, matrix_room_id: &str, inviter_id: &str) -> (result:
        Result<(), Halt>)
        ensures
            reached(result, final(calls).pending()) == is_admin_room_valid(
                old(calls).pending(),
                matrix_room_id@,
                inviter_id@,
            ),
    {
        let room_creator_id = match MatrixApi::get_room_creator(calls, matrix_room_id) {
            Ok(room_creator_id) => room_creator_id,
            Err(halt) => return Err(halt),
        };
        if !(room_creator_id == text(inviter_id)) {
            return Err(
                Halt::Fail(
                    Error::only_room_creator_can_invite_bot_user(
                        text(inviter_id),
                        text(matrix_room_id),
                        room_creator_id,
                    ),
                ),
            );
        }
        match self.is_private_room(calls, matrix_room_id) {
            Ok(true) => Ok(()),
            Ok(false) => Err(Halt::Fail(Error::too_many_users_in_admin_room(text(matrix_room_id)))),
            Err(halt) => Err(halt),
        }
    }

    /// Whether the room has two members at most.
    pub fn is_private_room(&self, calls: &mut Transcript, matrix_room_id: &str) -> (result: Result<
        bool,
        Halt,
    >)
        ensures
            reached(result, final(calls).pending()) == is_private_room(
                old(calls).pending(),
                matrix_room_id@,
            ),
    {
        match Room::user_ids(calls, matrix_room_id) {
            Ok(members) => Ok(Room::is_private_room(&members)),
            Err(halt) => Err(halt),
        }
    }

    /// Makes a room on the homeserver for a channel, with the alias of the channel and the
    /// power levels of a bridged room, and invites the user for whom the channel is
    /// bridged.
    pub fn create_room(
        &self,
        calls: &mut Transcript,
        rocketchat_channel_id: &str,
        rocketchat_server_id: &str,
        room_creator_id: &str,
        invited_user_id: &str,
        room_display_name: Option<String>,
    ) -> (result: Result<String, Halt>)
        ensures
            reached(result, final(calls).pending()) == create_room(
                old(calls).pending(),
                self.config.deep_view(),
                rocketchat_channel_id@,
                rocketchat_server_id@,
                room_creator_id@,
                invited_user_id@,
                room_display_name.deep_view(),
            ),
    {
        let alias_name = Room::build_room_alias_name(
            self.config,
            rocketchat_server_id,
            rocketchat_channel_id,
        );
        let room_id = match MatrixApi::create_room(
            calls,
            room_display_name,
            Some(alias_name),
            room_creator_id,
        ) {
            Ok(room_id) => room_id,
            Err(halt) => return Err(halt),
        };
        let levels = RoomHandler::default_power_levels(room_creator_id, invited_user_id);
        match MatrixApi::set_default_powerlevels(calls, room_id.as_str(), levels) {
            Ok(()) => {},
            Err(halt) => return Err(halt),
        }
        match MatrixApi::invite(calls, room_id.as_str(), invited_user_id, room_creator_id) {
            Ok(()) => Ok(room_id),
            Err(halt) => Err(halt),
        }
    }

    /// Brings into the room of a channel the virtual users of all the users that are in the
    /// channel on the Rocket.Chat server.
    pub fn add_virtual_users_to_room(
        &self,
        store: &mut Store,
        calls: &mut Transcript,
        rocketchat_api: &RocketchatApi,
        channel: &Channel,
        rocketchat_server_id: &str,
        matrix_room_id: &str,
    ) -> (result: Result<(), Halt>)
        requires
            old(store).wf(),
        ensures
            final(store).wf(),
            ran(result, final(store).deep_view(), final(calls).pending())
                == add_virtual_users_to_room(
                old(store).deep_view(),
                old(calls).pending(),
                self.config.deep_view(),
                rocketchat_api.deep_view(),
                channel.deep_view(),
                rocketchat_server_id@,
                matrix_room_id@,
            ),
            result is Err ==> final(store).deep_view() == old(store).deep_view(),
    {
        let virtual_user_handler = VirtualUserHandler { config: self.config };
        let snapshot = store.clone();
        let bot_id = match self.config.matrix_bot_user_id() {
            Ok(bot_id) => bot_id,
            Err(error) => return Err(Halt::Fail(error)),
        };
        let ghost whole = add_virtual_users_from(
            store.deep_view(),
            calls.pending(),
            self.config.deep_view(),
            rocketchat_api.deep_view(),
            channel.deep_view().usernames,
            rocketchat_server_id@,
            matrix_room_id@,
            0,
        );
        let mut i: usize = 0;
        while i < channel.usernames.len()
            invariant
                i <= channel.usernames.len(),
                store.wf(),
                snapshot.wf(),
                snapshot.deep_view() == old(store).deep_view(),
                virtual_user_handler.config == self.config,
                bot_id@ == bot_user_id(self.config.deep_view()),
                user_id_accepted(bot_user_id(self.config.deep_view())),
                whole == add_virtual_users_from(
                    old(store).deep_view(),
                    old(calls).pending(),
                    self.config.deep_view(),
                    rocketchat_api.deep_view(),
                    channel.deep_view().usernames,
                    rocketchat_server_id@,
                    matrix_room_id@,
                    0,
                ),
                whole == add_virtual_users_from(
                    store.deep_view(),
                    calls.pending(),
                    self.config.deep_view(),
                    rocketchat_api.deep_view(),
                    channel.deep_view().usernames,
                    rocketchat_server_id@,
                    matrix_room_id@,
                    i as int,
                ),
            decreases channel.usernames.len() - i,
        {
            let username = channel.usernames[i].as_str();
            let rocketchat_user_id = match rocketchat_api.users_info(calls, username) {
                Ok(rocketchat_user_id) => rocketchat_user_id,
                Err(halt) => {
                    *store = snapshot;
                    return Err(halt);
                },
            };
            let user = match virtual_user_handler.find_or_register(
                store,
                calls,
                rocketchat_server_id,
                rocketchat_user_id.as_str(),
                username,
            ) {
                Ok(user) => user,
                Err(halt) => {
                    *store = snapshot;
                    return Err(halt);
                },
            };
            match virtual_user_handler.add_to_room(
                calls,
                user.matrix_user_id.as_str(),
                bot_id.as_str(),
                matrix_room_id,
            ) {
                Ok(()) => {},
                Err(halt) => {
                    *store = snapshot;
                    return Err(halt);
                },
            }
            i = i + 1;
        }
        Ok(())
    }

    /// What the bot does where a room cannot be set up as an admin room: it tells the
    /// user what went wrong, leaves the room and forgets it. That one of these fails does
    /// not keep the next from being tried.
    pub fn handle_admin_room_setup_error(
        &self,
        calls: &mut Transcript,
        error: &Error,
        matrix_room_id: &str,
        matrix_bot_user_id: &str,
    ) -> (result: Result<(), Halt>)
        ensures
            reached(result, final(calls).pending()) == handle_admin_room_setup_error(
                old(calls).pending(),
                self.config.deep_view(),
                error.deep_view(),
                matrix_room_id@,
                matrix_bot_user_id@,
            ),
    {
        let error_notifier = ErrorNotifier { config: self.config };
        match error_notifier.send_message_to_user(calls, error, matrix_room_id) {
            Err(Halt::Ask(request)) => return Err(Halt::Ask(request)),
            _ => {},
        }
        match self.leave_and_forget_room(calls, matrix_room_id, matrix_bot_user_id) {
            Err(Halt::Ask(request)) => Err(Halt::Ask(request)),
            _ => Ok(()),
        }
    }
}

} // verus!
