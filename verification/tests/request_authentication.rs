use matrix_rocketchat::api::Reply;
use matrix_rocketchat::config::Config;
use matrix_rocketchat::db::Store;
use matrix_rocketchat::models::{Event, Events};
use matrix_rocketchat::server::{Progress, Server};

const HS_TOKEN: &str = "ht";

fn config() -> Config {
    Config {
        hs_domain: "localhost".to_string(),
        as_url: "http://as.example".to_string(),
        hs_token: HS_TOKEN.to_string(),
        sender_localpart: "rocketchat".to_string(),
        accept_remote_invites: false,
    }
}

fn put_transaction(access_token: Option<&str>, events: &Events) -> (Store, u16) {
    let config = config();
    let store = Store::new();
    let replies: Vec<Reply> = Vec::new();
    let token = access_token.map(|t| t.to_string());
    match Server::new(&config).transactions(&store, &token, &events.events, 0, &replies) {
        Progress::Done(store, status) => (store, status),
        Progress::Ask(request) => panic!("unexpected call {:?}", request),
    }
}

#[test]
fn returns_unauthorized_when_token_is_missing() {
    let events = Events { events: Vec::new() };

    let (_, status) = put_transaction(None, &events);
    assert_eq!(status, 401);
}

#[test]
fn returns_forbidden_when_token_is_wrong() {
    let events = Events { events: Vec::new() };

    let (_, status) = put_transaction(Some("wrong_token"), &events);
    assert_eq!(status, 403);
}

#[test]
fn returns_ok_when_token_is_correct() {
    let events = Events { events: Vec::new() };

    let (_, status) = put_transaction(Some(HS_TOKEN), &events);

    assert_eq!(status, 200);
}

#[test]
fn a_transaction_that_is_turned_away_is_not_handled() {
    let events = Events { events: vec![Event::Other] };
    let config = config();
    let store = Store::new();

    let progress = Server::new(&config).transactions(&store, &Some("wrong_token".to_string()), &events.events, 0, &Vec::new());

    assert_eq!(progress, Progress::Done(Store::new(), 403));
    assert_eq!(Server::new(&config).transaction_status(&Some(HS_TOKEN.to_string())), 200);
    assert_eq!(Server::new(&config).transaction_status(&Some("".to_string())), 403);
    assert_eq!(Server::new(&config).transaction_status(&None), 401);
}

#[test]
fn the_namespace_holds_the_ids_behind_the_sender_prefix_on_the_homeserver() {
    let config = config();
    let server = Server::new(&config);

    assert_eq!(server.users("@rocketchat_new_user_id_rc_id:localhost"), 200);
    assert_eq!(server.users("@rocketchat_:localhost"), 200);
    assert_eq!(server.users("@rocketchat:localhost"), 404);
    assert_eq!(server.users("@rocketchatx_user:localhost"), 404);
    assert_eq!(server.users("@spec_user:localhost"), 404);
    assert_eq!(server.users("@rocketchat_user:other.example"), 404);
    assert_eq!(server.users("#rocketchat_user:localhost"), 404);
    assert_eq!(server.users("@rocketchat_user"), 404);
    assert_eq!(server.users(""), 404);

    assert_eq!(server.rooms("#rocketchat_rc_id_spec_channel_id:localhost"), 200);
    assert_eq!(server.rooms("#other_rc_id_spec_channel_id:localhost"), 404);
    assert_eq!(server.rooms("#rocketchat_rc_id_spec_channel_id:other.example"), 404);
    assert_eq!(server.rooms("@rocketchat_rc_id_spec_channel_id:localhost"), 404);
}
