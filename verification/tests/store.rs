use matrix_rocketchat::db::{RocketchatServer, Store, User, UserOnRocketchatServer};
use matrix_rocketchat::errors::ErrorKind;

fn server(id: &str, url: &str, token: Option<&str>) -> RocketchatServer {
    RocketchatServer {
        id: id.to_string(),
        rocketchat_url: url.to_string(),
        rocketchat_token: token.map(|t| t.to_string()),
    }
}

fn user_on_server(user: &str, server: &str, rc_user: Option<&str>, name: Option<&str>, is_virtual: bool) -> UserOnRocketchatServer {
    UserOnRocketchatServer {
        is_virtual_user: is_virtual,
        matrix_user_id: user.to_string(),
        rocketchat_server_id: server.to_string(),
        rocketchat_user_id: rc_user.map(|t| t.to_string()),
        rocketchat_auth_token: None,
        rocketchat_username: name.map(|t| t.to_string()),
    }
}

#[test]
fn a_server_that_was_inserted_is_found_by_its_id_its_address_and_its_token() {
    let mut store = Store::new();

    let inserted = RocketchatServer::insert(&mut store, server("srv1", "https://rc.example", Some("tok1"))).unwrap();

    assert_eq!(inserted, server("srv1", "https://rc.example", Some("tok1")));
    assert_eq!(RocketchatServer::find_by_id(&store, "srv1"), Some(server("srv1", "https://rc.example", Some("tok1"))));
    assert_eq!(
        RocketchatServer::find_by_url(&store, "https://rc.example"),
        Some(server("srv1", "https://rc.example", Some("tok1")))
    );
    assert_eq!(RocketchatServer::find_by_token(&store, "tok1"), Some(server("srv1", "https://rc.example", Some("tok1"))));
    assert_eq!(RocketchatServer::find_by_id(&store, "srv2"), None);
    assert_eq!(RocketchatServer::find_by_url(&store, "https://rc.example/"), None);
    assert_eq!(RocketchatServer::find_by_token(&store, "tok"), None);
}

#[test]
fn the_store_keeps_ids_addresses_and_tokens_apart() {
    let mut store = Store::new();
    RocketchatServer::insert(&mut store, server("srv1", "https://rc.example", Some("tok1"))).unwrap();
    RocketchatServer::insert(&mut store, server("bare", "https://bare.example", None)).unwrap();

    let kinds = vec![
        RocketchatServer::insert(&mut store, server("", "https://new.example", Some("tok2"))).unwrap_err().kind,
        RocketchatServer::insert(&mut store, server("Srv", "https://new.example", Some("tok2"))).unwrap_err().kind,
        RocketchatServer::insert(&mut store, server("srv1", "https://new.example", Some("tok2"))).unwrap_err().kind,
        RocketchatServer::insert(&mut store, server("srv2", "https://rc.example", Some("tok2"))).unwrap_err().kind,
        RocketchatServer::insert(&mut store, server("srv2", "https://bare.example", None)).unwrap_err().kind,
        RocketchatServer::insert(&mut store, server("srv2", "https://new.example", Some("tok1"))).unwrap_err().kind,
    ];

    assert_eq!(
        kinds,
        vec![
            ErrorKind::ConnectWithInvalidRocketchatServerId("".to_string()),
            ErrorKind::ConnectWithInvalidRocketchatServerId("Srv".to_string()),
            ErrorKind::RocketchatServerIdAlreadyInUse("srv1".to_string()),
            ErrorKind::RocketchatServerAlreadyConnected("https://rc.example".to_string()),
            ErrorKind::RocketchatServerAlreadyConnected("https://bare.example".to_string()),
            ErrorKind::RocketchatTokenAlreadyInUse("tok1".to_string()),
        ]
    );
    assert_eq!(store.rocketchat_servers.len(), 2);

    // no two servers with a token have the same token
    RocketchatServer::insert(&mut store, server("srv3", "https://third.example", Some("tok3"))).unwrap();
    let tokens = store.rocketchat_servers.iter().filter_map(|s| s.rocketchat_token.clone()).collect::<Vec<String>>();
    assert_eq!(tokens, vec!["tok1".to_string(), "tok3".to_string()]);
}

#[test]
fn a_server_without_a_token_gives_its_place_to_one_with_a_token() {
    let mut store = Store::new();
    RocketchatServer::insert(&mut store, server("bare", "https://rc.example", None)).unwrap();
    RocketchatServer::insert(&mut store, server("other", "https://other.example", Some("tok0"))).unwrap();

    RocketchatServer::insert(&mut store, server("srv1", "https://rc.example", Some("tok1"))).unwrap();

    assert_eq!(
        store.rocketchat_servers,
        vec![server("srv1", "https://rc.example", Some("tok1")), server("other", "https://other.example", Some("tok0"))]
    );
}

#[test]
fn the_connected_servers_are_those_with_a_token_in_their_order() {
    let mut store = Store::new();
    assert_eq!(RocketchatServer::find_connected_servers(&store), Vec::<RocketchatServer>::new());
    RocketchatServer::insert(&mut store, server("a", "https://a.example", Some("ta"))).unwrap();
    RocketchatServer::insert(&mut store, server("b", "https://b.example", None)).unwrap();
    RocketchatServer::insert(&mut store, server("c", "https://c.example", Some("tc"))).unwrap();

    assert_eq!(
        RocketchatServer::find_connected_servers(&store),
        vec![server("a", "https://a.example", Some("ta")), server("c", "https://c.example", Some("tc"))]
    );
}

#[test]
fn the_id_of_a_server_is_made_of_digits_lower_case_letters_and_underscores() {
    assert!(RocketchatServer::is_valid_id("rc_id"));
    assert!(RocketchatServer::is_valid_id("0123456789abcdef"));
    assert!(RocketchatServer::is_valid_id("_"));
    assert!(!RocketchatServer::is_valid_id(""));
    assert!(!RocketchatServer::is_valid_id("0123456789abcdefg"));
    assert!(!RocketchatServer::is_valid_id("Rc"));
    assert!(!RocketchatServer::is_valid_id("rc-id"));
    assert!(!RocketchatServer::is_valid_id("rc id"));
    assert!(!RocketchatServer::is_valid_id("rcé"));
}

#[test]
fn a_second_upsert_of_the_same_record_changes_nothing() {
    let mut store = Store::new();
    let row = user_on_server("@spec_user:localhost", "rc_id", Some("spec_user_id"), Some("spec_user"), false);

    UserOnRocketchatServer::upsert(&mut store, &row);
    let once = store.users_on_rocketchat_servers.clone();
    UserOnRocketchatServer::upsert(&mut store, &row);

    assert_eq!(store.users_on_rocketchat_servers, once);
    assert_eq!(store.users_on_rocketchat_servers, vec![row.clone()]);
    assert_eq!(UserOnRocketchatServer::find(&store, "@spec_user:localhost", "rc_id").unwrap(), row);
}

#[test]
fn a_read_after_an_upsert_sees_what_was_written_last() {
    let mut store = Store::new();
    UserOnRocketchatServer::upsert(&mut store, &user_on_server("@a:localhost", "rc_id", None, None, false));
    UserOnRocketchatServer::upsert(&mut store, &user_on_server("@b:localhost", "rc_id", None, None, false));
    UserOnRocketchatServer::upsert(&mut store, &user_on_server("@a:localhost", "other", None, None, false));

    let written = user_on_server("@a:localhost", "rc_id", Some("a_id"), Some("a"), false);
    UserOnRocketchatServer::upsert(&mut store, &written);

    assert_eq!(UserOnRocketchatServer::find(&store, "@a:localhost", "rc_id").unwrap(), written);
    assert_eq!(store.users_on_rocketchat_servers.len(), 3);
    assert_eq!(store.users_on_rocketchat_servers[0], written);
    assert_eq!(UserOnRocketchatServer::find(&store, "@a:localhost", "other").unwrap().rocketchat_user_id, None);
}

#[test]
fn a_user_who_has_no_record_is_not_found() {
    let store = Store::new();

    let error = UserOnRocketchatServer::find(&store, "@a:localhost", "rc_id").unwrap_err();

    assert_eq!(
        error.kind,
        ErrorKind::UserOnRocketchatServerNotFound("@a:localhost".to_string(), "rc_id".to_string())
    );
    assert_eq!(error.user_message, None);
}

#[test]
fn users_are_found_by_their_id_on_the_rocketchat_server() {
    let mut store = Store::new();
    let human = user_on_server("@spec_user:localhost", "rc_id", Some("spec_user_id"), Some("spec_user"), false);
    let virtual_user = user_on_server("@rocketchat_spec_user_id_rc_id:localhost", "rc_id", Some("spec_user_id"), None, true);
    UserOnRocketchatServer::upsert(&mut store, &virtual_user);
    UserOnRocketchatServer::upsert(&mut store, &human);

    assert_eq!(UserOnRocketchatServer::find_by_rocketchat_user_id(&store, "rc_id", "spec_user_id", false), Some(human));
    assert_eq!(
        UserOnRocketchatServer::find_by_rocketchat_user_id(&store, "rc_id", "spec_user_id", true),
        Some(virtual_user)
    );
    assert_eq!(UserOnRocketchatServer::find_by_rocketchat_user_id(&store, "other", "spec_user_id", true), None);
    assert_eq!(UserOnRocketchatServer::find_by_rocketchat_user_id(&store, "rc_id", "spec_user", true), None);
}

#[test]
fn a_user_is_logged_in_who_has_an_id_and_a_token() {
    let mut row = user_on_server("@spec_user:localhost", "rc_id", None, None, false);
    assert!(!row.is_logged_in());
    row.rocketchat_user_id = Some("spec_user_id".to_string());
    assert!(!row.is_logged_in());
    row.rocketchat_auth_token = Some("token".to_string());
    assert!(row.is_logged_in());
    row.rocketchat_user_id = None;
    assert!(!row.is_logged_in());
}

#[test]
fn the_moment_of_the_last_message_never_goes_back() {
    let mut store = Store::new();

    User::record_message_sent(&mut store, "@spec_user:localhost", 100);
    assert_eq!(
        User::find(&store, "@spec_user:localhost"),
        Some(User { matrix_user_id: "@spec_user:localhost".to_string(), language: "en".to_string(), last_message_sent: 100 })
    );

    User::record_message_sent(&mut store, "@spec_user:localhost", 90);
    assert_eq!(User::find(&store, "@spec_user:localhost").unwrap().last_message_sent, 100);

    User::record_message_sent(&mut store, "@spec_user:localhost", 110);
    assert_eq!(User::find(&store, "@spec_user:localhost").unwrap().last_message_sent, 110);

    User::record_message_sent(&mut store, "@other:localhost", -5);
    assert_eq!(User::find(&store, "@other:localhost").unwrap().last_message_sent, 0);
    assert_eq!(store.users.len(), 2);
    assert_eq!(User::find(&store, "@nobody:localhost"), None);
}

#[test]
fn a_store_is_well_formed_that_keeps_its_keys_apart() {
    let mut store = Store::new();
    assert!(store.is_well_formed());
    RocketchatServer::insert(&mut store, server("a", "https://a.example", Some("ta"))).unwrap();
    RocketchatServer::insert(&mut store, server("b", "https://b.example", None)).unwrap();
    RocketchatServer::insert(&mut store, server("c", "https://c.example", None)).unwrap();
    UserOnRocketchatServer::upsert(&mut store, &user_on_server("@a:localhost", "a", None, None, false));
    UserOnRocketchatServer::upsert(&mut store, &user_on_server("@a:localhost", "b", None, None, false));
    User::record_message_sent(&mut store, "@a:localhost", 1);
    User::record_message_sent(&mut store, "@b:localhost", 1);
    assert!(store.is_well_formed());

    let mut twice = store.clone();
    twice.rocketchat_servers.push(server("a", "https://d.example", None));
    assert!(!twice.is_well_formed());

    let mut twice = store.clone();
    twice.rocketchat_servers.push(server("d", "https://b.example", None));
    assert!(!twice.is_well_formed());

    let mut twice = store.clone();
    twice.rocketchat_servers.push(server("d", "https://d.example", Some("ta")));
    assert!(!twice.is_well_formed());

    let mut odd = store.clone();
    odd.rocketchat_servers.push(server("No", "https://d.example", None));
    assert!(!odd.is_well_formed());

    let mut twice = store.clone();
    twice.users.push(User { matrix_user_id: "@a:localhost".to_string(), language: "de".to_string(), last_message_sent: 0 });
    assert!(!twice.is_well_formed());

    let mut twice = store.clone();
    twice.users_on_rocketchat_servers.push(user_on_server("@a:localhost", "b", Some("id"), None, true));
    assert!(!twice.is_well_formed());
}

#[test]
fn the_users_of_a_server_that_gave_its_place_stay_under_the_id_that_it_had() {
    let mut store = Store::new();
    RocketchatServer::insert(&mut store, server("bare", "https://rc.example", None)).unwrap();
    UserOnRocketchatServer::upsert(&mut store, &user_on_server("@a:localhost", "bare", None, None, false));
    UserOnRocketchatServer::upsert(&mut store, &user_on_server("@b:localhost", "other", None, None, false));
    let rows_before = store.users_on_rocketchat_servers.len();

    RocketchatServer::insert(&mut store, server("srv1", "https://rc.example", Some("tok1"))).unwrap();

    // the server is there under its new id alone
    assert_eq!(store.rocketchat_servers, vec![server("srv1", "https://rc.example", Some("tok1"))]);
    assert_eq!(RocketchatServer::find_by_id(&store, "bare"), None);
    // the records of users are as they were: none was moved to the new id
    assert_eq!(store.users_on_rocketchat_servers.len(), rows_before);
    assert_eq!(
        UserOnRocketchatServer::find(&store, "@a:localhost", "bare").ok(),
        Some(user_on_server("@a:localhost", "bare", None, None, false))
    );
    assert!(UserOnRocketchatServer::find(&store, "@a:localhost", "srv1").is_err());
    assert!(store.is_well_formed());
}
