use effektio::client::{Client, ClientError, DisplayNameError};
use effektio::report::{device_line, device_lines, pad_right, result_line, DeviceInfo, LocalTrust};
use effektio::state::ClientState;

fn client() -> Client {
    Client::new(ClientState::default())
}

#[test]
fn a_client_tells_its_state() {
    let mut state = ClientState::default();
    state.is_guest = true;
    state.record_cached_invitation("!r:example.org".to_owned(), "Room".to_owned());
    let mut client = Client::new(state);
    assert!(client.is_guest());
    assert!(!client.has_first_synced());
    assert!(!client.is_syncing());
    assert_eq!(client.pending_invitations().len(), 1);
    client.state_mut().is_syncing = true;
    client.state_mut().has_first_synced = true;
    assert!(client.is_syncing() && client.has_first_synced());
    assert_eq!(client.pending_invitations()[0].get_room_name(), "Room");
}

#[test]
fn a_token_needs_a_session() {
    let mut state = ClientState::default();
    state.is_guest = true;
    let client = Client::new(state);
    let token = client.restore_token(Some("session"), "https://example.org/".to_owned()).unwrap();
    assert_eq!(token.session, "session");
    assert_eq!(token.homeurl, "https://example.org/");
    assert!(token.is_guest);
    let error = client.restore_token(None::<u8>, "https://example.org/".to_owned()).unwrap_err();
    assert_eq!(error, ClientError::MissingSession);
    assert_eq!(error.message(), "Missing session");
}

#[test]
fn what_is_missing_is_named() {
    assert_eq!(client().user_id(Some("@me:example.org")), Ok("@me:example.org"));
    let error = client().user_id(None::<String>).unwrap_err();
    assert_eq!(error.message(), "No User ID found");
    assert_eq!(client().device_id(Some("DEV".to_owned())), Ok("DEV".to_owned()));
    let error = client().device_id(None).unwrap_err();
    assert_eq!(error, ClientError::NoDeviceId);
    assert_eq!(error.message(), "No Device ID found");
}

#[test]
fn a_display_name_may_be_missing() {
    let name = client().display_name::<String>(Ok(Some("Me".to_owned()))).unwrap();
    assert_eq!(name, "Me");
    assert!(matches!(
        client().display_name::<String>(Ok(None)),
        Err(DisplayNameError::Missing(ClientError::NoUserId))
    ));
    assert!(matches!(
        client().display_name(Err("offline".to_owned())),
        Err(DisplayNameError::Request(error)) if error == "offline"
    ));
}

#[test]
fn devices_are_listed_below_their_user() {
    let devices = vec![
        DeviceInfo {
            device_id: "ABCDEFGHIJ".to_owned(),
            display_name: Some("Phone".to_owned()),
            verified: true,
        },
        DeviceInfo { device_id: "X".to_owned(), display_name: None, verified: false },
    ];
    let lines = device_lines("@me:example.org", &devices);
    assert_eq!(
        lines,
        [
            "Devices of user @me:example.org".to_owned(),
            format!("   ABCDEFGHIJ {:<30} true", "Phone"),
            format!("   X {:<30} false", "-"),
        ]
    );
    assert_eq!(lines[2], device_line(&devices[1]));
}

#[test]
fn a_device_is_printed_as_its_identifier_prints_itself() {
    let id = ruma::OwnedDeviceId::from("DEV");
    let device = DeviceInfo {
        device_id: id.to_string(),
        display_name: Some("a name that is longer than its column".to_owned()),
        verified: false,
    };
    assert_eq!(
        device_line(&device),
        format!("   {:<10} {:<30} {:<}", id, "a name that is longer than its column", false)
    );
}

#[test]
fn columns_are_filled_by_characters() {
    assert_eq!(pad_right("", 3), "   ");
    assert_eq!(pad_right("\u{e4}\u{1f436}", 4), "\u{e4}\u{1f436}  ");
    assert_eq!(pad_right("abc", 3), "abc");
    assert_eq!(pad_right("abcd", 3), "abcd");
}

#[test]
fn a_result_names_the_trust() {
    let cases = [
        (LocalTrust::Verified, "Verified"),
        (LocalTrust::BlackListed, "BlackListed"),
        (LocalTrust::Ignored, "Ignored"),
        (LocalTrust::Unset, "Unset"),
    ];
    for (trust, name) in cases {
        assert_eq!(
            result_line("@me:example.org", "DEV", trust),
            format!("Successfully verified device @me:example.org DEV {}", name)
        );
    }
}
