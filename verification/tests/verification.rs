use effektio::client::Client;
use effektio::state::ClientState;
use effektio::verification::{
    emoji_units, Ask, EmojiItem, EmojiUnit, Next, Operation, Reply, VerificationError,
    VerificationFlow,
};

const ALICE: &str = "@alice:example.org";

const ALL: [Operation; 6] = [
    Operation::AcceptRequest,
    Operation::AcceptStart,
    Operation::Confirm,
    Operation::Mismatch,
    Operation::Cancel,
    Operation::Review,
];

fn begin(operation: Operation) -> VerificationFlow {
    VerificationFlow::begin(operation, ALICE.to_owned(), "txn1".to_owned()).unwrap()
}

fn run(
    operation: Operation,
    found: bool,
    performed: bool,
    done: bool,
) -> (Vec<Ask>, Result<bool, VerificationError>) {
    let mut flow = begin(operation);
    let mut asked = vec![];
    loop {
        asked.push(flow.ask());
        let reply = match flow.ask() {
            Ask::FindRequest | Ask::FindSas if found => Reply::Found,
            Ask::FindRequest | Ask::FindSas => Reply::Missing,
            Ask::IsDone => Reply::Done(done),
            _ if performed => Reply::Performed,
            _ => Reply::Failed,
        };
        if let Next::Finished(outcome) = flow.resume(reply) {
            return (asked, outcome);
        }
    }
}

fn item(symbol: &str, description: &str) -> EmojiItem {
    EmojiItem { symbol: symbol.to_owned(), description: description.to_owned() }
}

#[test]
fn operations_ask_for_one_thing_after_the_other() {
    let asked = |operation| run(operation, true, true, true);
    assert_eq!(asked(Operation::AcceptRequest), (vec![Ask::FindRequest, Ask::Accept], Ok(true)));
    assert_eq!(asked(Operation::AcceptStart), (vec![Ask::FindSas, Ask::Accept], Ok(true)));
    assert_eq!(asked(Operation::Confirm), (vec![Ask::FindSas, Ask::Confirm, Ask::IsDone], Ok(true)));
    assert_eq!(asked(Operation::Mismatch), (vec![Ask::FindSas, Ask::Mismatch], Ok(true)));
    assert_eq!(asked(Operation::Cancel), (vec![Ask::FindSas, Ask::Cancel], Ok(true)));
    assert_eq!(asked(Operation::Review), (vec![Ask::FindSas, Ask::IsDone], Ok(true)));
}

#[test]
fn nothing_is_done_to_what_is_missing() {
    for operation in ALL {
        let (asked, outcome) = run(operation, false, true, true);
        assert_eq!(asked.len(), 1);
        if operation == Operation::AcceptRequest {
            assert_eq!(outcome, Err(VerificationError::NoRequest));
        } else {
            assert_eq!(outcome, Ok(false));
        }
    }
}

#[test]
fn actions_that_fail_are_errors() {
    for operation in ALL {
        let (_, outcome) = run(operation, true, false, true);
        match operation {
            Operation::AcceptRequest => {
                assert_eq!(outcome, Err(VerificationError::RequestNotAccepted));
            }
            Operation::Review => assert_eq!(outcome, Ok(true)),
            _ => assert_eq!(outcome, Err(VerificationError::ActionFailed)),
        }
    }
}

#[test]
fn some_operations_tell_whether_the_verification_is_done() {
    for operation in ALL {
        let (_, outcome) = run(operation, true, true, false);
        let tells = operation == Operation::Confirm || operation == Operation::Review;
        assert_eq!(outcome, Ok(!tells));
    }
}

#[test]
fn operations_know_what_they_are_about() {
    let client = Client::new(ClientState::default());
    let (a, t) = (ALICE.to_owned(), "txn1".to_owned());
    let flows = [
        (client.accept_verification_request(a.clone(), t.clone()), Ask::FindRequest, Ask::Accept),
        (client.accept_verification_start(a.clone(), t.clone()), Ask::FindSas, Ask::Accept),
        (client.confirm_verification_key(a.clone(), t.clone()), Ask::FindSas, Ask::Confirm),
        (client.mismatch_verification_key(a.clone(), t.clone()), Ask::FindSas, Ask::Mismatch),
        (client.cancel_verification_key(a.clone(), t.clone()), Ask::FindSas, Ask::Cancel),
        (client.review_verification_mac(a.clone(), t.clone()), Ask::FindSas, Ask::IsDone),
    ];
    for (flow, first, second) in flows {
        let mut flow = flow.unwrap();
        assert_eq!(flow.sender(), ALICE);
        assert_eq!(flow.event_id(), "txn1");
        assert_eq!(flow.ask(), first);
        assert_eq!(flow.resume(Reply::Found), Next::Ask(second));
        assert_eq!(flow.ask(), second);
    }
}

#[test]
fn the_sender_must_be_a_user() {
    let client = Client::new(ClientState::default());
    for sender in ["alice", "alice:example.org", "!alice:example.org", "@alice", ""] {
        for operation in ALL {
            let flow = VerificationFlow::begin(operation, sender.to_owned(), "t".to_owned());
            assert_eq!(flow.unwrap_err(), VerificationError::InvalidSender);
        }
        let lookup = client.get_verification_emoji(sender.to_owned(), "t".to_owned());
        assert_eq!(lookup.unwrap_err(), VerificationError::InvalidSender);
    }
}

#[test]
fn pictures_are_the_first_characters_of_their_symbols() {
    let client = Client::new(ClientState::default());
    let lookup = client.get_verification_emoji(ALICE.to_owned(), "txn1".to_owned()).unwrap();
    assert_eq!(lookup.sender(), ALICE);
    assert_eq!(lookup.event_id(), "txn1");
    let items = vec![item("\u{1f436}", "Dog"), item("\u{2764}\u{fe0f}", "Heart")];
    let units = lookup.finish(Some(items)).unwrap();
    let shown: Vec<(u32, String)> =
        units.iter().map(|u| (u.get_symbol(), u.get_description())).collect();
    assert_eq!(shown, [(0x1f436, "Dog".to_owned()), (0x2764, "Heart".to_owned())]);
    assert_eq!(units[1].clone().get_symbol(), 0x2764);
    assert_eq!(EmojiUnit::new(7, "Seven".to_owned()).get_description(), "Seven");
}

#[test]
fn there_may_be_no_pictures() {
    let client = Client::new(ClientState::default());
    let lookup = client.get_verification_emoji(ALICE.to_owned(), "txn1".to_owned()).unwrap();
    assert!(lookup.finish(None).unwrap().is_empty());
    assert!(emoji_units(&vec![]).unwrap().is_empty());
}

#[test]
fn a_picture_must_have_a_symbol() {
    let items = vec![item("\u{1f436}", "Dog"), item("", "Nothing")];
    assert_eq!(emoji_units(&items).unwrap_err(), VerificationError::EmptySymbol);
}

#[test]
fn errors_have_their_words() {
    assert_eq!(VerificationError::InvalidSender.message(), Some("Couldn't parse the MXID"));
    assert_eq!(VerificationError::NoRequest.message(), Some("Request object wasn't created"));
    assert_eq!(
        VerificationError::RequestNotAccepted.message(),
        Some("Can't accept verification request")
    );
    assert_eq!(VerificationError::ActionFailed.message(), None);
    assert_eq!(VerificationError::EmptySymbol.message(), None);
}
