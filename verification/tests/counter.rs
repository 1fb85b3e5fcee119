use breathalyzer_firmware::actions::Action;
use breathalyzer_firmware::counter::Responder;
use breathalyzer_firmware::message::{Channel, Message};
use breathalyzer_firmware::radio::ClientEvent;

fn received(id: u32, channel: Channel, data: u32) -> ClientEvent {
    ClientEvent::Rx(Message { id, channel, data }.serialize().as_slice().to_vec())
}

fn answer(actions: &[Action]) -> Message {
    match &actions[0] {
        Action::RadioSend(packet) => Message::deserialize(packet.as_slice()).unwrap(),
        other => panic!("no answer: {:?}", other),
    }
}

#[test]
fn new_responder_has_counted_nothing() {
    let responder = Responder::new(2);
    assert_eq!(responder, Responder { address: 2, counter_1: 0, counter_2: 0, state: false });
}

#[test]
fn responder_counts_per_channel_and_answers_with_the_count() {
    let mut responder = Responder::new(2);
    let actions = responder.radio_event(&received(2, Channel::One, 5));
    assert_eq!(actions.len(), 3);
    assert_eq!(answer(&actions), Message { id: 2, channel: Channel::One, data: 5 });
    assert_eq!(actions[1], Action::RadioSetBuffer);
    assert_eq!(actions[2], Action::RadioReceive);
    let actions = responder.radio_event(&received(2, Channel::One, 7));
    assert_eq!(answer(&actions), Message { id: 2, channel: Channel::One, data: 12 });
    let actions = responder.radio_event(&received(2, Channel::Two, 1));
    assert_eq!(answer(&actions), Message { id: 2, channel: Channel::Two, data: 1 });
    assert_eq!((responder.counter_1, responder.counter_2), (12, 1));
    assert!(!responder.state);
}

#[test]
fn responder_ignores_records_for_another_address() {
    let mut responder = Responder::new(2);
    let actions = responder.radio_event(&received(3, Channel::One, 5));
    assert_eq!(actions, vec![Action::RadioSetBuffer, Action::RadioReceive]);
    assert_eq!(responder, Responder::new(2));
}

#[test]
fn responder_ignores_malformed_bytes() {
    let mut responder = Responder::new(2);
    let actions = responder.radio_event(&ClientEvent::Rx(vec![2, 0, 0, 0, 0, 5]));
    assert_eq!(actions, vec![Action::RadioSetBuffer, Action::RadioReceive]);
    assert_eq!(responder, Responder::new(2));
}

#[test]
fn responder_does_not_count_beyond_the_largest_value() {
    let mut responder = Responder::new(2);
    responder.counter_2 = u32::MAX - 1;
    let before = responder;
    let actions = responder.radio_event(&received(2, Channel::Two, 2));
    assert_eq!(actions, vec![Action::RadioSetBuffer, Action::RadioReceive]);
    assert_eq!(responder, before);
    let actions = responder.radio_event(&received(2, Channel::Two, 1));
    assert_eq!(answer(&actions), Message { id: 2, channel: Channel::Two, data: u32::MAX });
    assert_eq!(responder.counter_2, u32::MAX);
}

#[test]
fn responder_goes_back_to_receive_after_a_transmission() {
    let mut responder = Responder::new(2);
    assert_eq!(responder.radio_event(&ClientEvent::TxDone), vec![Action::RadioReceive]);
    assert_eq!(responder.radio_event(&ClientEvent::Quiet), Vec::<Action>::new());
    assert_eq!(responder, Responder::new(2));
}
