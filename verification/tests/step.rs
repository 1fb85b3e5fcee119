use breathalyzer_firmware::actions::{Action, Irq, Payload, Task};
use breathalyzer_firmware::breathalyzer::{Ladder, BAC};
use breathalyzer_firmware::dispatcher::Event;
use breathalyzer_firmware::step::{Input, Need};
use breathalyzer_firmware::message::{Channel, Message};
use breathalyzer_firmware::radio::{ClientEvent, RadioSession, RfEvent};
use breathalyzer_firmware::table::{dispatcher, spawn_all};
use breathalyzer_firmware::tasks::Resources;

fn state() -> Resources {
    Resources::new(Ladder { low: 10, medium: 20, high: 30, very_high: 40, death: 50 }, 6).0
}

fn event(task: Task, payload: Payload) -> Event<Payload> {
    Event { task: task.id(), payload }
}

#[test]
fn need_of_each_task() {
    let res = state();
    let line = RfEvent { dio: 0 };
    assert_eq!(res.need(&event(Task::Exti2_3, Payload::Empty)), Need::Nothing);
    assert_eq!(res.need(&event(Task::Exti4_15, Payload::Radio(line))), Need::Nothing);
    assert_eq!(res.need(&event(Task::RadioEvent, Payload::Radio(line))), Need::Report(line));
    assert_eq!(res.need(&event(Task::RadioEvent, Payload::Empty)), Need::Nothing);
    assert_eq!(
        res.need(&event(Task::SendRadioMessage, Payload::Reading(BAC::LOW))),
        Need::Nothing
    );
    assert_eq!(res.need(&event(Task::SensorPoll, Payload::Empty)), Need::TwoSamples);
    assert_eq!(res.need(&event(Task::BuzzerPwm, Payload::Empty)), Need::Nothing);
    assert_eq!(res.need(&event(Task::StopMeasuring, Payload::Empty)), Need::Nothing);
    assert_eq!(res.need(&event(Task::WarmUp, Payload::Empty)), Need::Nothing);
    assert_eq!(res.need(&Event { task: 9, payload: Payload::Empty }), Need::Nothing);
}

#[test]
fn button_needs_a_sample_only_to_finish_a_measurement() {
    let button = event(Task::ButtonEvent, Payload::Empty);
    let mut res = state();
    assert_eq!(res.need(&button), Need::Nothing);
    res.button_event(0);
    assert_eq!(res.need(&button), Need::Nothing);
    res.measuring = false;
    assert_eq!(res.need(&button), Need::Sample);
    res.breathalyzer.off();
    assert_eq!(res.need(&button), Need::Nothing);
}

#[test]
fn sensor_that_is_off_is_not_read() {
    let mut res = state();
    res.breathalyzer.curr_val = 40;
    res.breathalyzer.off();
    let poll = event(Task::SensorPoll, Payload::Empty);
    assert_eq!(res.need(&poll), Need::Nothing);
    assert_eq!(res.run(&poll, &Input::Nothing), vec![Action::Acknowledge(Irq::TimerBreath)]);
    assert_eq!(res.breathalyzer.curr_val, 40);
    assert_eq!(res.run(&poll, &Input::TwoSamples(90, 90)), Vec::<Action>::new());
    res.buzzer.enable();
    let button = event(Task::ButtonEvent, Payload::Empty);
    let actions = res.run(&button, &Input::Nothing);
    assert_eq!(actions.len(), 3);
    assert_eq!(actions[2], Action::Spawn(Task::SendRadioMessage, Payload::Reading(BAC::NONE)));
}

#[test]
fn input_answers_the_need_it_was_read_for() {
    let line = RfEvent { dio: 0 };
    let inputs = [
        Input::Nothing,
        Input::Sample(1),
        Input::TwoSamples(1, 2),
        Input::Report(ClientEvent::Quiet),
    ];
    let needs = [Need::Nothing, Need::Sample, Need::TwoSamples, Need::Report(line)];
    for (i, input) in inputs.iter().enumerate() {
        for (n, need) in needs.iter().enumerate() {
            assert_eq!(input.answers(*need), i == n);
        }
    }
}

#[test]
fn run_is_the_body_of_the_task() {
    let mut by_run = state();
    let mut by_body = state();
    assert_eq!(
        by_run.run(&event(Task::Exti2_3, Payload::Empty), &Input::Nothing),
        by_body.exti2_3()
    );
    assert_eq!(
        by_run.run(&event(Task::Exti4_15, Payload::Empty), &Input::Nothing),
        by_body.exti4_15()
    );
    assert_eq!(
        by_run.run(&event(Task::SensorPoll, Payload::Empty), &Input::TwoSamples(500, 510)),
        by_body.sensor_poll(500, 510)
    );
    assert_eq!(
        by_run.run(&event(Task::ButtonEvent, Payload::Empty), &Input::Nothing),
        by_body.button_event(0)
    );
    assert_eq!(
        by_run.run(&event(Task::BuzzerPwm, Payload::Empty), &Input::Nothing),
        by_body.buzzer_pwm()
    );
    for _ in 0..5 {
        assert_eq!(
            by_run.run(&event(Task::StopMeasuring, Payload::Empty), &Input::Nothing),
            by_body.stop_measuring()
        );
    }
    assert_eq!(
        by_run.run(&event(Task::ButtonEvent, Payload::Empty), &Input::Sample(200)),
        by_body.button_event(200)
    );
    assert_eq!(
        by_run.run(&event(Task::SendRadioMessage, Payload::Reading(BAC::HIGH)), &Input::Nothing),
        by_body.send_radio_message(BAC::HIGH)
    );
    let bytes = Message { id: 6, channel: Channel::One, data: 0 }.serialize().as_slice().to_vec();
    let reported = ClientEvent::Rx(bytes);
    assert_eq!(
        by_run.run(
            &event(Task::RadioEvent, Payload::Radio(RfEvent { dio: 0 })),
            &Input::Report(reported.clone())
        ),
        by_body.radio_event(&reported)
    );
    assert_eq!(
        by_run.run(&event(Task::WarmUp, Payload::Empty), &Input::Nothing),
        by_body.warm_up()
    );
    assert_eq!(by_run, by_body);
    assert_eq!(by_run.breathalyzer.curr_val, 510);
    assert_eq!(by_run.radio, RadioSession::Receiving);
    assert_eq!(by_run.count, 1);
    assert!(!by_run.measuring);
}

#[test]
fn run_without_what_the_task_needs_does_nothing() {
    let mut res = state();
    let before = res;
    let none = Vec::<Action>::new();
    assert_eq!(res.run(&event(Task::ButtonEvent, Payload::Empty), &Input::Sample(1)), none);
    assert_eq!(res.run(&event(Task::ButtonEvent, Payload::Empty), &Input::TwoSamples(1, 2)), none);
    assert_eq!(res.run(&event(Task::SensorPoll, Payload::Empty), &Input::Sample(1)), none);
    assert_eq!(res.run(&event(Task::SensorPoll, Payload::Empty), &Input::Nothing), none);
    assert_eq!(res.run(&event(Task::WarmUp, Payload::Empty), &Input::Sample(1)), none);
    assert_eq!(
        res.run(
            &event(Task::RadioEvent, Payload::Radio(RfEvent { dio: 0 })),
            &Input::Sample(1)
        ),
        none
    );
    assert_eq!(
        res.run(&event(Task::RadioEvent, Payload::Empty), &Input::Report(ClientEvent::TxDone)),
        none
    );
    assert_eq!(res.run(&event(Task::SendRadioMessage, Payload::Empty), &Input::Nothing), none);
    assert_eq!(res.run(&Event { task: 9, payload: Payload::Empty }, &Input::Nothing), none);
    assert_eq!(res, before);
}

#[test]
fn interrupts_drive_the_device_through_a_tone_tick() {
    let mut res = state();
    let mut d = dispatcher();
    res.buzzer.enable();
    d.post(Task::BuzzerPwm.id(), Payload::Empty).unwrap();
    let mut pins = Vec::new();
    while let Some(started) = d.dispatch() {
        assert_eq!(res.need(&started), Need::Nothing);
        let actions = res.run(&started, &Input::Nothing);
        for action in &actions {
            if let Action::BuzzerPin(level) = action {
                pins.push(*level);
            }
        }
        assert_eq!(actions[0], Action::Acknowledge(Irq::TimerPwm));
        assert_eq!(spawn_all(&mut d, &actions), 0);
        d.complete();
    }
    assert_eq!(pins, vec![breathalyzer_firmware::pin::PinLevel::High]);
}
