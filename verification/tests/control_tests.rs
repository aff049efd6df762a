use loudness_meter::config::{Config, InputConfig};
use loudness_meter::control::{
    request_reset, reset_command, reset_outcome, reset_status, ResetError,
    STATUS_INTERNAL_SERVER_ERROR, STATUS_NOT_FOUND, STATUS_OK,
};
use loudness_meter::processor::Command;
use std::sync::mpsc::channel;

fn config_with(names: &[&str]) -> Config {
    let mut config = Config::default();
    for name in names {
        config.inputs.insert(name.to_string(), InputConfig { name: name.to_uppercase(), channels: 2 });
    }
    config
}

#[test]
fn reset_of_unknown_bus_is_not_found_and_sends_nothing() {
    let config = config_with(&["music"]);
    let (sender, receiver) = channel::<Command>();
    assert_eq!(request_reset(&config, &sender, "speech".to_string()), Err(ResetError::NotFound));
    assert!(receiver.try_recv().is_err());
}

#[test]
fn reset_of_known_bus_sends_one_command() {
    let config = config_with(&["music", "speech"]);
    let (sender, receiver) = channel::<Command>();
    assert_eq!(request_reset(&config, &sender, "speech".to_string()), Ok(()));
    match receiver.try_recv() {
        Ok(Command::Reset { input }) => assert_eq!(input, "speech"),
        Err(_) => panic!("no command was sent"),
    }
    assert!(receiver.try_recv().is_err());
}

#[test]
fn reset_without_processor_is_undelivered() {
    let config = config_with(&["music"]);
    let (sender, receiver) = channel::<Command>();
    drop(receiver);
    assert_eq!(request_reset(&config, &sender, "music".to_string()), Err(ResetError::Undelivered));
}

#[test]
fn unknown_bus_is_not_found_even_without_processor() {
    let config = config_with(&["music"]);
    let (sender, receiver) = channel::<Command>();
    drop(receiver);
    assert_eq!(request_reset(&config, &sender, "other".to_string()), Err(ResetError::NotFound));
}

#[test]
fn reset_outcome_table() {
    assert_eq!(reset_outcome(true, true), Ok(()));
    assert_eq!(reset_outcome(true, false), Err(ResetError::Undelivered));
    assert_eq!(reset_outcome(false, true), Err(ResetError::NotFound));
    assert_eq!(reset_outcome(false, false), Err(ResetError::NotFound));
}

#[test]
fn reset_status_codes() {
    assert_eq!(reset_status(Ok(())), 200);
    assert_eq!(reset_status(Err(ResetError::NotFound)), 404);
    assert_eq!(reset_status(Err(ResetError::Undelivered)), 500);
    assert_eq!(STATUS_OK, 200);
    assert_eq!(STATUS_NOT_FOUND, 404);
    assert_eq!(STATUS_INTERNAL_SERVER_ERROR, 500);
}

#[test]
fn reset_command_names_the_bus() {
    match reset_command("music".to_string()) {
        Command::Reset { input } => assert_eq!(input, "music"),
    }
    match reset_command(String::new()) {
        Command::Reset { input } => assert_eq!(input, ""),
    }
}
