use tenzin::command::{
    derived_password_of, expire_arguments_of, password_line_of, ResetAction, ResetExecution,
    ResetPhase,
};
use tenzin::config::{Config, PayloadConfig, ServerConfig, SignConfig, SigningSeed};
use tenzin::error::Failure;
use tenzin::payload::{build_payload, build_payload_at, Request};
use tenzin::server::{
    completion_page, confirmation_page, error_page, get_reset_at, get_reset_handler, post_reset_at,
    post_reset_handler,
};

fn config() -> Config {
    Config {
        sign: SignConfig { key: SigningSeed { bytes: [7; 32] } },
        payload: PayloadConfig { oudate_secounds: 60 },
        server: ServerConfig { domain: "reset.example".to_string(), port: 8080 },
        ..Default::default()
    }
}

#[test]
fn password_is_derived_from_the_identifier() {
    assert_eq!(derived_password_of("201800000000"), "bupt201800000000");
    assert_eq!(derived_password_of(""), "bupt");
    assert_eq!(password_line_of("201800000000"), "201800000000:bupt201800000000\n");
    assert_eq!(expire_arguments_of("201800000000"), vec!["-e".to_string(), "201800000000".to_string()]);
}

#[test]
fn password_is_set_and_then_marked_as_expired() {
    let (execution, action) = ResetExecution::begin("201800000000");
    assert_eq!(execution.phase, ResetPhase::SettingPassword);
    assert_eq!(execution.id, "201800000000");
    match action {
        ResetAction::SetPassword(line) => assert_eq!(line, "201800000000:bupt201800000000\n"),
        _ => panic!("the password is not set first"),
    }
    let (execution, action) = execution.advance(true);
    assert_eq!(execution.phase, ResetPhase::ExpiringPassword);
    match action {
        ResetAction::ExpirePassword(arguments) => {
            assert_eq!(arguments, vec!["-e".to_string(), "201800000000".to_string()])
        }
        _ => panic!("the password is not marked as expired"),
    }
    let (execution, action) = execution.advance(true);
    assert_eq!(execution.phase, ResetPhase::Done);
    assert!(matches!(action, ResetAction::Finish));
    let (execution, action) = execution.advance(false);
    assert_eq!(execution.phase, ResetPhase::Done);
    assert!(matches!(action, ResetAction::Finish));
}

#[test]
fn password_that_could_not_be_set_is_not_marked() {
    let (execution, _) = ResetExecution::begin("201800000000");
    let (execution, action) = execution.advance(false);
    assert_eq!(execution.phase, ResetPhase::Failed);
    assert!(matches!(action, ResetAction::Fail(Failure::OSResetError)));
    let (execution, action) = execution.advance(true);
    assert_eq!(execution.phase, ResetPhase::Failed);
    assert!(matches!(action, ResetAction::Fail(Failure::OSResetError)));
}

#[test]
fn failed_marking_fails_the_reset() {
    let (execution, _) = ResetExecution::begin("201800000000");
    let (execution, _) = execution.advance(true);
    let (execution, action) = execution.advance(false);
    assert_eq!(execution.phase, ResetPhase::Failed);
    assert_eq!(execution.id, "201800000000");
    assert!(matches!(action, ResetAction::Fail(Failure::OSResetError)));
}

#[test]
fn pages_show_identifier_password_and_link() {
    let request = Request { id: "2021000001".to_string(), timestamp: 0 };
    let page = confirmation_page(&config().server, "TOKEN", &request);
    assert_eq!(page.id, "2021000001");
    assert_eq!(page.password, "bupt2021000001");
    assert_eq!(page.link, "http://reset.example:8080/reset/TOKEN");
    let page = completion_page("2021000001");
    assert_eq!(page.id, "2021000001");
    assert_eq!(page.password, "bupt2021000001");
}

#[test]
fn error_page_names_the_reason() {
    assert_eq!(
        error_page(Failure::ExpiredToken),
        "Invalid payload: payload is outdated, contact name1e5s@bupt.edu.cn for more info."
    );
    assert_eq!(
        error_page(Failure::OSResetError),
        "Invalid payload: password could not be reset, contact name1e5s@bupt.edu.cn for more info."
    );
}

#[test]
fn confirmation_page_is_shown_for_an_accepted_token() {
    let config = config();
    let token = build_payload_at(&config.sign.key, "2021000001", 100);
    let page = get_reset_at(&config, &token, 160).ok().unwrap();
    assert_eq!(page.id, "2021000001");
    assert_eq!(page.password, "bupt2021000001");
    assert_eq!(page.link, format!("http://reset.example:8080/reset/{}", token));
    assert_eq!(get_reset_at(&config, &token, 161).err(), Some(Failure::ExpiredToken));
    assert_eq!(get_reset_at(&config, "junk", 161).err(), Some(Failure::MalformedToken));
    let forged = build_payload_at(&SigningSeed { bytes: [8; 32] }, "2021000001", 100);
    assert_eq!(get_reset_at(&config, &forged, 100).err(), Some(Failure::TamperedToken));
}

#[test]
fn reset_begins_for_an_accepted_token_only() {
    let config = config();
    let token = build_payload_at(&config.sign.key, "2021000001", 100);
    let (execution, action) = post_reset_at(&config, &token, 100).ok().unwrap();
    assert_eq!(execution.id, "2021000001");
    assert_eq!(execution.phase, ResetPhase::SettingPassword);
    assert!(matches!(&action, ResetAction::SetPassword(line) if line == "2021000001:bupt2021000001\n"));
    // The token is not used up: the form can be sent again.
    assert!(post_reset_at(&config, &token, 100).is_ok());
    assert_eq!(post_reset_at(&config, &token, 200).err(), Some(Failure::ExpiredToken));
    assert_eq!(post_reset_at(&config, "", 100).err(), Some(Failure::MalformedToken));
    let forged = build_payload_at(&SigningSeed { bytes: [8; 32] }, "root", 100);
    assert_eq!(post_reset_at(&config, &forged, 100).err(), Some(Failure::TamperedToken));
}

#[test]
fn handlers_read_the_clock() {
    let config = config();
    let token = build_payload(&config, "2021000001");
    let page = get_reset_handler(&config, &token).ok().unwrap();
    assert_eq!(page.id, "2021000001");
    let (execution, _) = post_reset_handler(&config, &token).ok().unwrap();
    assert_eq!(execution.id, "2021000001");
    let old = build_payload_at(&config.sign.key, "2021000001", 0);
    assert_eq!(get_reset_handler(&config, &old).err(), Some(Failure::ExpiredToken));
    assert_eq!(post_reset_handler(&config, &old).err(), Some(Failure::ExpiredToken));
}
