use smscli::command::{Command, CommandStatus, Field, Npi, Pdu, Ton};
use smscli::config::{
    config_paths, machine_config_path, user_config_file, validate_message, validate_phone_number,
    Args, Config, InputError, Settings,
};
use smscli::delivery::Phase;
use smscli::smppclient::SmppClientError;
use smscli::fields::{fits_c_octet_string, is_numeric};

fn args() -> Args {
    Args {
        phone_number: "48601222333".to_string(),
        message: "Hello".to_string(),
        server: None,
        login: None,
        password: None,
        source_addr: None,
        disable_ansii: false,
    }
}

fn config(tag: &str) -> Config {
    Config {
        login: Some(format!("{}-login", tag)),
        password: Some(format!("{}-password", tag)),
        smsc_host: Some(format!("{}-host:2775", tag)),
        source_addr: Some(format!("{}-sender", tag)),
    }
}

#[test]
fn c_octet_string_limits() {
    assert!(fits_c_octet_string("", 1));
    assert!(!fits_c_octet_string("", 0));
    assert!(fits_c_octet_string("abc", 4));
    assert!(!fits_c_octet_string("abc", 3));
    assert!(fits_c_octet_string("fifteen_chars__", 16));
    assert!(!fits_c_octet_string("sixteen_chars_id", 16));
    assert!(!fits_c_octet_string("a\0b", 16));
    assert!(!fits_c_octet_string("\0", 16));
    assert!(!fits_c_octet_string("\u{80}", 16));
    assert!(!fits_c_octet_string("gr\u{fc}n", 16));
    assert!(fits_c_octet_string("\u{7f}\u{1} ~", 16));
}

#[test]
fn numeric_means_ascii_digits_only() {
    assert!(is_numeric("12345"));
    assert!(is_numeric("0"));
    assert!(is_numeric(""));
    assert!(!is_numeric("MYCOMPANY"));
    assert!(!is_numeric("123a"));
    assert!(!is_numeric("+48601222333"));
    assert!(!is_numeric("12 34"));
    assert!(!is_numeric("/"));
    assert!(!is_numeric(":"));
    assert!(!is_numeric("\u{661}\u{662}"));
}

#[test]
fn sender_type_of_number() {
    match Command::submit_sm("15551234567", "Hello", "12345").body {
        Pdu::SubmitSm(submit) => assert_eq!(submit.source_addr_ton, Ton::Unknown),
        _ => panic!("not a submit"),
    }
    match Command::submit_sm("15551234567", "Hello", "MYCOMPANY").body {
        Pdu::SubmitSm(submit) => {
            assert_eq!(submit.source_addr_ton, Ton::Alphanumeric);
            assert_eq!(submit.source_addr_npi, Npi::Unknown);
            assert_eq!(submit.dest_addr_ton, Ton::International);
            assert_eq!(submit.dest_addr_npi, Npi::Isdn);
            assert_eq!(submit.destination_addr, "15551234567");
            assert_eq!(submit.short_message, "Hello");
            assert_eq!(submit.source_addr, "MYCOMPANY");
        }
        _ => panic!("not a submit"),
    }
}

#[test]
fn requests_of_a_session() {
    let bind = Command::bind_transceiver("testuser", "testpass");
    assert_eq!(bind.sequence_number, 1);
    assert_eq!(bind.status, CommandStatus { code: 0 });
    assert!(bind.status.is_ok());
    match &bind.body {
        Pdu::BindTransceiver(body) => {
            assert_eq!(body.system_id, "testuser");
            assert_eq!(body.password, "testpass");
            assert_eq!(body.system_type, "");
            assert_eq!(body.interface_version, 0x34);
            assert_eq!(body.addr_ton, Ton::Unknown);
            assert_eq!(body.addr_npi, Npi::Unknown);
            assert_eq!(body.address_range, "");
        }
        _ => panic!("not a bind"),
    }
    assert_eq!(bind.first_invalid_field(), None);
    assert_eq!(Command::submit_sm("1", "x", "y").sequence_number, 2);
    let unbind = Command::unbind();
    assert_eq!(unbind.sequence_number, 3);
    assert_eq!(unbind.body, Pdu::Unbind);
    assert_eq!(unbind.first_invalid_field(), None);
    assert_eq!(
        Command::bind_transceiver("testuser", "a password").first_invalid_field(),
        Some(Field::Password)
    );
    assert_eq!(
        Command::submit_sm("15551234567", "", "a sender that is too long").first_invalid_field(),
        Some(Field::SourceAddr)
    );
    assert!(!CommandStatus { code: 1 }.is_ok());
    assert_eq!(CommandStatus::ok(), CommandStatus { code: 0 });
}

#[test]
fn wire_codes() {
    assert_eq!(Ton::Unknown.code(), 0);
    assert_eq!(Ton::International.code(), 1);
    assert_eq!(Ton::Alphanumeric.code(), 5);
    assert_eq!(Npi::Unknown.code(), 0);
    assert_eq!(Npi::Isdn.code(), 1);
    assert_eq!(Field::SystemId.name(), "system_id");
    assert_eq!(Field::DestinationAddr.name(), "destination_addr");
}

#[test]
fn message_rules() {
    assert_eq!(validate_message("Hello"), Ok(()));
    assert_eq!(validate_message(""), Err(InputError::InvalidMessage));
    assert_eq!(validate_message(&"x".repeat(140)), Ok(()));
    assert_eq!(validate_message(&"x".repeat(141)), Err(InputError::InvalidMessage));
    assert_eq!(validate_message("za\u{17c}\u{f3}\u{142}\u{107}"), Err(InputError::InvalidMessage));
    assert_eq!(validate_message("a\0b"), Ok(()));
}

#[test]
fn phone_number_rules() {
    assert_eq!(validate_phone_number("15551234567"), Ok(()));
    assert_eq!(validate_phone_number(""), Err(InputError::InvalidPhoneNumber));
    assert_eq!(validate_phone_number("123456789012345"), Ok(()));
    assert_eq!(validate_phone_number("1234567890123456"), Err(InputError::InvalidPhoneNumber));
    assert_eq!(validate_phone_number("99999999999999999"), Err(InputError::InvalidPhoneNumber));
    assert_eq!(validate_phone_number("+48601222333"), Err(InputError::InvalidPhoneNumber));
    assert_eq!(validate_phone_number("4860122233a"), Err(InputError::InvalidPhoneNumber));
}

#[test]
fn input_errors_are_written_out() {
    assert_eq!(
        InputError::InvalidMessage.to_string(),
        "Invalid message. Message content length must be <=140 characters. Only ascii characters are allowed."
    );
    assert_eq!(InputError::InvalidPhoneNumber.to_string(), "Invalid phone number.");
}

#[test]
fn settings_fall_back_to_defaults() {
    let settings = Settings::resolve(args(), None);
    assert_eq!(settings.phone_number, "48601222333");
    assert_eq!(settings.message, "Hello");
    assert_eq!(settings.server, "192.168.254.36:3600");
    assert_eq!(settings.source_addr, "GPP IT");
    assert_eq!(settings.login, None);
    assert_eq!(settings.password, None);
    let empty = Config { login: None, password: None, smsc_host: None, source_addr: None };
    assert_eq!(Settings::resolve(args(), Some(empty)), settings);
}

#[test]
fn settings_take_the_configuration() {
    let settings = Settings::resolve(args(), Some(config("file")));
    assert_eq!(settings.server, "file-host:2775");
    assert_eq!(settings.source_addr, "file-sender");
    assert_eq!(settings.login, Some("file-login".to_string()));
    assert_eq!(settings.password, Some("file-password".to_string()));
}

#[test]
fn settings_prefer_the_command_line() {
    let mut given = args();
    given.server = Some("cli-host:1".to_string());
    given.password = Some("cli-password".to_string());
    let settings = Settings::resolve(given, Some(config("file")));
    assert_eq!(settings.server, "cli-host:1");
    assert_eq!(settings.password, Some("cli-password".to_string()));
    assert_eq!(settings.login, Some("file-login".to_string()));
    assert_eq!(settings.source_addr, "file-sender");
    let mut given = args();
    given.login = Some("cli-login".to_string());
    given.source_addr = Some("444".to_string());
    let settings = Settings::resolve(given, None);
    assert_eq!(settings.login, Some("cli-login".to_string()));
    assert_eq!(settings.source_addr, "444");
    assert_eq!(settings.server, "192.168.254.36:3600");
}

#[test]
fn first_configuration_that_loaded_is_picked() {
    assert_eq!(Config::load(vec![]), None);
    assert_eq!(Config::load(vec![None, None, None]), None);
    assert_eq!(Config::load(vec![None, Some(config("user")), None]), Some(config("user")));
    assert_eq!(
        Config::load(vec![Some(config("local")), Some(config("user")), Some(config("machine"))]),
        Some(config("local"))
    );
    assert_eq!(
        Config::load(vec![None, Some(config("user")), Some(config("machine"))]),
        Some(config("user"))
    );
    assert_eq!(Config::load(vec![None, None, Some(config("machine"))]), Some(config("machine")));
}

#[test]
fn configuration_files_in_order() {
    assert_eq!(machine_config_path(false), "/etc/smscli/config.yml");
    assert_eq!(machine_config_path(true), "C:\\ProgramData\\smscli\\config.yml");
    assert_eq!(user_config_file(false), "smscli/config.yml");
    assert_eq!(user_config_file(true), "smscli\\config.yml");
    assert_eq!(
        config_paths("/home/me/.config/smscli/config.yml".to_string(), false),
        vec!["config.yml", "/home/me/.config/smscli/config.yml", "/etc/smscli/config.yml"]
    );
    assert_eq!(
        config_paths("C:\\Users\\me\\smscli\\config.yml".to_string(), true)[2],
        "C:\\ProgramData\\smscli\\config.yml"
    );
}

#[test]
fn phases_follow_each_other() {
    assert_eq!(Phase::Connect.next(), Some(Phase::Bind));
    assert_eq!(Phase::Bind.next(), Some(Phase::Submit));
    assert_eq!(Phase::Submit.next(), Some(Phase::Unbind));
    assert_eq!(Phase::Unbind.next(), None);
}

#[test]
fn nothing_follows_a_failed_step() {
    assert_eq!(Phase::Connect.follow(Ok(())), Some(Phase::Bind));
    assert_eq!(Phase::Bind.follow(Ok(())), Some(Phase::Submit));
    assert_eq!(Phase::Submit.follow(Ok(())), Some(Phase::Unbind));
    assert_eq!(Phase::Unbind.follow(Ok(())), None);
    let refused = SmppClientError::BindFailed(CommandStatus { code: 0x0E });
    assert_eq!(Phase::Bind.follow(Err(refused)), None);
    assert_eq!(Phase::Submit.follow(Err(SmppClientError::Timeout)), None);
    assert_eq!(Phase::Submit.follow(Err(SmppClientError::NotConnected)), None);
    assert_eq!(Phase::Unbind.follow(Err(SmppClientError::UnbindFailed)), None);
    assert_eq!(Phase::Connect.follow(Err(SmppClientError::TransportError)), None);
}

#[test]
fn reports_name_the_phase_and_the_status() {
    assert_eq!(
        Phase::Bind.report_failure(SmppClientError::BindFailed(CommandStatus { code: 0x0E })),
        "Failed to bind. Details: BindFailed(EsmeRinvpaswd)"
    );
    assert_eq!(
        Phase::Bind.report_failure(SmppClientError::BindFailed(CommandStatus { code: 0x0D })),
        "Failed to bind. Details: BindFailed(EsmeRbindfail)"
    );
    assert_eq!(
        Phase::Submit.report_failure(SmppClientError::SubmitFailed(CommandStatus { code: 0x0B })),
        "Sending submit_sm failed. Details: SubmitFailed(EsmeRinvdstadr)"
    );
    assert_eq!(
        Phase::Submit.report_failure(SmppClientError::NotConnected),
        "Sending submit_sm failed. Details: NotConnected"
    );
    assert_eq!(
        Phase::Bind.report_failure(SmppClientError::AlreadyConnected),
        "Failed to bind. Details: AlreadyConnected"
    );
    assert_eq!(Phase::Bind.report_failure(SmppClientError::Timeout), "Failed to bind. Details: Timeout");
    assert_eq!(Phase::Unbind.report_failure(SmppClientError::UnbindFailed), "UnbindFailed");
    assert_eq!(Phase::Unbind.report_failure(SmppClientError::Timeout), "Timeout");
}

#[test]
fn files_are_tried_until_one_is_read() {
    assert_eq!(Config::next_to_try(&vec![], 3), Some(0));
    assert_eq!(Config::next_to_try(&vec![None], 3), Some(1));
    assert_eq!(Config::next_to_try(&vec![None, None], 3), Some(2));
    assert_eq!(Config::next_to_try(&vec![None, None, None], 3), None);
    assert_eq!(Config::next_to_try(&vec![Some(config("local"))], 3), None);
    assert_eq!(Config::next_to_try(&vec![None, Some(config("user"))], 3), None);
    assert_eq!(Config::next_to_try(&vec![Some(config("local")), None], 3), None);
    assert_eq!(Config::next_to_try(&vec![], 0), None);
    let mut tried = Vec::new();
    let files = [None, Some(config("user")), Some(config("machine"))];
    let mut reads = 0;
    while let Some(index) = Config::next_to_try(&tried, files.len()) {
        tried.push(files[index].clone());
        reads += 1;
    }
    assert_eq!(reads, 2);
    assert_eq!(Config::load(tried), Some(config("user")));
}

#[test]
fn failures_name_their_phase() {
    assert_eq!(
        Phase::Connect.failure("refused"),
        "Failed to connect to server. Details: refused"
    );
    assert_eq!(Phase::Bind.failure("Already connected"), "Failed to bind. Details: Already connected");
    assert_eq!(
        Phase::Submit.failure("Not connected"),
        "Sending submit_sm failed. Details: Not connected"
    );
    assert_eq!(
        Phase::Unbind.failure("Unbind failed, but nobody cares."),
        "Unbind failed, but nobody cares."
    );
}
