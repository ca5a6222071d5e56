//! What the sender is told on the command line and in configuration
//! files, how the two are merged, and the rules on what may be sent.

use vstd::prelude::*;
use vstd::string::{is_ascii_spec_bytes, StringExecFns};
use vstd::utf8::is_ascii_chars;
use crate::fields::{all_ascii_digits, is_numeric};

verus! {

/// Server that is used where none is named.
pub const DEFAULT_SERVER: &'static str = "192.168.254.36:3600";

/// Sender address that is used where none is named.
pub const DEFAULT_SOURCE_ADDR: &'static str = "GPP IT";

/// Most characters of a message.
pub const MESSAGE_LIMIT: usize = 140;

/// Most digits of a phone number.
pub const PHONE_NUMBER_LIMIT: usize = 15;

/// Configuration file in the working directory.
pub const LOCAL_CONFIG_PATH: &'static str = "config.yml";

/// The arguments of the command line.
#[derive(Clone, Debug, PartialEq, Eq)]
pub struct Args {
    /// Destination phone number with country code, without `+`.
    pub phone_number: String,
    /// Message content.
    pub message: String,
    /// Address of the SMSC, host and port.
    pub server: Option<String>,
    /// System id for the SMSC.
    pub login: Option<String>,
    /// Password for the SMSC.
    pub password: Option<String>,
    /// Sender address: a number or a text.
    pub source_addr: Option<String>,
    /// Whether coloured output is switched off.
    pub disable_ansii: bool,
}

/// The content of a configuration file.
#[derive(Clone, Debug, PartialEq, Eq)]
pub struct Config {
    pub login: Option<String>,
    pub password: Option<String>,
    pub smsc_host: Option<String>,
    pub source_addr: Option<String>,
}

/// What is sent, to whom and through which server, once the command line
/// and the configuration are merged. Credentials that neither names are
/// left open.
#[derive(Clone, Debug, PartialEq, Eq)]
pub struct Settings {
    pub phone_number: String,
    pub message: String,
    pub server: String,
    pub login: Option<String>,
    pub password: Option<String>,
    pub source_addr: String,
}

/// An input that may not be sent.
#[derive(Clone, Copy, Debug, PartialEq, Eq, Structural)]
pub enum InputError {
    InvalidMessage,
    InvalidPhoneNumber,
}

/// A message is not empty, is ASCII, and has at most 140 characters.
pub open spec fn is_valid_message(message: Seq<char>) -> bool {
    &&& 0 < message.len() <= MESSAGE_LIMIT
    &&& is_ascii_chars(message)
}

/// A phone number is not empty, is made of ASCII digits, and has at most
/// 15 of them.
pub open spec fn is_valid_phone_number(number: Seq<char>) -> bool {
    &&& 0 < number.len() <= PHONE_NUMBER_LIMIT
    &&& all_ascii_digits(number)
}

/// The first of two values that is there.
pub open spec fn first_of<T>(first: Option<T>, second: Option<T>) -> Option<T> {
    if first is Some {
        first
    } else {
        second
    }
}

/// The first configuration of `candidates` that is there.
pub open spec fn first_loaded(candidates: Seq<Option<Config>>) -> Option<Config>
    decreases candidates.len(),
{
    if candidates.len() == 0 {
        None
    } else if candidates[0] is Some {
        candidates[0]
    } else {
        first_loaded(candidates.drop_first())
    }
}

proof fn lemma_first_loaded_push(candidates: Seq<Option<Config>>, last: Option<Config>)
    ensures
        first_loaded(candidates.push(last)) == first_of(first_loaded(candidates), last),
    decreases candidates.len(),
{
    let all = candidates.push(last);
    reveal_with_fuel(first_loaded, 2);
    if candidates.len() == 0 {
        assert(all.drop_first() =~= Seq::<Option<Config>>::empty());
        assert(all[0] == last);
    } else {
        assert(all[0] == candidates[0]);
        assert(all.drop_first() =~= candidates.drop_first().push(last));
        lemma_first_loaded_push(candidates.drop_first(), last);
    }
}

proof fn lemma_nothing_loaded(candidates: Seq<Option<Config>>)
    ensures
        first_loaded(candidates) is None <==> forall|i: int|
            0 <= i < candidates.len() ==> (#[trigger] candidates[i]) is None,
    decreases candidates.len(),
{
    if candidates.len() > 0 {
        let rest = candidates.drop_first();
        lemma_nothing_loaded(rest);
        if first_loaded(candidates) is None {
            assert forall|i: int| 0 <= i < candidates.len() implies (#[trigger] candidates[i])
                is None by {
                if i > 0 {
                    assert(rest[i - 1] is None);
                }
            }
        } else if candidates[0] is None {
            let i = choose|i: int| 0 <= i < rest.len() && !((#[trigger] rest[i]) is None);
            assert(!(candidates[i + 1] is None));
        }
    }
}

impl InputError {
    /// The text that tells a user of this error.
    pub open spec fn text(self) -> Seq<char> {
        match self {
            InputError::InvalidMessage =>
                "Invalid message. Message content length must be <=140 characters. Only ascii characters are allowed."@,
            InputError::InvalidPhoneNumber => "Invalid phone number."@,
        }
    }

    /// Writes the error out for a user.
    pub fn to_string(&self) -> (text: String)
        ensures
            text@ == self.text(),
    {
        match self {
            InputError::InvalidMessage => String::from_str(
                "Invalid message. Message content length must be <=140 characters. Only ascii characters are allowed.",
            ),
            InputError::InvalidPhoneNumber => String::from_str("Invalid phone number."),
        }
    }
}

/// Accepts a message that [`is_valid_message`], and no other.
pub fn validate_message(message: &str) -> (checked: Result<(), InputError>)
    ensures
        checked is Ok <==> is_valid_message(message@),
        checked is Err ==> checked == Err::<(), InputError>(InputError::InvalidMessage),
{
    if !message.is_ascii() {
        return Err(InputError::InvalidMessage);
    }
    proof {
        is_ascii_spec_bytes(message);
    }
    let length = message.as_bytes().len();
    if length == 0 || length > MESSAGE_LIMIT {
        Err(InputError::InvalidMessage)
    } else {
        Ok(())
    }
}

/// Accepts a phone number that [`is_valid_phone_number`], and no other.
pub fn validate_phone_number(number: &str) -> (checked: Result<(), InputError>)
    ensures
        checked is Ok <==> is_valid_phone_number(number@),
        checked is Err ==> checked == Err::<(), InputError>(InputError::InvalidPhoneNumber),
{
    if !is_numeric(number) {
        return Err(InputError::InvalidPhoneNumber);
    }
    assert(is_ascii_chars(number@));
    proof {
        is_ascii_spec_bytes(number);
    }
    let length = number.as_bytes().len();
    if length == 0 || length > PHONE_NUMBER_LIMIT {
        Err(InputError::InvalidPhoneNumber)
    } else {
        Ok(())
    }
}

/// The configuration file of the machine.
pub fn machine_config_path(windows: bool) -> (path: &'static str)
    ensures
        path@ == if windows {
            "C:\\ProgramData\\smscli\\config.yml"@
        } else {
            "/etc/smscli/config.yml"@
        },
{
    if windows {
        "C:\\ProgramData\\smscli\\config.yml"
    } else {
        "/etc/smscli/config.yml"
    }
}

/// The configuration file of the user, from the user's directory for
/// configuration.
pub fn user_config_file(windows: bool) -> (path: &'static str)
    ensures
        path@ == if windows {
            "smscli\\config.yml"@
        } else {
            "smscli/config.yml"@
        },
{
    if windows {
        "smscli\\config.yml"
    } else {
        "smscli/config.yml"
    }
}

/// The files that may hold the configuration, in the order in which they
/// are tried: the working directory's, the user's, the machine's.
pub fn config_paths(user_config_path: String, windows: bool) -> (paths: Vec<String>)
    ensures
        paths@.len() == 3,
        paths@[0]@ == LOCAL_CONFIG_PATH@,
        paths@[1] == user_config_path,
        paths@[2]@ == if windows {
            "C:\\ProgramData\\smscli\\config.yml"@
        } else {
            "/etc/smscli/config.yml"@
        },
{
    let mut paths: Vec<String> = Vec::new();
    paths.push(String::from_str(LOCAL_CONFIG_PATH));
    paths.push(user_config_path);
    paths.push(String::from_str(machine_config_path(windows)));
    paths
}

impl Config {
    /// The file to try next, by its place in the order, when `tried` holds
    /// what the files before it gave: the first that was not tried yet,
    /// and none once a file was read or all `files` were tried.
    pub fn next_to_try(tried: &Vec<Option<Config>>, files: usize) -> (next: Option<usize>)
        ensures
            next == if first_loaded(tried@) is None && tried@.len() < files {
                Some(tried@.len() as usize)
            } else {
                None
            },
    {
        let mut i: usize = 0;
        while i < tried.len()
            invariant
                i <= tried@.len(),
                forall|j: int| 0 <= j < i ==> (#[trigger] tried@[j]) is None,
            decreases tried@.len() - i,
        {
            if tried[i].is_some() {
                proof {
                    lemma_nothing_loaded(tried@);
                }
                return None;
            }
            i += 1;
        }
        proof {
            lemma_nothing_loaded(tried@);
        }
        if tried.len() < files {
            Some(tried.len())
        } else {
            None
        }
    }

    /// Picks the configuration: of the files that were tried, in their
    /// order, the first that was there and could be read.
    pub fn load(candidates: Vec<Option<Config>>) -> (config: Option<Config>)
        ensures
            config == first_loaded(candidates@),
    {
        let mut rest = candidates;
        let mut found: Option<Config> = None;
        while rest.len() > 0
            invariant
                first_loaded(candidates@) == first_of(first_loaded(rest@), found),
            decreases rest.len(),
        {
            let ghost before = rest@;
            let last = rest.pop().unwrap();
            proof {
                assert(before =~= rest@.push(last));
                lemma_first_loaded_push(rest@, last);
            }
            if last.is_some() {
                found = last;
            }
        }
        found
    }
}

impl Settings {
    /// Merges the command line with the configuration. What the command
    /// line names wins; what neither names gets its default, but for the
    /// credentials, which stay open.
    pub fn resolve(args: Args, config: Option<Config>) -> (settings: Settings)
        ensures
            settings.phone_number == args.phone_number,
            settings.message == args.message,
            settings.login == first_of(
                args.login,
                match config {
                    Some(c) => c.login,
                    None => None,
                },
            ),
            settings.password == first_of(
                args.password,
                match config {
                    Some(c) => c.password,
                    None => None,
                },
            ),
            settings.server@ == match first_of(
                args.server,
                match config {
                    Some(c) => c.smsc_host,
                    None => None,
                },
            ) {
                Some(server) => server@,
                None => DEFAULT_SERVER@,
            },
            settings.source_addr@ == match first_of(
                args.source_addr,
                match config {
                    Some(c) => c.source_addr,
                    None => None,
                },
            ) {
                Some(source_addr) => source_addr@,
                None => DEFAULT_SOURCE_ADDR@,
            },
    {
        let (login, password, smsc_host, source_addr) = match config {
            Some(c) => (c.login, c.password, c.smsc_host, c.source_addr),
            None => (None, None, None, None),
        };
        let login = match args.login {
            Some(value) => Some(value),
            None => login,
        };
        let password = match args.password {
            Some(value) => Some(value),
            None => password,
        };
        let server = match args.server {
            Some(value) => value,
            None => match smsc_host {
                Some(value) => value,
                None => String::from_str(DEFAULT_SERVER),
            },
        };
        let source_addr = match args.source_addr {
            Some(value) => value,
            None => match source_addr {
                Some(value) => value,
                None => String::from_str(DEFAULT_SOURCE_ADDR),
            },
        };
        Settings {
            phone_number: args.phone_number,
            message: args.message,
            server,
            login,
            password,
            source_addr,
        }
    }
}

} // verus!
