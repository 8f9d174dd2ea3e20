//! What the exporter is configured with: the password of each device and the
//! verbosity of the log.

use vstd::prelude::*;
use config::Config;
use crate::discovery::InverterAddress;

verus! {

/// A loaded configuration, as `config::Config` holds it. Nothing of its inside
/// is visible here.
#[verifier::external_type_specification]
#[verifier::external_body]
pub struct ExConfig(config::Config);

/// The texts that a loaded configuration yields, by key: a key is in the map
/// exactly when the configuration resolves it to a text.
pub uninterp spec fn spec_settings(settings: Config) -> Map<Seq<u8>, Seq<u8>>;

/// The verbosity that applies where none is given.
pub const DEFAULT_VERBOSITY: u8 = 2;

/// How much is logged.
#[derive(Clone, Copy, Debug, PartialEq, Eq, Structural)]
pub enum LogLevel {
    Error,
    Warn,
    Info,
    Debug,
    Trace,
}

impl LogLevel {
    /// The place of the level in the order from `Error`, at zero, to `Trace`.
    pub open spec fn spec_rank(self) -> u8 {
        match self {
            LogLevel::Error => 0,
            LogLevel::Warn => 1,
            LogLevel::Info => 2,
            LogLevel::Debug => 3,
            LogLevel::Trace => 4,
        }
    }

    /// The place of the level in the order from `Error`, at zero, to `Trace`.
    pub fn rank(&self) -> (rank: u8)
        ensures
            rank == self.spec_rank(),
            rank <= 4,
    {
        match self {
            LogLevel::Error => 0,
            LogLevel::Warn => 1,
            LogLevel::Info => 2,
            LogLevel::Debug => 3,
            LogLevel::Trace => 4,
        }
    }

    /// Tells whether a message of level `message` is written when the log is
    /// set to this level: it is, unless it ranks above this level.
    pub fn admits(&self, message: LogLevel) -> (written: bool)
        ensures
            written == (message.spec_rank() <= self.spec_rank()),
    {
        message.rank() <= self.rank()
    }
}

/// The log level that a verbosity selects: 0 to 4 select the five levels in
/// order, and anything above selects the last.
pub open spec fn spec_log_level(verbosity: u8) -> LogLevel {
    if verbosity == 0 {
        LogLevel::Error
    } else if verbosity == 1 {
        LogLevel::Warn
    } else if verbosity == 2 {
        LogLevel::Info
    } else if verbosity == 3 {
        LogLevel::Debug
    } else {
        LogLevel::Trace
    }
}

/// The password that applies where none is configured: `0000`.
pub open spec fn spec_default_password() -> Seq<u8> {
    seq![0x30u8, 0x30u8, 0x30u8, 0x30u8]
}

/// The suffix of a device's password key: `.password`.
pub open spec fn spec_key_suffix() -> Seq<u8> {
    seq![0x2Eu8, 0x70u8, 0x61u8, 0x73u8, 0x73u8, 0x77u8, 0x6Fu8, 0x72u8, 0x64u8]
}

/// The ASCII digit of a value under ten.
pub open spec fn spec_digit(n: int) -> u8 {
    (0x30 + n) as u8
}

/// An octet in decimal, without leading zeros.
pub open spec fn spec_decimal(n: u8) -> Seq<u8> {
    if n >= 100 {
        seq![spec_digit(n as int / 100), spec_digit(n as int / 10 % 10), spec_digit(n as int % 10)]
    } else if n >= 10 {
        seq![spec_digit(n as int / 10), spec_digit(n as int % 10)]
    } else {
        seq![spec_digit(n as int)]
    }
}

/// An IPv4 address in dotted decimal.
pub open spec fn spec_dotted(address: InverterAddress) -> Seq<u8> {
    spec_decimal(address.a) + seq![0x2Eu8] + spec_decimal(address.b) + seq![0x2Eu8] + spec_decimal(
        address.c,
    ) + seq![0x2Eu8] + spec_decimal(address.d)
}

/// The key under which a device's password is configured: the address in
/// dotted decimal, then `.password`.
pub open spec fn spec_password_key(address: InverterAddress) -> Seq<u8> {
    spec_dotted(address) + spec_key_suffix()
}

/// Selects the log level for a verbosity.
pub fn log_level(verbosity: u8) -> (level: LogLevel)
    ensures
        level == spec_log_level(verbosity),
        verbosity <= 4 ==> level.spec_rank() == verbosity,
{
    if verbosity == 0 {
        LogLevel::Error
    } else if verbosity == 1 {
        LogLevel::Warn
    } else if verbosity == 2 {
        LogLevel::Info
    } else if verbosity == 3 {
        LogLevel::Debug
    } else {
        LogLevel::Trace
    }
}

fn push_decimal(out: &mut Vec<u8>, n: u8)
    ensures
        final(out)@ == old(out)@ + spec_decimal(n),
{
    if n >= 100 {
        out.push(0x30 + n / 100);
        out.push(0x30 + n / 10 % 10);
        out.push(0x30 + n % 10);
    } else if n >= 10 {
        out.push(0x30 + n / 10);
        out.push(0x30 + n % 10);
    } else {
        out.push(0x30 + n);
    }
    assert(out@ =~= old(out)@ + spec_decimal(n));
}

/// Writes an IPv4 address in dotted decimal, as ASCII.
pub fn dotted(address: InverterAddress) -> (text: Vec<u8>)
    ensures
        text@ == spec_dotted(address),
{
    let mut text: Vec<u8> = Vec::new();
    push_decimal(&mut text, address.a);
    text.push(0x2E);
    push_decimal(&mut text, address.b);
    text.push(0x2E);
    push_decimal(&mut text, address.c);
    text.push(0x2E);
    push_decimal(&mut text, address.d);
    assert(text@ =~= spec_dotted(address));
    text
}

/// Builds the key under which a device's password is configured, as ASCII.
pub fn password_key(address: InverterAddress) -> (key: Vec<u8>)
    ensures
        key@ == spec_password_key(address),
{
    let mut key: Vec<u8> = dotted(address);
    key.push(0x2E);
    key.push(0x70);
    key.push(0x61);
    key.push(0x73);
    key.push(0x73);
    key.push(0x77);
    key.push(0x6F);
    key.push(0x72);
    key.push(0x64);
    assert(key@ =~= spec_password_key(address));
    key
}

/// The password of the device at `address` under the settings `entries`:
/// what stands under the device's key, or `0000` where nothing does.
pub open spec fn spec_configured_password(
    entries: Map<Seq<u8>, Seq<u8>>,
    address: InverterAddress,
) -> Seq<u8> {
    if entries.contains_key(spec_password_key(address)) {
        entries[spec_password_key(address)]
    } else {
        spec_default_password()
    }
}

/// Whether a key holds no opening bracket, so that it names no element of an
/// array.
pub open spec fn spec_plain_key(key: Seq<u8>) -> bool {
    forall|i: int| 0 <= i < key.len() ==> key[i] != 0x5B
}

/// Calls `config::Config::get_string` with the key, read as UTF-8, and hands
/// back the bytes of the text that it finds. Not proved: that the call
/// depends on nothing but the configuration and the key, so that its result
/// is the entry of [`spec_settings`] under the key, and `None` where the call
/// fails, be it that the key is missing or that its value is no text. A key
/// with a bracket is kept out: a subscript below the start of an array makes
/// the outside lookup overflow.
#[verifier::external_body]
fn setting(settings: &Config, key: &Vec<u8>) -> (value: Option<Vec<u8>>)
    requires
        spec_plain_key(key@),
    ensures
        value.is_some() == spec_settings(*settings).contains_key(key@),
        value.is_some() ==> value.unwrap()@ == spec_settings(*settings)[key@],
{
    settings.get_string(&String::from_utf8_lossy(key)).ok().map(String::into_bytes)
}

/// The key of a device's password holds digits, dots and letters only, and
/// so no bracket.
pub proof fn lemma_password_key_is_plain(address: InverterAddress)
    ensures
        spec_plain_key(spec_password_key(address)),
{
    let dot = seq![0x2Eu8];
    assert(spec_plain_key(spec_decimal(address.a)));
    assert(spec_plain_key(spec_decimal(address.b)));
    assert(spec_plain_key(spec_decimal(address.c)));
    assert(spec_plain_key(spec_decimal(address.d)));
    assert(spec_plain_key(dot));
    assert(spec_plain_key(spec_key_suffix()));
    let ab = spec_decimal(address.a) + dot + spec_decimal(address.b);
    let abc = ab + dot + spec_decimal(address.c);
    let abcd = abc + dot + spec_decimal(address.d);
    assert(spec_plain_key(ab));
    assert(spec_plain_key(abc));
    assert(spec_plain_key(abcd));
    assert(abcd == spec_dotted(address));
}

/// Finds the password to log in to the device at `address` with: the one that
/// the configuration holds under the device's key, or `0000`.
pub fn configured_password(settings: &Config, address: InverterAddress) -> (password: Vec<u8>)
    ensures
        password@ == spec_configured_password(spec_settings(*settings), address),
{
    let key = password_key(address);
    proof {
        lemma_password_key_is_plain(address);
    }
    password_or_default(setting(settings, &key))
}

/// The password to log in with: the configured one, or `0000` where none is
/// configured.
pub fn password_or_default(configured: Option<Vec<u8>>) -> (password: Vec<u8>)
    ensures
        password@ == match configured {
            Some(p) => p@,
            None => spec_default_password(),
        },
{
    match configured {
        Some(p) => p,
        None => {
            let mut password: Vec<u8> = Vec::new();
            password.push(0x30);
            password.push(0x30);
            password.push(0x30);
            password.push(0x30);
            assert(password@ =~= spec_default_password());
            password
        },
    }
}

} // verus!
