//! Settings of the proxy and of the service around it.

use vstd::prelude::*;
use vstd::string::StringExecFns;
use vstd::string::StringSliceAdditionalSpecFns;
use crate::text::{ascii_bytes, ascii_of, bytes_equal, bytes_equal_ignoring_case, same_ignoring_case};

verus! {

/// How the proxy reaches the upstream: the socket, the two timeouts, and
/// the retry budget of the dial. Durations are in milliseconds.
#[derive(Debug, Clone)]
pub struct WolfProxyConfig {
    pub socket_path: String,
    pub connect_timeout_ms: u64,
    pub read_timeout_ms: u64,
    pub retry_attempts: u32,
    pub retry_delay_ms: u64,
}

/// What can be wrong with the proxy's settings.
#[derive(Clone, Copy, Debug, PartialEq, Eq, Structural)]
pub enum ConfigFault {
    EmptySocketPath,
    ZeroConnectTimeout,
    ZeroReadTimeout,
    NoAttempts,
}

impl WolfProxyConfig {
    /// Settings that the proxy can work with: a socket path, timeouts that
    /// are strictly positive, and at least one dial attempt.
    pub open spec fn well_formed(&self) -> bool {
        &&& self.socket_path@.len() > 0
        &&& self.connect_timeout_ms > 0
        &&& self.read_timeout_ms > 0
        &&& self.retry_attempts >= 1
    }

    /// The first thing that is wrong with the settings, if anything is.
    pub open spec fn first_fault(&self) -> Option<ConfigFault> {
        if self.socket_path@.len() == 0 {
            Some(ConfigFault::EmptySocketPath)
        } else if self.connect_timeout_ms == 0 {
            Some(ConfigFault::ZeroConnectTimeout)
        } else if self.read_timeout_ms == 0 {
            Some(ConfigFault::ZeroReadTimeout)
        } else if self.retry_attempts == 0 {
            Some(ConfigFault::NoAttempts)
        } else {
            None
        }
    }

    /// Settings with the given socket and timeouts, three dial attempts and
    /// a retry delay of half a second.
    pub fn new(socket_path: String, connect_timeout_ms: u64, read_timeout_ms: u64) -> (cfg: Self)
        ensures
            cfg.socket_path@ == socket_path@,
            cfg.connect_timeout_ms == connect_timeout_ms,
            cfg.read_timeout_ms == read_timeout_ms,
            cfg.retry_attempts == 3,
            cfg.retry_delay_ms == 500,
    {
        WolfProxyConfig {
            socket_path,
            connect_timeout_ms,
            read_timeout_ms,
            retry_attempts: 3,
            retry_delay_ms: 500,
        }
    }

    /// The same settings with another retry budget.
    pub fn with_retry(self, attempts: u32, delay_ms: u64) -> (cfg: Self)
        ensures
            cfg.socket_path@ == self.socket_path@,
            cfg.connect_timeout_ms == self.connect_timeout_ms,
            cfg.read_timeout_ms == self.read_timeout_ms,
            cfg.retry_attempts == attempts,
            cfg.retry_delay_ms == delay_ms,
    {
        let mut cfg = self;
        cfg.retry_attempts = attempts;
        cfg.retry_delay_ms = delay_ms;
        cfg
    }

    /// Checks the settings, as the service does before it starts.
    pub fn check(&self) -> (r: Result<(), ConfigFault>)
        ensures
            r.is_ok() <==> self.well_formed(),
            r.is_err() <==> self.first_fault().is_some(),
            r.is_err() ==> Some(r.unwrap_err()) == self.first_fault(),
    {
        if self.socket_path.as_str().is_empty() {
            Err(ConfigFault::EmptySocketPath)
        } else if self.connect_timeout_ms == 0 {
            Err(ConfigFault::ZeroConnectTimeout)
        } else if self.read_timeout_ms == 0 {
            Err(ConfigFault::ZeroReadTimeout)
        } else if self.retry_attempts == 0 {
            Err(ConfigFault::NoAttempts)
        } else {
            Ok(())
        }
    }
}

/// The settings of the whole service.
#[derive(Debug, Clone)]
pub struct Config {
    pub bind_addr: String,
    pub db_url: String,
    pub wolf_sock_path: String,
    pub docker_sock_path: String,
    pub wolf_proxy_connect_timeout_ms: u64,
    pub wolf_proxy_read_timeout_ms: u64,
    pub wolf_proxy_retry_attempts: u32,
    pub wolf_proxy_retry_delay_ms: u64,
    pub public_url: Option<String>,
    pub allow_private_origins: bool,
}

impl Default for Config {
    fn default() -> (cfg: Self)
        ensures
            cfg.bind_addr@ == "0.0.0.0:8080"@,
            cfg.db_url@ == "sqlite://wm.db"@,
            cfg.wolf_sock_path@ == "/var/run/wolf/wolf.sock"@,
            cfg.docker_sock_path@ == "/var/run/docker.sock"@,
            cfg.wolf_proxy_connect_timeout_ms == 2000,
            cfg.wolf_proxy_read_timeout_ms == 10000,
            cfg.wolf_proxy_retry_attempts == 3,
            cfg.wolf_proxy_retry_delay_ms == 500,
            cfg.public_url.is_none(),
            !cfg.allow_private_origins,
    {
        Config {
            bind_addr: String::from_str("0.0.0.0:8080"),
            db_url: String::from_str("sqlite://wm.db"),
            wolf_sock_path: String::from_str("/var/run/wolf/wolf.sock"),
            docker_sock_path: String::from_str("/var/run/docker.sock"),
            wolf_proxy_connect_timeout_ms: 2000,
            wolf_proxy_read_timeout_ms: 10000,
            wolf_proxy_retry_attempts: 3,
            wolf_proxy_retry_delay_ms: 500,
            public_url: None,
            allow_private_origins: false,
        }
    }
}

/// What the environment holds for each setting that it can override;
/// `None` where a variable is not set.
#[derive(Debug, Clone, Default)]
pub struct Overrides {
    pub bind_addr: Option<String>,
    pub db_url: Option<String>,
    pub wolf_sock_path: Option<String>,
    pub docker_sock_path: Option<String>,
    pub connect_timeout_ms: Option<String>,
    pub read_timeout_ms: Option<String>,
    pub retry_attempts: Option<String>,
    pub retry_delay_ms: Option<String>,
    pub public_url: Option<String>,
    pub allow_private_origins: Option<String>,
}

/// Whether every byte of a text is a decimal digit.
pub open spec fn all_digits(s: Seq<u8>) -> bool {
    forall|i: int| 0 <= i < s.len() ==> 0x30 <= #[trigger] s[i] <= 0x39
}

/// The number that a row of decimal digits writes.
pub open spec fn digits_value(s: Seq<u8>) -> int
    decreases s.len(),
{
    if s.len() == 0 {
        0
    } else {
        digits_value(s.drop_last()) * 10 + (s.last() - 0x30)
    }
}

/// The digits of a number text: the text without a plus sign in front.
pub open spec fn digits_of(s: Seq<u8>) -> Seq<u8> {
    if s.len() > 0 && s[0] == 0x2b {
        s.subrange(1, s.len() as int)
    } else {
        s
    }
}

/// The number that a text writes, where it is at most `max`: decimal
/// digits, at least one, with or without a plus sign in front, and nothing
/// else.
pub open spec fn number_of_text(s: Seq<u8>, max: int) -> Option<int> {
    let digits = digits_of(s);
    if digits.len() > 0 && all_digits(digits) && digits_value(digits) <= max {
        Some(digits_value(digits))
    } else {
        None
    }
}

/// The number that a text writes as a `u64`, or `None` where it writes
/// none or one that is too large.
pub open spec fn parsed_u64(text: Seq<char>) -> Option<u64> {
    match number_of_text(vstd::utf8::encode_utf8(text), u64::MAX as int) {
        Some(n) => Some(n as u64),
        None => None,
    }
}

/// The number that a text writes as a `u32`, or `None` where it writes
/// none or one that is too large.
pub open spec fn parsed_u32(text: Seq<char>) -> Option<u32> {
    match number_of_text(vstd::utf8::encode_utf8(text), u32::MAX as int) {
        Some(n) => Some(n as u32),
        None => None,
    }
}

/// The digits read so far never write more than all the digits do.
proof fn lemma_value_grows(s: Seq<u8>, upto: int)
    requires
        all_digits(s),
        0 <= upto <= s.len(),
    ensures
        0 <= digits_value(s.subrange(0, upto)) <= digits_value(s),
    decreases s.len() - upto,
{
    if upto == s.len() {
        assert(s.subrange(0, upto) =~= s);
        lemma_value_is_natural(s);
    } else {
        lemma_value_grows(s, upto + 1);
        let longer = s.subrange(0, upto + 1);
        assert(longer.drop_last() =~= s.subrange(0, upto));
        assert(longer.last() == s[upto]);
        lemma_value_is_natural(s.subrange(0, upto));
    }
}

proof fn lemma_value_is_natural(s: Seq<u8>)
    requires
        all_digits(s),
    ensures
        digits_value(s) >= 0,
    decreases s.len(),
{
    if s.len() > 0 {
        lemma_value_is_natural(s.drop_last());
    }
}

/// Reads a number of at most `max` from a text.
fn read_number(text: &[u8], max: u64) -> (r: Option<u64>)
    ensures
        match r {
            Some(n) => number_of_text(text@, max as int) == Some(n as int),
            None => number_of_text(text@, max as int).is_none(),
        },
{
    let start: usize = if text.len() > 0 && text[0] == 0x2b {
        1
    } else {
        0
    };
    let ghost digits = digits_of(text@);
    if start == text.len() {
        return None;
    }
    let mut value: u64 = 0;
    let mut i: usize = start;
    assert(digits.subrange(0, 0) =~= Seq::<u8>::empty());
    while i < text.len()
        invariant
            start <= i <= text@.len(),
            digits == digits_of(text@),
            digits.len() == text@.len() - start,
            forall|j: int| 0 <= j < digits.len() ==> digits[j] == text@[start + j],
            all_digits(digits.subrange(0, i - start)),
            value == digits_value(digits.subrange(0, i - start)),
            value <= max,
        decreases text@.len() - i,
    {
        let b = text[i];
        if !(0x30 <= b && b <= 0x39) {
            assert(digits[i - start] == b);
            return None;
        }
        let d: u64 = (b - 0x30) as u64;
        proof {
            let longer = digits.subrange(0, i - start + 1);
            assert(longer.drop_last() =~= digits.subrange(0, i - start));
            assert(longer.last() == b);
            assert(all_digits(longer)) by {
                assert forall|j: int| 0 <= j < longer.len() implies 0x30 <= #[trigger] longer[j]
                    <= 0x39 by {
                    if j < i - start {
                        assert(digits.subrange(0, i - start)[j] == longer[j]);
                    }
                }
            }
            if all_digits(digits) {
                lemma_value_grows(digits, i - start + 1);
            }
        }
        if d > max || value > (max - d) / 10 {
            return None;
        }
        value = value * 10 + d;
        i += 1;
    }
    assert(digits.subrange(0, i - start) =~= digits);
    Some(value)
}

/// Reads a `u64` from a text.
pub fn parse_u64(text: &str) -> (r: Option<u64>)
    ensures
        r == parsed_u64(text@),
{
    read_number(text.as_bytes(), u64::MAX)
}

/// Reads a `u32` from a text.
pub fn parse_u32(text: &str) -> (r: Option<u32>)
    ensures
        r == parsed_u32(text@),
{
    match read_number(text.as_bytes(), 0xffff_ffff) {
        Some(n) => Some(n as u32),
        None => None,
    }
}

/// A text setting after an override: the override where it is set and not
/// empty, else the setting as it was.
pub open spec fn text_after(current: Seq<char>, given: Option<String>) -> Seq<char> {
    match given {
        Some(v) if v@.len() > 0 => v@,
        _ => current,
    }
}

/// A number after an override: the number read where one was, else the
/// number as it was.
pub open spec fn u64_after(current: u64, read: Option<u64>) -> u64 {
    match read {
        Some(v) => v,
        None => current,
    }
}

/// A count after an override, as `u64_after`.
pub open spec fn u32_after(current: u32, read: Option<u32>) -> u32 {
    match read {
        Some(v) => v,
        None => current,
    }
}

/// The `u64` that is read from an override, if it is set and writes one.
pub open spec fn read_u64(given: Option<String>) -> Option<u64> {
    match given {
        Some(v) => parsed_u64(v@),
        None => None,
    }
}

/// The `u32` that is read from an override, if it is set and writes one.
pub open spec fn read_u32(given: Option<String>) -> Option<u32> {
    match given {
        Some(v) => parsed_u32(v@),
        None => None,
    }
}

/// Whether a text switches a setting on: it is `1`, or `true` in any
/// casing.
pub open spec fn says_yes(text: Seq<char>) -> bool {
    ||| vstd::utf8::encode_utf8(text) == ascii_bytes("1"@)
    ||| same_ignoring_case(vstd::utf8::encode_utf8(text), ascii_bytes("true"@))
}

/// A switch after an override: what the override says where it is set,
/// else the switch as it was.
pub open spec fn switch_after(current: bool, given: Option<String>) -> bool {
    match given {
        Some(v) => says_yes(v@),
        None => current,
    }
}

/// An optional text after an override: the override where it is set and
/// not empty, else the text as it was.
pub open spec fn optional_text_after(current: Option<String>, given: Option<String>) -> Option<
    Seq<char>,
> {
    match given {
        Some(v) if v@.len() > 0 => Some(v@),
        _ => match current {
            Some(c) => Some(c@),
            None => None,
        },
    }
}

/// The settings `after` are the settings `before` with the overrides, the
/// four numbers as they were read.
pub open spec fn loaded_from(
    before: Config,
    given: Overrides,
    connect_timeout_ms: Option<u64>,
    read_timeout_ms: Option<u64>,
    retry_attempts: Option<u32>,
    retry_delay_ms: Option<u64>,
    after: Config,
) -> bool {
    &&& after.bind_addr@ == text_after(before.bind_addr@, given.bind_addr)
    &&& after.db_url@ == text_after(before.db_url@, given.db_url)
    &&& after.wolf_sock_path@ == text_after(before.wolf_sock_path@, given.wolf_sock_path)
    &&& after.docker_sock_path@ == text_after(before.docker_sock_path@, given.docker_sock_path)
    &&& after.wolf_proxy_connect_timeout_ms == u64_after(
        before.wolf_proxy_connect_timeout_ms,
        connect_timeout_ms,
    )
    &&& after.wolf_proxy_read_timeout_ms == u64_after(
        before.wolf_proxy_read_timeout_ms,
        read_timeout_ms,
    )
    &&& after.wolf_proxy_retry_attempts == u32_after(
        before.wolf_proxy_retry_attempts,
        retry_attempts,
    )
    &&& after.wolf_proxy_retry_delay_ms == u64_after(
        before.wolf_proxy_retry_delay_ms,
        retry_delay_ms,
    )
    &&& optional_text(after.public_url) == optional_text_after(before.public_url, given.public_url)
    &&& after.allow_private_origins == switch_after(
        before.allow_private_origins,
        given.allow_private_origins,
    )
}

/// An optional text as a plain value.
pub open spec fn optional_text(text: Option<String>) -> Option<Seq<char>> {
    match text {
        Some(t) => Some(t@),
        None => None,
    }
}

fn pick_optional_text(current: Option<String>, given: &Option<String>) -> (r: Option<String>)
    ensures
        optional_text(r) == optional_text_after(current, *given),
{
    match given {
        Some(v) => {
            if v.as_str().is_empty() {
                current
            } else {
                Some(v.clone())
            }
        },
        None => current,
    }
}

fn pick_switch(current: bool, given: &Option<String>) -> (r: bool)
    ensures
        r == switch_after(current, *given),
{
    proof {
        reveal_strlit("1");
        reveal_strlit("true");
    }
    match given {
        Some(v) => {
            let bytes = v.as_str().as_bytes();
            bytes_equal(bytes, ascii_of("1")) || bytes_equal_ignoring_case(bytes, ascii_of("true"))
        },
        None => current,
    }
}

fn pick_text(current: String, given: &Option<String>) -> (r: String)
    ensures
        r@ == text_after(current@, *given),
{
    match given {
        Some(v) => {
            if v.as_str().is_empty() {
                current
            } else {
                v.clone()
            }
        },
        None => current,
    }
}

fn scan_u64(given: &Option<String>) -> (r: Option<u64>)
    ensures
        r == read_u64(*given),
{
    match given {
        Some(v) => parse_u64(v.as_str()),
        None => None,
    }
}

fn scan_u32(given: &Option<String>) -> (r: Option<u32>)
    ensures
        r == read_u32(*given),
{
    match given {
        Some(v) => parse_u32(v.as_str()),
        None => None,
    }
}

impl Config {
    /// The settings after the overrides, the numbers already read: a text
    /// is replaced by an override that is not empty, a number by one that
    /// was read, the switch by what its override says, and everything else
    /// stays.
    pub fn with_values(
        self,
        texts: &Overrides,
        connect_timeout_ms: Option<u64>,
        read_timeout_ms: Option<u64>,
        retry_attempts: Option<u32>,
        retry_delay_ms: Option<u64>,
    ) -> (cfg: Self)
        ensures
            loaded_from(
                self,
                *texts,
                connect_timeout_ms,
                read_timeout_ms,
                retry_attempts,
                retry_delay_ms,
                cfg,
            ),
    {
        Config {
            bind_addr: pick_text(self.bind_addr, &texts.bind_addr),
            db_url: pick_text(self.db_url, &texts.db_url),
            wolf_sock_path: pick_text(self.wolf_sock_path, &texts.wolf_sock_path),
            docker_sock_path: pick_text(self.docker_sock_path, &texts.docker_sock_path),
            wolf_proxy_connect_timeout_ms: match connect_timeout_ms {
                Some(v) => v,
                None => self.wolf_proxy_connect_timeout_ms,
            },
            wolf_proxy_read_timeout_ms: match read_timeout_ms {
                Some(v) => v,
                None => self.wolf_proxy_read_timeout_ms,
            },
            wolf_proxy_retry_attempts: match retry_attempts {
                Some(v) => v,
                None => self.wolf_proxy_retry_attempts,
            },
            wolf_proxy_retry_delay_ms: match retry_delay_ms {
                Some(v) => v,
                None => self.wolf_proxy_retry_delay_ms,
            },
            public_url: pick_optional_text(self.public_url, &texts.public_url),
            allow_private_origins: pick_switch(
                self.allow_private_origins,
                &texts.allow_private_origins,
            ),
        }
    }

    /// Loads the settings: these settings after the overrides that the
    /// environment holds.
    pub fn load(self, given: &Overrides) -> (cfg: Self)
        ensures
            loaded_from(
                self,
                *given,
                read_u64(given.connect_timeout_ms),
                read_u64(given.read_timeout_ms),
                read_u32(given.retry_attempts),
                read_u64(given.retry_delay_ms),
                cfg,
            ),
    {
        let connect = scan_u64(&given.connect_timeout_ms);
        let read = scan_u64(&given.read_timeout_ms);
        let attempts = scan_u32(&given.retry_attempts);
        let delay = scan_u64(&given.retry_delay_ms);
        self.with_values(given, connect, read, attempts, delay)
    }

    /// The first thing that is wrong with the proxy's part of the
    /// settings, if anything is.
    pub open spec fn proxy_fault(&self) -> Option<ConfigFault> {
        if self.wolf_sock_path@.len() == 0 {
            Some(ConfigFault::EmptySocketPath)
        } else if self.wolf_proxy_connect_timeout_ms == 0 {
            Some(ConfigFault::ZeroConnectTimeout)
        } else if self.wolf_proxy_read_timeout_ms == 0 {
            Some(ConfigFault::ZeroReadTimeout)
        } else if self.wolf_proxy_retry_attempts == 0 {
            Some(ConfigFault::NoAttempts)
        } else {
            None
        }
    }

    /// Checks settings that were loaded, numbers already read: the
    /// settings where the proxy can work with them, else what is wrong.
    pub fn checked(self) -> (r: Result<Self, ConfigFault>)
        ensures
            r matches Ok(cfg) ==> cfg == self && self.proxy_fault().is_none(),
            r matches Err(fault) ==> self.proxy_fault() == Some(fault),
    {
        if self.wolf_sock_path.as_str().is_empty() {
            Err(ConfigFault::EmptySocketPath)
        } else if self.wolf_proxy_connect_timeout_ms == 0 {
            Err(ConfigFault::ZeroConnectTimeout)
        } else if self.wolf_proxy_read_timeout_ms == 0 {
            Err(ConfigFault::ZeroReadTimeout)
        } else if self.wolf_proxy_retry_attempts == 0 {
            Err(ConfigFault::NoAttempts)
        } else {
            Ok(self)
        }
    }

    /// Loads the settings and checks them: the loaded settings where the
    /// proxy can work with them, else the first thing that is wrong, a
    /// missing socket path, a timeout of zero or no dial attempt.
    pub fn load_checked(self, given: &Overrides) -> (r: Result<Self, ConfigFault>)
        ensures
            exists|loaded: Config|
                {
                    &&& #[trigger] loaded_from(
                        self,
                        *given,
                        read_u64(given.connect_timeout_ms),
                        read_u64(given.read_timeout_ms),
                        read_u32(given.retry_attempts),
                        read_u64(given.retry_delay_ms),
                        loaded,
                    )
                    &&& r.is_ok() <==> loaded.proxy_fault().is_none()
                    &&& r matches Ok(cfg) ==> cfg == loaded
                    &&& r matches Err(fault) ==> loaded.proxy_fault() == Some(fault)
                },
    {
        let loaded = self.load(given);
        loaded.checked()
    }

    /// The proxy's settings as the service's settings give them.
    pub fn proxy_config(&self) -> (cfg: WolfProxyConfig)
        ensures
            cfg.first_fault() == self.proxy_fault(),
            cfg.well_formed() <==> self.proxy_fault().is_none(),
            cfg.socket_path@ == self.wolf_sock_path@,
            cfg.connect_timeout_ms == self.wolf_proxy_connect_timeout_ms,
            cfg.read_timeout_ms == self.wolf_proxy_read_timeout_ms,
            cfg.retry_attempts == self.wolf_proxy_retry_attempts,
            cfg.retry_delay_ms == self.wolf_proxy_retry_delay_ms,
    {
        WolfProxyConfig::new(
            self.wolf_sock_path.clone(),
            self.wolf_proxy_connect_timeout_ms,
            self.wolf_proxy_read_timeout_ms,
        ).with_retry(self.wolf_proxy_retry_attempts, self.wolf_proxy_retry_delay_ms)
    }
}

} // verus!
