//! The settings of the broker, read from its environment variables.

use crate::encoding;
use crate::text;
use vstd::arithmetic::power::*;
use vstd::prelude::*;
use vstd::string::*;
use vstd::utf8::*;

verus! {

/// Seconds that a pass-cli command may take, unless set otherwise.
pub const DEFAULT_COMMAND_TIMEOUT: u64 = 60;

/// Seconds between two checks of the session, unless set otherwise.
pub const DEFAULT_SESSION_CHECK: u64 = 300;

/// Why a text is no number.
#[derive(Clone, Copy, Debug, PartialEq, Eq, Structural)]
pub enum NumberError {
    /// There is no text.
    Empty,
    /// A character is no decimal digit, or there is no digit at all.
    InvalidDigit,
    /// The number does not fit in 64 bits.
    TooLarge,
}

/// Why a setting is refused.
#[derive(Debug, PartialEq, Eq)]
pub enum ConfigError {
    /// The value of the variable of this name is no number of seconds.
    NotAnInteger(String, NumberError),
    /// The value is not UTF-8. It is given as the operating system's strings are quoted.
    NotUnicode(String),
}

/// The value of a `ConfigError`.
pub enum ConfigErrorView {
    NotAnInteger(Seq<char>, NumberError),
    NotUnicode(Seq<char>),
}

impl View for ConfigError {
    type V = ConfigErrorView;

    open spec fn view(&self) -> ConfigErrorView {
        match *self {
            ConfigError::NotAnInteger(name, e) => ConfigErrorView::NotAnInteger(name@, e),
            ConfigError::NotUnicode(quoted) => ConfigErrorView::NotUnicode(quoted@),
        }
    }
}

/// An environment variable: its name and value in raw bytes, and the text that stands for the
/// value in a message, which can quote bytes that are not UTF-8.
pub struct Variable {
    pub name: Vec<u8>,
    pub value: Vec<u8>,
    pub quoted: String,
}

/// The value of a `Variable`.
pub struct VariableView {
    pub name: Seq<u8>,
    pub value: Seq<u8>,
    pub quoted: Seq<char>,
}

impl View for Variable {
    type V = VariableView;

    open spec fn view(&self) -> VariableView {
        VariableView { name: self.name@, value: self.value@, quoted: self.quoted@ }
    }
}

/// The environment variables.
pub struct Environment {
    pub variables: Vec<Variable>,
}

/// The value of an `Environment`.
pub type EnvironmentView = Seq<VariableView>;

impl View for Environment {
    type V = EnvironmentView;

    open spec fn view(&self) -> EnvironmentView {
        self.variables@.map_values(|v: Variable| v@)
    }
}

/// The variable of a name: the first of that name counts.
pub open spec fn variable_of(environment: EnvironmentView, name: Seq<char>) -> Option<VariableView>
    decreases environment.len(),
{
    if environment.len() == 0 {
        None
    } else if environment[0].name == encode_utf8(name) {
        Some(environment[0])
    } else {
        variable_of(environment.drop_first(), name)
    }
}

/// What a variable is set to.
pub open spec fn value_of(environment: EnvironmentView, name: Seq<char>) -> Option<Seq<u8>> {
    match variable_of(environment, name) {
        Some(variable) => Some(variable.value),
        None => None,
    }
}

/// The settings. Paths are bytes, as the operating system has them; times are seconds.
#[derive(Debug)]
pub struct Config {
    pub socket: Vec<u8>,
    pub session_dir: Vec<u8>,
    pub token_file: Vec<u8>,
    pub pass_cli: Vec<u8>,
    pub command_timeout: u64,
    pub session_check_interval: u64,
}

/// The value of a `Config`.
pub struct ConfigView {
    pub socket: Seq<u8>,
    pub session_dir: Seq<u8>,
    pub token_file: Seq<u8>,
    pub pass_cli: Seq<u8>,
    pub command_timeout: u64,
    pub session_check_interval: u64,
}

impl View for Config {
    type V = ConfigView;

    open spec fn view(&self) -> ConfigView {
        ConfigView {
            socket: self.socket@,
            session_dir: self.session_dir@,
            token_file: self.token_file@,
            pass_cli: self.pass_cli@,
            command_timeout: self.command_timeout,
            session_check_interval: self.session_check_interval,
        }
    }
}

/// The character is a decimal digit.
pub open spec fn is_digit(c: char) -> bool {
    '0' <= c <= '9'
}

/// The decimal digits that a text begins with.
pub open spec fn leading_digits(s: Seq<char>) -> Seq<char>
    decreases s.len(),
{
    if s.len() > 0 && is_digit(s[0]) {
        seq![s[0]] + leading_digits(s.drop_first())
    } else {
        Seq::empty()
    }
}

/// The number that a sequence of decimal digits stands for.
pub open spec fn number(s: Seq<char>) -> nat
    decreases s.len(),
{
    if s.len() == 0 {
        0
    } else {
        (number(s.drop_last()) * 10 + (s.last() as int - '0' as int)) as nat
    }
}

/// The digits of a numeral: all of it but for one leading plus sign.
pub open spec fn digits_of(s: Seq<char>) -> Seq<char> {
    if s.len() > 0 && s[0] == '+' {
        s.drop_first()
    } else {
        s
    }
}

/// The number that a text stands for: one or more decimal digits, with an optional plus sign,
/// below two to the 64th. Digits that come to too much are refused whatever follows them.
pub open spec fn parsed_u64(s: Seq<char>) -> Result<u64, NumberError> {
    let digits = digits_of(s);
    let leading = leading_digits(digits);
    if s.len() == 0 {
        Err(NumberError::Empty)
    } else if number(leading) > u64::MAX {
        Err(NumberError::TooLarge)
    } else if digits.len() == 0 || leading != digits {
        Err(NumberError::InvalidDigit)
    } else {
        Ok(number(digits) as u64)
    }
}

/// The value of an optional byte string.
pub open spec fn raw(value: Option<Vec<u8>>) -> Option<Seq<u8>> {
    match value {
        Some(bytes) => Some(bytes@),
        None => None,
    }
}

/// The path that a variable gives.
pub open spec fn path_setting(
    environment: EnvironmentView,
    name: Seq<char>,
    default: Seq<char>,
) -> Seq<u8> {
    match value_of(environment, name) {
        Some(bytes) => bytes,
        None => encode_utf8(default),
    }
}

/// The number that a variable gives, or why it gives none.
pub open spec fn seconds_setting(
    environment: EnvironmentView,
    name: Seq<char>,
    default: u64,
) -> Result<u64, ConfigErrorView> {
    match variable_of(environment, name) {
        None => Ok(default),
        Some(variable) => if !valid_utf8(variable.value) {
            Err(ConfigErrorView::NotUnicode(variable.quoted))
        } else {
            match parsed_u64(decode_utf8(variable.value)) {
                Ok(n) => Ok(n),
                Err(e) => Err(ConfigErrorView::NotAnInteger(name, e)),
            }
        },
    }
}

/// The settings that an environment gives, or the first number in it that cannot be read.
pub open spec fn settings(environment: EnvironmentView) -> Result<ConfigView, ConfigErrorView> {
    let timeout = seconds_setting(
        environment,
        "PROTON_PASS_COMMAND_TIMEOUT_SECONDS"@,
        DEFAULT_COMMAND_TIMEOUT,
    );
    let interval = seconds_setting(
        environment,
        "PROTON_PASS_SESSION_CHECK_SECONDS"@,
        DEFAULT_SESSION_CHECK,
    );
    match (timeout, interval) {
        (Err(e), _) => Err(e),
        (Ok(_), Err(e)) => Err(e),
        (Ok(command_timeout), Ok(session_check_interval)) => Ok(
            ConfigView {
                socket: path_setting(
                    environment,
                    "PROTON_PASS_SOCKET"@,
                    "/run/proton-pass/broker.sock"@,
                ),
                session_dir: path_setting(
                    environment,
                    "PROTON_PASS_SESSION_DIR"@,
                    "/var/lib/proton-pass/session"@,
                ),
                token_file: path_setting(
                    environment,
                    "PROTON_PASS_TOKEN_FILE"@,
                    "/run/secrets/proton_pass_agent_token"@,
                ),
                pass_cli: path_setting(
                    environment,
                    "PROTON_PASS_CLI"@,
                    "/usr/local/bin/pass-cli"@,
                ),
                command_timeout,
                session_check_interval,
            },
        ),
    }
}

/// Every leading digit is a digit, and the leading digits stand at the front of the text.
proof fn lemma_leading_digits(s: Seq<char>)
    ensures
        leading_digits(s).len() <= s.len(),
        leading_digits(s) == s.take(leading_digits(s).len() as int),
        forall|i: int| 0 <= i < leading_digits(s).len() ==> is_digit(#[trigger] s[i]),
        leading_digits(s).len() < s.len() ==> !is_digit(s[leading_digits(s).len() as int]),
    decreases s.len(),
{
    if s.len() > 0 && is_digit(s[0]) {
        let rest = s.drop_first();
        lemma_leading_digits(rest);
        assert forall|i: int| 0 <= i < leading_digits(s).len() implies is_digit(
            #[trigger] s[i],
        ) by {
            if i > 0 {
                assert(rest[i - 1] == s[i]);
            }
        }
    }
}

/// More digits never make a smaller number.
proof fn lemma_number_grows(s: Seq<char>, i: int)
    requires
        0 <= i <= s.len(),
        forall|j: int| 0 <= j < s.len() ==> is_digit(#[trigger] s[j]),
    ensures
        number(s.take(i)) <= number(s),
    decreases s.len() - i,
{
    if i == s.len() {
        assert(s.take(i) =~= s);
    } else {
        lemma_number_grows(s, i + 1);
        assert(s.take(i + 1).drop_last() =~= s.take(i));
        assert(s.take(i + 1).last() == s[i]);
    }
}

impl NumberError {
    /// What is said about the text.
    pub open spec fn text(self) -> Seq<char> {
        match self {
            NumberError::Empty => "cannot parse integer from empty string"@,
            NumberError::InvalidDigit => "invalid digit found in string"@,
            NumberError::TooLarge => "number too large to fit in target type"@,
        }
    }

    /// The text that is said, as a string.
    pub fn message(&self) -> (text: String)
        ensures
            text@ == self.text(),
    {
        match self {
            NumberError::Empty => "cannot parse integer from empty string".to_owned(),
            NumberError::InvalidDigit => "invalid digit found in string".to_owned(),
            NumberError::TooLarge => "number too large to fit in target type".to_owned(),
        }
    }
}

impl ConfigErrorView {
    /// What is said about a refused setting.
    pub open spec fn text(self) -> Seq<char> {
        match self {
            ConfigErrorView::NotAnInteger(name, _) => name + " must be a positive integer"@,
            ConfigErrorView::NotUnicode(quoted) => "environment variable was not valid unicode: "@
                + quoted,
        }
    }

    /// What is said about the error behind it, if there is one.
    pub open spec fn source_text(self) -> Option<Seq<char>> {
        match self {
            ConfigErrorView::NotAnInteger(_, e) => Some(e.text()),
            ConfigErrorView::NotUnicode(_) => None,
        }
    }
}

impl ConfigError {
    /// The text that is said, as a string.
    pub fn message(&self) -> (text: String)
        ensures
            text@ == self@.text(),
    {
        match self {
            ConfigError::NotAnInteger(name, _) => name.clone().concat(
                " must be a positive integer",
            ),
            ConfigError::NotUnicode(quoted) => {
                let text = "environment variable was not valid unicode: ".to_owned();
                text.concat(quoted.as_str())
            },
        }
    }

    /// The text that is said about the error behind it, as a string.
    pub fn source(&self) -> (text: Option<String>)
        ensures
            match text {
                Some(s) => self@.source_text() == Some(s@),
                None => self@.source_text() is None,
            },
    {
        match self {
            ConfigError::NotAnInteger(_, e) => Some(e.message()),
            ConfigError::NotUnicode(_) => None,
        }
    }
}

/// The value of a decimal numeral, or why the text has none.
pub fn parse_u64(s: &str) -> (r: Result<u64, NumberError>)
    ensures
        r == parsed_u64(s@),
{
    let chars = text::chars_of(s);
    if chars.len() == 0 {
        return Err(NumberError::Empty);
    }
    let start: usize = if chars[0] == '+' {
        1
    } else {
        0
    };
    let ghost digits = digits_of(s@);
    let ghost leading = leading_digits(digits);
    assert(digits =~= chars@.skip(start as int));
    proof {
        lemma_leading_digits(digits);
    }
    if start == chars.len() {
        return Err(NumberError::InvalidDigit);
    }
    let mut total: u64 = 0;
    let mut i: usize = start;
    assert(leading.take(0) =~= Seq::<char>::empty());
    while i < chars.len()
        invariant
            start <= i <= chars.len(),
            s@.len() > 0,
            digits == digits_of(s@),
            digits == chars@.skip(start as int),
            digits.len() == chars.len() - start > 0,
            leading == leading_digits(digits),
            leading.len() <= digits.len(),
            leading == digits.take(leading.len() as int),
            forall|j: int| 0 <= j < leading.len() ==> is_digit(#[trigger] digits[j]),
            leading.len() < digits.len() ==> !is_digit(digits[leading.len() as int]),
            i - start <= leading.len(),
            total == number(leading.take(i - start)),
        decreases chars.len() - i,
    {
        let c = chars[i];
        assert(digits[i - start] == c);
        if !('0' <= c && c <= '9') {
            assert(leading.take(i - start) =~= leading);
            return Err(NumberError::InvalidDigit);
        }
        let digit: u64 = (c as u32 - '0' as u32) as u64;
        assert(leading.take(i - start + 1).drop_last() =~= leading.take(i - start));
        assert(number(leading.take(i - start + 1)) == total * 10 + digit);
        if total > (u64::MAX - digit) / 10 {
            proof {
                lemma_number_grows(leading, i - start + 1);
            }
            return Err(NumberError::TooLarge);
        }
        total = total * 10 + digit;
        i += 1;
    }
    assert(leading =~= digits);
    assert(leading.take(i - start) =~= leading);
    Ok(total)
}

impl Environment {
    /// The first variable of a name, `None` when it is not set.
    fn variable(&self, name: &str) -> (variable: Option<&Variable>)
        ensures
            match variable {
                Some(v) => variable_of(self@, name@) == Some(v@),
                None => variable_of(self@, name@) is None,
            },
    {
        let wanted = name.as_bytes_vec();
        let mut i: usize = 0;
        assert(self@.skip(0) =~= self@);
        while i < self.variables.len()
            invariant
                i <= self.variables.len(),
                wanted@ == encode_utf8(name@),
                variable_of(self@, name@) == variable_of(self@.skip(i as int), name@),
            decreases self.variables.len() - i,
        {
            assert(self@.skip(i as int)[0] == self@[i as int]);
            assert(self@.skip(i as int).drop_first() =~= self@.skip(i + 1));
            if encoding::same_bytes(&self.variables[i].name, &wanted) {
                return Some(&self.variables[i]);
            }
            i += 1;
        }
        None
    }

    /// What a variable is set to, `None` when it is not set.
    pub fn get(&self, name: &str) -> (value: Option<Vec<u8>>)
        ensures
            raw(value) == value_of(self@, name@),
    {
        match self.variable(name) {
            Some(variable) => {
                let value = variable.value.clone();
                assert(value@ =~= variable.value@);
                Some(value)
            },
            None => None,
        }
    }
}

/// The path that a variable gives: its value as it stands, or the default.
pub fn env_path(environment: &Environment, name: &str, default: &str) -> (path: Vec<u8>)
    ensures
        path@ == path_setting(environment@, name@, default@),
{
    match environment.get(name) {
        Some(bytes) => bytes,
        None => default.as_bytes_vec(),
    }
}

/// The number of seconds that a variable gives.
pub fn env_u64(environment: &Environment, name: &str, default: u64) -> (r: Result<u64, ConfigError>)
    ensures
        match r {
            Ok(n) => seconds_setting(environment@, name@, default) == Ok::<u64, ConfigErrorView>(n),
            Err(e) => seconds_setting(environment@, name@, default) == Err::<u64, ConfigErrorView>(
                e@,
            ),
        },
{
    match environment.variable(name) {
        None => Ok(default),
        Some(variable) => {
            let value = variable.value.clone();
            assert(value@ =~= variable.value@);
            match encoding::string_from_utf8(value) {
                None => Err(ConfigError::NotUnicode(variable.quoted.clone())),
                Some(s) => match parse_u64(s.as_str()) {
                    Ok(n) => Ok(n),
                    Err(e) => Err(ConfigError::NotAnInteger(name.to_owned(), e)),
                },
            }
        },
    }
}

impl Config {
    /// The settings that the environment gives, with a default for each variable that is not
    /// set. The first number that cannot be read is reported.
    pub fn from_env(environment: &Environment) -> (r: Result<Config, ConfigError>)
        ensures
            match r {
                Ok(config) => settings(environment@) == Ok::<ConfigView, ConfigErrorView>(config@),
                Err(e) => settings(environment@) == Err::<ConfigView, ConfigErrorView>(e@),
            },
    {
        let socket = env_path(environment, "PROTON_PASS_SOCKET", "/run/proton-pass/broker.sock");
        let session_dir = env_path(
            environment,
            "PROTON_PASS_SESSION_DIR",
            "/var/lib/proton-pass/session",
        );
        let token_file = env_path(
            environment,
            "PROTON_PASS_TOKEN_FILE",
            "/run/secrets/proton_pass_agent_token",
        );
        let pass_cli = env_path(environment, "PROTON_PASS_CLI", "/usr/local/bin/pass-cli");
        let command_timeout: u64 = match env_u64(
            environment,
            "PROTON_PASS_COMMAND_TIMEOUT_SECONDS",
            DEFAULT_COMMAND_TIMEOUT,
        ) {
            Ok(n) => n,
            Err(e) => {
                return Err(e);
            },
        };
        let session_check_interval: u64 = match env_u64(
            environment,
            "PROTON_PASS_SESSION_CHECK_SECONDS",
            DEFAULT_SESSION_CHECK,
        ) {
            Ok(n) => n,
            Err(e) => {
                return Err(e);
            },
        };
        Ok(
            Config {
                socket,
                session_dir,
                token_file,
                pass_cli,
                command_timeout,
                session_check_interval,
            },
        )
    }
}

/// An empty environment gives the documented defaults.
pub proof fn law_defaults(environment: EnvironmentView)
    requires
        environment.len() == 0,
    ensures
        settings(environment) == Ok::<ConfigView, ConfigErrorView>(
            ConfigView {
                socket: encode_utf8("/run/proton-pass/broker.sock"@),
                session_dir: encode_utf8("/var/lib/proton-pass/session"@),
                token_file: encode_utf8("/run/secrets/proton_pass_agent_token"@),
                pass_cli: encode_utf8("/usr/local/bin/pass-cli"@),
                command_timeout: 60,
                session_check_interval: 300,
            },
        ),
{
}

/// The first variable of a name counts, with its value as it stands, whatever comes before and
/// after it.
pub proof fn law_first_variable_counts(
    earlier: EnvironmentView,
    variable: VariableView,
    later: EnvironmentView,
    name: Seq<char>,
)
    requires
        variable.name == encode_utf8(name),
        forall|i: int| 0 <= i < earlier.len() ==> (#[trigger] earlier[i]).name != variable.name,
    ensures
        variable_of(earlier + seq![variable] + later, name) == Some(variable),
        value_of(earlier + seq![variable] + later, name) == Some(variable.value),
    decreases earlier.len(),
{
    let all = earlier + seq![variable] + later;
    if earlier.len() > 0 {
        assert(all[0] == earlier[0]);
        assert(all.drop_first() =~= earlier.drop_first() + seq![variable] + later);
        assert forall|i: int| 0 <= i < earlier.drop_first().len() implies (
        #[trigger] earlier.drop_first()[i]).name != variable.name by {
            assert(earlier.drop_first()[i] == earlier[i + 1]);
        }
        law_first_variable_counts(earlier.drop_first(), variable, later, name);
    } else {
        assert(all[0] == variable);
    }
}

/// A name that no variable has is not set.
pub proof fn law_other_variables_do_not_count(environment: EnvironmentView, name: Seq<char>)
    requires
        forall|i: int|
            0 <= i < environment.len() ==> (#[trigger] environment[i]).name != encode_utf8(name),
    ensures
        variable_of(environment, name) is None,
        value_of(environment, name) is None,
    decreases environment.len(),
{
    if environment.len() > 0 {
        let rest = environment.drop_first();
        assert forall|i: int| 0 <= i < rest.len() implies (#[trigger] rest[i]).name != encode_utf8(
            name,
        ) by {
            assert(rest[i] == environment[i + 1]);
        }
        law_other_variables_do_not_count(rest, name);
    }
}

/// The value of a digit is its place after `0`.
pub proof fn law_value_of_a_digit(c: char)
    requires
        48 <= c as int <= 57,
    ensures
        number(seq![c]) == c as int - 48,
        number(Seq::<char>::empty()) == 0,
{
    reveal_with_fuel(number, 2);
    assert(seq![c].drop_last() =~= Seq::<char>::empty());
}

/// Decimal notation: digits in front of others count for as many times ten as there are others.
pub proof fn law_decimal_notation(a: Seq<char>, b: Seq<char>)
    requires
        forall|i: int| 0 <= i < a.len() ==> 48 <= (#[trigger] a[i]) as int <= 57,
        forall|i: int| 0 <= i < b.len() ==> 48 <= (#[trigger] b[i]) as int <= 57,
    ensures
        number(a + b) == number(a) * pow(10, b.len()) + number(b),
    decreases b.len(),
{
    if b.len() == 0 {
        assert(a + b =~= a);
        lemma_pow0(10);
    } else {
        let c = b.last();
        let front = b.drop_last();
        assert(48 <= c as int <= 57);
        assert((a + b).drop_last() =~= a + front);
        assert((a + b).last() == c);
        assert forall|i: int| 0 <= i < front.len() implies 48 <= (#[trigger] front[i]) as int
            <= 57 by {
            assert(front[i] == b[i]);
        }
        law_decimal_notation(a, front);
        let p = pow(10, front.len());
        assert(pow(10, b.len()) == 10 * p) by {
            reveal(pow);
        }
        let x = number(a) as int;
        let y = number(front) as int;
        assert((x * p + y) * 10 == x * (10 * p) + y * 10) by (nonlinear_arith);
    }
}

/// Digits up to something else are the leading digits.
proof fn lemma_leading(digits: Seq<char>, rest: Seq<char>)
    requires
        forall|i: int| 0 <= i < digits.len() ==> is_digit(#[trigger] digits[i]),
        rest.len() > 0 ==> !is_digit(rest[0]),
    ensures
        leading_digits(digits + rest) == digits,
    decreases digits.len(),
{
    let s = digits + rest;
    if digits.len() > 0 {
        assert(s[0] == digits[0]);
        assert(s.drop_first() =~= digits.drop_first() + rest);
        assert forall|i: int| 0 <= i < digits.drop_first().len() implies is_digit(
            #[trigger] digits.drop_first()[i],
        ) by {
            assert(digits.drop_first()[i] == digits[i + 1]);
        }
        lemma_leading(digits.drop_first(), rest);
        assert(seq![s[0]] + digits.drop_first() =~= digits);
    } else {
        assert(s =~= rest);
        assert(digits =~= Seq::<char>::empty());
    }
}

/// Every numeral is read: one or more digits, with or without a plus sign in front, give their
/// number when it fits in 64 bits, and are refused as too large when it does not.
pub proof fn law_numerals_are_read(digits: Seq<char>)
    requires
        digits.len() > 0,
        forall|i: int| 0 <= i < digits.len() ==> 48 <= (#[trigger] digits[i]) as int <= 57,
    ensures
        number(digits) <= 18446744073709551615 ==> {
            &&& parsed_u64(digits) == Ok::<u64, NumberError>(number(digits) as u64)
            &&& parsed_u64(seq!['+'] + digits) == Ok::<u64, NumberError>(number(digits) as u64)
        },
        number(digits) > 18446744073709551615 ==> {
            &&& parsed_u64(digits) == Err::<u64, NumberError>(NumberError::TooLarge)
            &&& parsed_u64(seq!['+'] + digits) == Err::<u64, NumberError>(NumberError::TooLarge)
        },
{
    let none = Seq::<char>::empty();
    assert forall|i: int| 0 <= i < digits.len() implies is_digit(#[trigger] digits[i]) by {
        assert(48 <= digits[i] as int <= 57);
    }
    lemma_leading(digits, none);
    assert(digits + none =~= digits);
    assert(48 <= digits[0] as int);
    assert((seq!['+'] + digits).drop_first() =~= digits);
}

/// Every other text is refused: an empty one, a lone plus sign, and one in which a character that
/// is no digit follows the digits, if any, and the plus sign, if any. In the last case the digits
/// may already be too large.
pub proof fn law_other_texts_are_no_numbers(digits: Seq<char>, c: char, rest: Seq<char>)
    requires
        forall|i: int| 0 <= i < digits.len() ==> 48 <= (#[trigger] digits[i]) as int <= 57,
        !(48 <= c as int <= 57),
    ensures
        ({
            let refused = Err::<u64, NumberError>(
                if number(digits) > 18446744073709551615 {
                    NumberError::TooLarge
                } else {
                    NumberError::InvalidDigit
                },
            );
            &&& parsed_u64(Seq::empty()) == Err::<u64, NumberError>(NumberError::Empty)
            &&& parsed_u64(seq!['+']) == Err::<u64, NumberError>(NumberError::InvalidDigit)
            &&& digits.len() > 0 || c != '+' ==> parsed_u64(digits + (seq![c] + rest)) == refused
            &&& parsed_u64(seq!['+'] + (digits + (seq![c] + rest))) == refused
        }),
{
    let tail = seq![c] + rest;
    let s = digits + tail;
    assert forall|i: int| 0 <= i < digits.len() implies is_digit(#[trigger] digits[i]) by {
        assert(48 <= digits[i] as int <= 57);
    }
    assert(tail[0] == c);
    lemma_leading(digits, tail);
    assert(s.len() > digits.len());
    assert(s[0] == if digits.len() > 0 {
        digits[0]
    } else {
        c
    });
    if digits.len() > 0 {
        assert(48 <= digits[0] as int);
    }
    assert((seq!['+'] + s).drop_first() =~= s);
    let plus = seq!['+'];
    assert(plus.drop_first() =~= Seq::<char>::empty());
    assert(leading_digits(plus.drop_first()).len() == 0);
    assert(number(leading_digits(plus.drop_first())) == 0);
}

/// Each setting comes from its own variable: a path as it stands, also when it is empty, and a
/// number as it reads; and from its default when the variable is not set.
pub proof fn law_settings_come_from_their_variables(environment: EnvironmentView)
    ensures
        settings(environment) matches Ok(config) ==> {
            &&& config.socket == match value_of(environment, "PROTON_PASS_SOCKET"@) {
                Some(bytes) => bytes,
                None => encode_utf8("/run/proton-pass/broker.sock"@),
            }
            &&& config.session_dir == match value_of(environment, "PROTON_PASS_SESSION_DIR"@) {
                Some(bytes) => bytes,
                None => encode_utf8("/var/lib/proton-pass/session"@),
            }
            &&& config.token_file == match value_of(environment, "PROTON_PASS_TOKEN_FILE"@) {
                Some(bytes) => bytes,
                None => encode_utf8("/run/secrets/proton_pass_agent_token"@),
            }
            &&& config.pass_cli == match value_of(environment, "PROTON_PASS_CLI"@) {
                Some(bytes) => bytes,
                None => encode_utf8("/usr/local/bin/pass-cli"@),
            }
            &&& reads_as(
                environment,
                "PROTON_PASS_COMMAND_TIMEOUT_SECONDS"@,
                60,
                config.command_timeout,
            )
            &&& reads_as(
                environment,
                "PROTON_PASS_SESSION_CHECK_SECONDS"@,
                300,
                config.session_check_interval,
            )
        },
{
}

/// The variable is not set and the number is the default, or it is set to UTF-8 text that stands
/// for the number.
pub open spec fn reads_as(
    environment: EnvironmentView,
    name: Seq<char>,
    default: u64,
    n: u64,
) -> bool {
    match value_of(environment, name) {
        None => n == default,
        Some(bytes) => valid_utf8(bytes) && parsed_u64(decode_utf8(bytes)) == Ok::<
            u64,
            NumberError,
        >(n),
    }
}

/// The settings are refused if and only if one of the two numbers cannot be read; the first of
/// them is named, or quoted when it is not UTF-8.
pub proof fn law_refused_settings(environment: EnvironmentView)
    ensures
        ({
            let timeout = "PROTON_PASS_COMMAND_TIMEOUT_SECONDS"@;
            let interval = "PROTON_PASS_SESSION_CHECK_SECONDS"@;
            let bad_timeout = forall|n: u64| !#[trigger] reads_as(environment, timeout, 60, n);
            let bad_interval = forall|n: u64| !#[trigger] reads_as(environment, interval, 300, n);
            &&& settings(environment) is Err <==> bad_timeout || bad_interval
            &&& settings(environment) matches Err(e) ==> blames(
                environment,
                if bad_timeout {
                    timeout
                } else {
                    interval
                },
                e,
            )
        }),
{
    let timeout = "PROTON_PASS_COMMAND_TIMEOUT_SECONDS"@;
    let interval = "PROTON_PASS_SESSION_CHECK_SECONDS"@;
    if let Ok(n) = seconds_setting(environment, timeout, 60) {
        assert(reads_as(environment, timeout, 60, n));
    }
    if let Ok(n) = seconds_setting(environment, interval, 300) {
        assert(reads_as(environment, interval, 300, n));
    }
}

/// The error is about this variable.
pub open spec fn blames(
    environment: EnvironmentView,
    name: Seq<char>,
    e: ConfigErrorView,
) -> bool {
    match variable_of(environment, name) {
        None => false,
        Some(variable) => if valid_utf8(variable.value) {
            &&& e.text() == name + " must be a positive integer"@
            &&& parsed_u64(decode_utf8(variable.value)) matches Err(reason)
            &&& e.source_text() == Some(reason.text())
        } else {
            &&& e.text() == "environment variable was not valid unicode: "@ + variable.quoted
            &&& e.source_text() is None
        },
    }
}

/// What is said about a text that is no number.
pub proof fn law_texts_of_number_errors()
    ensures
        NumberError::Empty.text() == "cannot parse integer from empty string"@,
        NumberError::InvalidDigit.text() == "invalid digit found in string"@,
        NumberError::TooLarge.text() == "number too large to fit in target type"@,
{
}

/// The value of an environment is its variables in their order, each with its own name, value and
/// quoted text; the value of the settings is each of them; and that of an error is what it holds.
pub proof fn law_views_leave_nothing_out(
    environment: Environment,
    config: Config,
    name: String,
    number_error: NumberError,
)
    ensures
        environment@.len() == environment.variables@.len(),
        forall|i: int|
            0 <= i < environment@.len() ==> {
                &&& (#[trigger] environment@[i]).name == environment.variables@[i].name@
                &&& environment@[i].value == environment.variables@[i].value@
                &&& environment@[i].quoted == environment.variables@[i].quoted@
            },
        config@.socket == config.socket@,
        config@.session_dir == config.session_dir@,
        config@.token_file == config.token_file@,
        config@.pass_cli == config.pass_cli@,
        config@.command_timeout == config.command_timeout,
        config@.session_check_interval == config.session_check_interval,
        ConfigError::NotAnInteger(name, number_error)@ == ConfigErrorView::NotAnInteger(
            name@,
            number_error,
        ),
        ConfigError::NotUnicode(name)@ == ConfigErrorView::NotUnicode(name@),
{
}

} // verus!
