//! The settings of the service, read from environment variables.
use crate::text;
use vstd::prelude::*;

verus! {

/// Environment variables: names with their values.
#[derive(Debug)]
pub struct Environment {
    pub variables: Vec<(String, String)>,
}

/// What the variable `name` holds among `variables`: of two that share the name, the first.
pub open spec fn value_of(variables: Seq<(String, String)>, name: Seq<char>) -> Option<Seq<char>>
    decreases variables.len(),
{
    if variables.len() == 0 {
        None
    } else if variables.first().0@ == name {
        Some(variables.first().1@)
    } else {
        value_of(variables.drop_first(), name)
    }
}

/// The characters of an optional text.
pub open spec fn text_of(value: Option<String>) -> Option<Seq<char>> {
    match value {
        Some(s) => Some(s@),
        None => None,
    }
}

impl Environment {
    /// What the variable `name` holds.
    pub open spec fn value(&self, name: Seq<char>) -> Option<Seq<char>> {
        value_of(self.variables@, name)
    }

    /// The value of the variable `name`, if it is set.
    pub fn var(&self, name: &str) -> (r: Option<String>)
        ensures
            text_of(r) == self.value(name@),
    {
        let wanted: String = name.to_owned();
        let mut i: usize = 0;
        assert(self.variables@.skip(0) == self.variables@);
        while i < self.variables.len()
            invariant
                i <= self.variables.len(),
                wanted@ == name@,
                self.value(name@) == value_of(self.variables@.skip(i as int), name@),
            decreases self.variables.len() - i,
        {
            let ghost rest = self.variables@.skip(i as int);
            assert(rest.first() == self.variables@[i as int]);
            assert(rest.drop_first() == self.variables@.skip(i + 1));
            if self.variables[i].0 == wanted {
                return Some(self.variables[i].1.clone());
            }
            i = i + 1;
        }
        None
    }
}

/// The variables that the service reads.
pub fn variable_names() -> (r: Vec<&'static str>)
    ensures
        r@ == seq![
            "TOKEN_ISSUER",
            "TOKEN_AUDIENCE",
            "BIND_ADDR",
            "TOKEN_SIGNING_SECRET",
            "ID_TOKEN_TTL_SECONDS",
            "REFRESH_TOKEN_TTL_SECONDS",
            "REFRESH_CLEANUP_INTERVAL_SECONDS",
            "REFRESH_STORE_MAX_SIZE",
            "VM_PUSH_URL",
            "VM_PUSH_INTERVAL_SECONDS",
        ],
{
    vec![
        "TOKEN_ISSUER",
        "TOKEN_AUDIENCE",
        "BIND_ADDR",
        "TOKEN_SIGNING_SECRET",
        "ID_TOKEN_TTL_SECONDS",
        "REFRESH_TOKEN_TTL_SECONDS",
        "REFRESH_CLEANUP_INTERVAL_SECONDS",
        "REFRESH_STORE_MAX_SIZE",
        "VM_PUSH_URL",
        "VM_PUSH_INTERVAL_SECONDS",
    ]
}

/// The settings of the service.
#[derive(Debug, Clone)]
pub struct Config {
    /// Who issues the identity tokens: their claim `iss`.
    pub issuer: String,
    /// For whom the identity tokens are: their claim `aud`.
    pub audience: String,
    /// For how long an identity token is valid.
    pub id_token_ttl_seconds: i64,
    /// For how long a refresh token is valid.
    pub refresh_token_ttl_seconds: i64,
    /// How often expired refresh tokens are removed.
    pub refresh_cleanup_interval_seconds: u64,
    /// How many refresh tokens are kept at most.
    pub refresh_store_max_size: usize,
    /// Where metrics are pushed, if they are.
    pub vm_push_url: Option<String>,
    /// How often metrics are pushed.
    pub vm_push_interval_seconds: u64,
    /// The address that the service listens on.
    pub bind_addr: String,
    /// The secret that identity tokens are signed and verified with.
    pub signing_secret: String,
}

/// The number `n` where it is there and positive, `default_value` everywhere else.
pub open spec fn positive_or(n: Option<int>, default_value: int) -> int {
    match n {
        Some(v) if v > 0 => v,
        _ => default_value,
    }
}

/// The number that a setting's text `value` writes, if there is a text, it is a signed
/// number and it fits in an `i64`.
pub open spec fn i64_setting(value: Option<Seq<char>>) -> Option<int> {
    match value {
        Some(s) => text::within(text::signed_value(s), i64::MIN as int, i64::MAX as int),
        None => None,
    }
}

/// The number that a setting's text `value` writes, if there is a text, it is an unsigned
/// number and it is at most `max`.
pub open spec fn unsigned_setting(value: Option<Seq<char>>, max: int) -> Option<int> {
    match value {
        Some(s) => text::within(text::unsigned_value(s), 0, max),
        None => None,
    }
}

/// The lifetime that `value` sets: its number if that is positive, else `default_value`.
pub fn parse_ttl(value: Option<String>, default_value: i64) -> (r: i64)
    ensures
        r == positive_or(i64_setting(text_of(value)), default_value as int),
{
    match value {
        Some(value) => match text::read_i64(value.as_str()) {
            Some(v) => if v > 0 {
                v
            } else {
                default_value
            },
            None => default_value,
        },
        None => default_value,
    }
}

/// The number that `value` sets: its number if that is positive, else `default_value`.
pub fn parse_u64(value: Option<String>, default_value: u64) -> (r: u64)
    ensures
        r == positive_or(unsigned_setting(text_of(value), u64::MAX as int), default_value as int),
{
    match value {
        Some(value) => match text::read_u64(value.as_str()) {
            Some(v) => if v > 0 {
                v
            } else {
                default_value
            },
            None => default_value,
        },
        None => default_value,
    }
}

/// The size that `value` sets: its number if that is positive, else `default_value`.
pub fn parse_usize(value: Option<String>, default_value: usize) -> (r: usize)
    ensures
        r == positive_or(unsigned_setting(text_of(value), usize::MAX as int), default_value as int),
{
    match value {
        Some(value) => match text::read_usize(value.as_str()) {
            Some(v) => if v > 0 {
                v
            } else {
                default_value
            },
            None => default_value,
        },
        None => default_value,
    }
}

/// `value`, or `default_value` where there is none.
pub open spec fn text_or(value: Option<Seq<char>>, default_value: Seq<char>) -> Seq<char> {
    match value {
        Some(s) => s,
        None => default_value,
    }
}

/// The address that `value` sets to push metrics to: its text without the white space
/// around it, unless that is empty.
pub open spec fn push_url(value: Option<Seq<char>>) -> Option<Seq<char>> {
    match value {
        Some(s) if !text::is_blank(s) => Some(text::trimmed(s)),
        _ => None,
    }
}

fn var_or(env: &Environment, name: &str, default_value: &str) -> (r: String)
    ensures
        r@ == text_or(env.value(name@), default_value@),
{
    match env.var(name) {
        Some(s) => s,
        None => default_value.to_owned(),
    }
}

impl Config {
    /// Whether this is what the variables in `env` set.
    pub open spec fn is_read_from(&self, env: &Environment) -> bool {
        &&& self.issuer@ == text_or(env.value("TOKEN_ISSUER"@), "auth-emulator"@)
        &&& self.audience@ == text_or(env.value("TOKEN_AUDIENCE"@), "sample-client"@)
        &&& self.bind_addr@ == text_or(env.value("BIND_ADDR"@), "127.0.0.1:8080"@)
        &&& self.signing_secret@ == text_or(
            env.value("TOKEN_SIGNING_SECRET"@),
            "local-dev-signing-secret-change-me"@,
        )
        &&& self.id_token_ttl_seconds == positive_or(
            i64_setting(env.value("ID_TOKEN_TTL_SECONDS"@)),
            300,
        )
        &&& self.refresh_token_ttl_seconds == positive_or(
            i64_setting(env.value("REFRESH_TOKEN_TTL_SECONDS"@)),
            3600,
        )
        &&& self.refresh_cleanup_interval_seconds == positive_or(
            unsigned_setting(env.value("REFRESH_CLEANUP_INTERVAL_SECONDS"@), u64::MAX as int),
            60,
        )
        &&& self.refresh_store_max_size == positive_or(
            unsigned_setting(env.value("REFRESH_STORE_MAX_SIZE"@), usize::MAX as int),
            100_000,
        )
        &&& text_of(self.vm_push_url) == push_url(env.value("VM_PUSH_URL"@))
        &&& self.vm_push_interval_seconds == positive_or(
            unsigned_setting(env.value("VM_PUSH_INTERVAL_SECONDS"@), u64::MAX as int),
            15,
        )
    }

    /// Whether every number among the settings is positive.
    pub open spec fn is_positive(&self) -> bool {
        &&& self.id_token_ttl_seconds > 0
        &&& self.refresh_token_ttl_seconds > 0
        &&& self.refresh_cleanup_interval_seconds > 0
        &&& self.refresh_store_max_size > 0
        &&& self.vm_push_interval_seconds > 0
    }
}

/// The settings that the variables in `env` give. A variable that is not set, and a number
/// that cannot be read or is not positive, gives way to its default.
pub fn read_config(env: &Environment) -> (config: Config)
    ensures
        config.is_read_from(env),
        config.is_positive(),
{
    let vm_push_url = match env.var("VM_PUSH_URL") {
        Some(v) => {
            let url = text::trim(v.as_str());
            if url.is_empty() {
                None
            } else {
                Some(url.to_owned())
            }
        },
        None => None,
    };
    Config {
        issuer: var_or(env, "TOKEN_ISSUER", "auth-emulator"),
        audience: var_or(env, "TOKEN_AUDIENCE", "sample-client"),
        id_token_ttl_seconds: parse_ttl(env.var("ID_TOKEN_TTL_SECONDS"), 300),
        refresh_token_ttl_seconds: parse_ttl(env.var("REFRESH_TOKEN_TTL_SECONDS"), 3600),
        refresh_cleanup_interval_seconds: parse_u64(
            env.var("REFRESH_CLEANUP_INTERVAL_SECONDS"),
            60,
        ),
        refresh_store_max_size: parse_usize(env.var("REFRESH_STORE_MAX_SIZE"), 100_000),
        vm_push_url,
        vm_push_interval_seconds: parse_u64(env.var("VM_PUSH_INTERVAL_SECONDS"), 15),
        bind_addr: var_or(env, "BIND_ADDR", "127.0.0.1:8080"),
        signing_secret: var_or(
            env,
            "TOKEN_SIGNING_SECRET",
            "local-dev-signing-secret-change-me",
        ),
    }
}

/// A variable holds what it is first set to, and nothing if it is not set.
pub proof fn variable_holds_what_it_is_first_set_to(
    variables: Seq<(String, String)>,
    name: Seq<char>,
    i: int,
)
    requires
        0 <= i <= variables.len(),
        forall|j: int| 0 <= j < i ==> (#[trigger] variables[j]).0@ != name,
    ensures
        i == variables.len() ==> value_of(variables, name) is None,
        i < variables.len() && variables[i].0@ == name ==> value_of(variables, name) == Some(
            variables[i].1@,
        ),
    decreases i,
{
    if i > 0 {
        assert(variables[0].0@ != name);
        let rest = variables.drop_first();
        assert forall|j: int| 0 <= j < i - 1 implies (#[trigger] rest[j]).0@ != name by {
            assert(rest[j] == variables[j + 1]);
        }
        variable_holds_what_it_is_first_set_to(rest, name, i - 1);
    }
}

/// A number among the settings is the number that its variable writes, if that is positive and fits,
/// and otherwise its default.
pub proof fn numbers_are_as_written(config: &Config, env: &Environment)
    requires
        config.is_read_from(env),
    ensures
        is_signed_setting(env.value("ID_TOKEN_TTL_SECONDS"@), 300, config.id_token_ttl_seconds as int),
        is_signed_setting(
            env.value("REFRESH_TOKEN_TTL_SECONDS"@),
            3600,
            config.refresh_token_ttl_seconds as int,
        ),
        is_unsigned_setting(
            env.value("REFRESH_CLEANUP_INTERVAL_SECONDS"@),
            u64::MAX as int,
            60,
            config.refresh_cleanup_interval_seconds as int,
        ),
        is_unsigned_setting(
            env.value("REFRESH_STORE_MAX_SIZE"@),
            usize::MAX as int,
            100_000,
            config.refresh_store_max_size as int,
        ),
        is_unsigned_setting(
            env.value("VM_PUSH_INTERVAL_SECONDS"@),
            u64::MAX as int,
            15,
            config.vm_push_interval_seconds as int,
        ),
{
}

/// Whether `n` is the number that a text writes with or without a sign, if there is a text that
/// does, and the number is positive and fits in an `i64`, and otherwise the default.
pub open spec fn is_signed_setting(value: Option<Seq<char>>, default_value: int, n: int) -> bool {
    let written = value is Some && text::signed_value(value->0) is Some && 0 < text::signed_value(
        value->0,
    )->0 <= i64::MAX;
    n == if written {
        text::signed_value(value->0)->0
    } else {
        default_value
    }
}

/// Whether `n` is the number that a text writes without a `-`, if there is a text that does, and the
/// number is positive and at most `max`, and otherwise the default.
pub open spec fn is_unsigned_setting(
    value: Option<Seq<char>>,
    max: int,
    default_value: int,
    n: int,
) -> bool {
    let written = value is Some && text::unsigned_value(value->0) is Some && 0
        < text::unsigned_value(value->0)->0 <= max;
    n == if written {
        text::unsigned_value(value->0)->0
    } else {
        default_value
    }
}

/// Plain digits set a number: it is the number that they write. Any other text that is not a number,
/// and a number that is not positive or does not fit, leaves the default.
pub proof fn digits_set_a_number(s: Seq<char>, default_value: int, max: int)
    ensures
        text::is_digits(s) && 0 < text::digits_value(s) <= i64::MAX ==> positive_or(
            i64_setting(Some(s)),
            default_value,
        ) == text::digits_value(s),
        text::is_digits(s) && 0 < text::digits_value(s) <= max ==> positive_or(
            unsigned_setting(Some(s), max),
            default_value,
        ) == text::digits_value(s),
        text::signed_value(s) is None || text::signed_value(s)->0 <= 0 || text::signed_value(s)->0
            > i64::MAX ==> positive_or(i64_setting(Some(s)), default_value) == default_value,
        text::unsigned_value(s) is None || text::unsigned_value(s)->0 <= 0
            || text::unsigned_value(s)->0 > max ==> positive_or(
            unsigned_setting(Some(s), max),
            default_value,
        ) == default_value,
        positive_or(i64_setting(None), default_value) == default_value,
        positive_or(unsigned_setting(None, max), default_value) == default_value,
{
    if text::is_digits(s) {
        assert('0' <= s[0] <= '9');
    }
}

/// A text among the settings is what its variable holds, as it is, and otherwise its default; the
/// address to push metrics to loses the white space around it, and is none if nothing is left.
pub proof fn texts_are_as_written(config: &Config, env: &Environment)
    requires
        config.is_read_from(env),
    ensures
        env.value("TOKEN_ISSUER"@) matches Some(s) ==> config.issuer@ == s,
        env.value("TOKEN_ISSUER"@) is None ==> config.issuer@ == "auth-emulator"@,
        env.value("TOKEN_AUDIENCE"@) matches Some(s) ==> config.audience@ == s,
        env.value("TOKEN_AUDIENCE"@) is None ==> config.audience@ == "sample-client"@,
        env.value("BIND_ADDR"@) matches Some(s) ==> config.bind_addr@ == s,
        env.value("BIND_ADDR"@) is None ==> config.bind_addr@ == "127.0.0.1:8080"@,
        env.value("TOKEN_SIGNING_SECRET"@) matches Some(s) ==> config.signing_secret@ == s,
        env.value("TOKEN_SIGNING_SECRET"@) is None ==> config.signing_secret@
            == "local-dev-signing-secret-change-me"@,
        match config.vm_push_url {
            Some(url) => {
                &&& env.value("VM_PUSH_URL"@) is Some
                &&& url@ == text::trimmed(env.value("VM_PUSH_URL"@)->0)
                &&& url@.len() > 0
            },
            None => env.value("VM_PUSH_URL"@) is None || text::trimmed(
                env.value("VM_PUSH_URL"@)->0,
            ).len() == 0,
        },
{
}

/// An optional text is taken as it is, and a variable as its name says.
pub proof fn optional_texts_are_taken_whole(s: String, env: &Environment, name: Seq<char>)
    ensures
        text_of(Some(s)) == Some(s@),
        text_of(None) is None,
        env.value(name) == value_of(env.variables@, name),
{
}

} // verus!
