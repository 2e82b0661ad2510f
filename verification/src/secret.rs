//! Random secrets: what a token's secret is made of, and the secret part of
//! the address that Telegram calls.

use crate::config::Config;
use crate::text::{decimal, str_eq, u64_to_string};
use vstd::prelude::*;
use vstd::string::*;

verus! {

/// The length of a generated secret.
pub const SECRET_LEN: usize = 21;

/// The length of the secret part of the webhook address.
pub const TELEGRAM_WEBHOOK_TOKEN_LEN: usize = 48;

/// Whether `c` may stand in a URL as it is: a letter, a digit, `_` or `-`.
pub open spec fn is_url_safe(c: char) -> bool {
    ||| 'a' <= c <= 'z'
    ||| 'A' <= c <= 'Z'
    ||| '0' <= c <= '9'
    ||| c == '_'
    ||| c == '-'
}

/// Whether `text` is `len` characters that may all stand in a URL.
pub open spec fn is_secret(text: Seq<char>, len: nat) -> bool {
    text.len() == len && forall|i: int| 0 <= i < text.len() ==> is_url_safe(#[trigger] text[i])
}

/// Calls `nanoid::format` with `nanoid::rngs::default` as the source of random
/// bytes and `nanoid::alphabet::SAFE` as the alphabet.
///
/// The result is drawn at random. Of every outcome it holds that it has
/// `size` characters and that each is one of the 64 of that alphabet: the
/// letters, the digits, `_` and `-`. The function reserves `size` bytes at
/// once and panics where no allocation can be that large, which `requires`
/// leaves out. It also panics where the system gives no random bytes to seed
/// the generator; no argument decides that, so no `requires` can leave it
/// out.
#[verifier::external_body]
fn random_id(size: usize) -> (r: String)
    requires
        size <= isize::MAX,
    ensures
        is_secret(r@, size as nat),
{
    nanoid::format(nanoid::rngs::default, &nanoid::alphabet::SAFE, size)
}

/// A new random secret of 21 characters.
pub fn gen_secret() -> (r: String)
    ensures
        is_secret(r@, 21),
{
    random_id(SECRET_LEN)
}

/// A new random secret of `len` characters. `len` is within what can be
/// allocated at once.
pub fn generate(len: usize) -> (r: String)
    requires
        len <= isize::MAX,
    ensures
        is_secret(r@, len as nat),
{
    random_id(len)
}

/// The secret part of the address that Telegram calls with updates.
#[derive(Debug, PartialEq, Eq)]
pub struct TelegramWebhookToken {
    value: String,
}

impl TelegramWebhookToken {
    /// The secret.
    pub closed spec fn spec_value(&self) -> Seq<char> {
        self.value@
    }

    /// A new random secret of 48 characters.
    pub fn new() -> (r: TelegramWebhookToken)
        ensures
            is_secret(r.spec_value(), 48),
    {
        TelegramWebhookToken { value: random_id(TELEGRAM_WEBHOOK_TOKEN_LEN) }
    }

    /// The secret.
    pub fn value(&self) -> (r: &str)
        ensures
            r@ == self.spec_value(),
    {
        self.value.as_str()
    }

    /// Whether a call that came with `token` in its address is let in: the
    /// token is the secret.
    pub fn admits(&self, token: &str) -> (r: bool)
        ensures
            r == (token@ == self.spec_value()),
    {
        str_eq(self.value.as_str(), token)
    }

    /// The address that Telegram is told to call.
    pub open spec fn spec_public_url(&self, domain_name: Seq<char>, port: u16) -> Seq<char> {
        "https://"@ + domain_name + ":"@ + decimal(port as nat) + "/hooks/telegram/"@
            + self.spec_value()
    }

    /// The address to register with Telegram under this configuration, if
    /// there is one to register: Telegram is configured and the server has a
    /// name under which it is reached. The address is made of that name and
    /// of the port the server listens on.
    pub fn registration(&self, config: &Config) -> (r: Option<String>)
        ensures
            r is Some <==> config.main.telegram is Some && config.main.domain_name is Some,
            r matches Some(url) ==> url@ == self.spec_public_url(
                config.main.domain_name->0@,
                config.main.listen.port,
            ),
    {
        match (&config.main.telegram, &config.main.domain_name) {
            (Some(_), Some(domain_name)) => Some(
                self.public_url(domain_name.as_str(), config.main.listen.port),
            ),
            _ => None,
        }
    }

    /// The address that Telegram is told to call:
    /// `https://<domain>:<port>/hooks/telegram/<secret>`.
    pub fn public_url(&self, domain_name: &str, port: u16) -> (r: String)
        ensures
            r@ == self.spec_public_url(domain_name@, port),
    {
        let digits = u64_to_string(port as u64);
        let r = String::from_str("https://").concat(domain_name).concat(":").concat(
            digits.as_str(),
        ).concat("/hooks/telegram/").concat(self.value.as_str());
        assert(r@ =~= "https://"@ + domain_name@ + ":"@ + decimal(port as nat)
            + "/hooks/telegram/"@ + self.spec_value());
        r
    }
}

} // verus!
