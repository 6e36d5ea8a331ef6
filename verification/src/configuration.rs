//! Application settings as plain values, and the small pieces of
//! configuration logic worth verifying: address formatting and environment
//! parsing. Reading configuration files and environment variables is I/O and
//! lives with the binary, which fills these structs and hands them in.

use vstd::prelude::*;

use crate::hexstr::hex_digit_char;
use crate::secret::SecretString;
use vstd::string::StringExecFns;

verus! {

broadcast use vstd::string::group_string_axioms;

/// The process-wide secret the HMAC error-tag codec signs with.
pub struct HmacSecret(pub SecretString);

impl View for HmacSecret {
    type V = Seq<char>;

    open spec fn view(&self) -> Seq<char> {
        self.0@
    }
}

/// Settings for the app's HTTP endpoint.
pub struct AppSettings {
    pub host: String,
    pub port: u16,
    pub hmac_secret: SecretString,
}

/// Settings for the database connection.
pub struct DatabaseSettings {
    pub username: String,
    pub password: SecretString,
    pub port: u16,
    pub host: String,
    pub database_name: String,
    pub require_ssl: bool,
}

/// Settings for the app.
pub struct Settings {
    pub database: DatabaseSettings,
    pub app: AppSettings,
    pub redis_uri: SecretString,
}

/// The decimal rendering of a number, most significant digit first, no
/// leading zeros (a single zero for zero).
pub open spec fn dec_digits_of(n: nat) -> Seq<char>
    decreases n,
{
    if n < 10 {
        seq![hex_digit_char(n as u8)]
    } else {
        dec_digits_of(n / 10).push(hex_digit_char((n % 10) as u8))
    }
}

/// Appends the decimal rendering of `v` to `out`.
pub fn push_u16_decimal(out: &mut String, v: u16)
    ensures
        final(out)@ == old(out)@ + dec_digits_of(v as nat),
    decreases v,
{
    if v >= 10 {
        push_u16_decimal(out, v / 10);
    }
    let d: u8 = (v % 10) as u8;
    let c = crate::hexstr::hex_digit_exec(d);
    out.push(c);
    proof {
        if v < 10 {
            assert(old(out)@ + dec_digits_of(v as nat) =~= final(out)@);
        } else {
            assert(dec_digits_of(v as nat) == dec_digits_of((v / 10) as nat).push(
                hex_digit_char((v % 10) as u8),
            ));
            assert(old(out)@ + dec_digits_of(v as nat) =~= final(out)@);
        }
    }
}

impl Settings {
    /// The `host:port` address the server should bind.
    pub fn get_address(&self) -> (r: String)
        ensures
            r@ == self.app.host@ + seq![':'] + dec_digits_of(self.app.port as nat),
    {
        let mut out = self.app.host.clone();
        out.push(':');
        push_u16_decimal(&mut out, self.app.port);
        proof {
            assert(self.app.host@.push(':') =~= self.app.host@ + seq![':']);
        }
        out
    }
}

/// The environment the app runs under; decides which configuration file is
/// read on top of the base one.
#[derive(Debug)]
pub enum Environment {
    Local,
    Prod,
}

/// The canonical name of each environment.
pub open spec fn spec_environment_name(e: Environment) -> Seq<char> {
    match e {
        Environment::Local => "local"@,
        Environment::Prod => "prod"@,
    }
}

/// The Unicode lowercasing of a string; a function of the characters alone.
pub uninterp spec fn lowercased_of(s: Seq<char>) -> Seq<char>;

/// Relies on std's `str::to_lowercase`: the Unicode lowercase mapping,
/// which depends only on the characters of the input.
#[verifier::external_body]
fn to_lowercase_string(s: &str) -> (r: String)
    ensures
        r@ == lowercased_of(s@),
{
    s.to_lowercase()
}

impl Environment {
    /// The environment's canonical name.
    pub fn as_str(&self) -> (r: &'static str)
        ensures
            r@ == spec_environment_name(*self),
    {
        match self {
            Environment::Local => "local",
            Environment::Prod => "prod",
        }
    }

    /// The name of the environment's configuration file.
    pub fn as_filename(&self) -> (r: String)
        ensures
            r@ == spec_environment_name(*self) + ".yml"@,
    {
        self.as_str().to_owned().concat(".yml")
    }

    /// Parses an environment name, lowercasing it first: `local` selects
    /// `Local`; `prod` and `production` select `Prod`; anything else is
    /// rejected with a message naming the input.
    pub fn parse(value: &str) -> (r: Result<Environment, String>)
        ensures
            lowercased_of(value@) == "local"@ ==> r == Ok::<Environment, String>(
                Environment::Local,
            ),
            lowercased_of(value@) == "prod"@ || lowercased_of(value@) == "production"@ ==> r
                == Ok::<Environment, String>(Environment::Prod),
            r is Err <==> lowercased_of(value@) != "local"@ && lowercased_of(value@) != "prod"@
                && lowercased_of(value@) != "production"@,
            r matches Err(m) ==> m@ == value@
                + " is not a supported environment. Supported environments: [`local`, `prod`, `production`]"@,
    {
        proof {
            reveal_strlit("local");
            reveal_strlit("prod");
            reveal_strlit("production");
            assert("local"@.len() == 5);
            assert("prod"@.len() == 4);
            assert("production"@.len() == 10);
        }
        let lower = to_lowercase_string(value);
        let lit_local = String::from_str("local");
        let lit_prod = String::from_str("prod");
        let lit_production = String::from_str("production");
        let is_local = lower.eq(&lit_local);
        let is_prod = lower.eq(&lit_prod);
        let is_production = lower.eq(&lit_production);
        if is_local {
            Ok(Environment::Local)
        } else if is_prod || is_production {
            Ok(Environment::Prod)
        } else {
            Err(
                value.to_owned().concat(
                    " is not a supported environment. Supported environments: [`local`, `prod`, `production`]",
                ),
            )
        }
    }
}

} // verus!
