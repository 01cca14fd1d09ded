//! Configuration of the service: where its stores and its server are, and how
//! its worker buffers.
use vstd::prelude::*;

use zeroize::Zeroizing;

verus! {

/// Text held in a `zeroize::Zeroizing` box, which wipes it when dropped.
#[verifier::external_body]
pub struct ZeroizingText {
    inner: Zeroizing<String>,
}

/// The text that a zeroizing box holds.
pub uninterp spec fn zeroizing_text(z: ZeroizingText) -> Seq<char>;

/// Calls `Zeroizing::new`, which moves the text into the box as it is.
#[verifier::external_body]
fn zeroizing_new(text: String) -> (z: ZeroizingText)
    ensures
        zeroizing_text(z) == text@,
{
    ZeroizingText { inner: Zeroizing::new(text) }
}

/// Calls `Zeroizing`'s `Deref`, which lends the text that the box holds.
#[verifier::external_body]
fn zeroizing_str(z: &ZeroizingText) -> (s: &str)
    ensures
        s@ == zeroizing_text(*z),
{
    z.inner.as_str()
}

/// Calls `Zeroizing`'s `Clone`, which boxes a clone of the text.
#[verifier::external_body]
fn zeroizing_clone(z: &ZeroizingText) -> (c: ZeroizingText)
    ensures
        zeroizing_text(c) == zeroizing_text(*z),
{
    ZeroizingText { inner: z.inner.clone() }
}

/// A secret text, wiped from memory when dropped and never shown in debug output.
pub struct Secret(ZeroizingText);

impl Secret {
    /// The text of the secret.
    pub closed spec fn text(&self) -> Seq<char> {
        zeroizing_text(self.0)
    }

    /// A secret holding the given text.
    pub fn new(text: String) -> (s: Secret)
        ensures
            s.text() == text@,
    {
        Secret(zeroizing_new(text))
    }

    /// The text of the secret.
    pub fn expose(&self) -> (r: &str)
        ensures
            r@ == self.text(),
    {
        zeroizing_str(&self.0)
    }

    /// What debug output shows of a secret: a fixed mask, whatever the text.
    pub fn debug_text(&self) -> (r: String)
        ensures
            r@ == "*************"@,
    {
        String::from_str("*************")
    }
}

impl Clone for Secret {
    /// A secret holding the same text.
    fn clone(&self) -> (s: Secret)
        ensures
            s.text() == self.text(),
    {
        Secret(zeroizing_clone(&self.0))
    }
}

/// Where the column store is, and who connects to it.
pub struct ClickhouseConfig {
    pub address: String,
    pub user: String,
    pub password: Secret,
    pub database: String,
}

/// The decimal digit of a number under ten.
pub open spec fn digit_char(d: nat) -> char {
    if d == 0 {
        '0'
    } else if d == 1 {
        '1'
    } else if d == 2 {
        '2'
    } else if d == 3 {
        '3'
    } else if d == 4 {
        '4'
    } else if d == 5 {
        '5'
    } else if d == 6 {
        '6'
    } else if d == 7 {
        '7'
    } else if d == 8 {
        '8'
    } else {
        '9'
    }
}

/// The decimal writing of a natural number, without leading zeros.
pub open spec fn decimal_text(n: nat) -> Seq<char>
    decreases n,
{
    if n < 10 {
        seq![digit_char(n)]
    } else {
        decimal_text(n / 10).push(digit_char(n % 10))
    }
}

/// The one-character text of a decimal digit.
fn digit_str(d: u16) -> (r: &'static str)
    requires
        d < 10,
    ensures
        r@ == seq![digit_char(d as nat)],
{
    if d == 0 {
        proof { reveal_strlit("0"); }
        "0"
    } else if d == 1 {
        proof { reveal_strlit("1"); }
        "1"
    } else if d == 2 {
        proof { reveal_strlit("2"); }
        "2"
    } else if d == 3 {
        proof { reveal_strlit("3"); }
        "3"
    } else if d == 4 {
        proof { reveal_strlit("4"); }
        "4"
    } else if d == 5 {
        proof { reveal_strlit("5"); }
        "5"
    } else if d == 6 {
        proof { reveal_strlit("6"); }
        "6"
    } else if d == 7 {
        proof { reveal_strlit("7"); }
        "7"
    } else if d == 8 {
        proof { reveal_strlit("8"); }
        "8"
    } else {
        proof { reveal_strlit("9"); }
        "9"
    }
}

/// Appends the decimal writing of a number to a text.
fn append_decimal(out: &mut String, n: u16)
    ensures
        final(out)@ == old(out)@ + decimal_text(n as nat),
    decreases n,
{
    if n >= 10 {
        append_decimal(out, n / 10);
    }
    out.append(digit_str(n % 10));
}

/// Where the server listens.
pub struct GrpcConfig {
    address: String,
    port: u16,
}

impl GrpcConfig {
    /// The host name or address of the server.
    pub closed spec fn spec_address(&self) -> Seq<char> {
        self.address@
    }

    /// The port of the server.
    pub closed spec fn spec_port(&self) -> u16 {
        self.port
    }

    /// A server configuration for the given host and port.
    pub fn new(address: String, port: u16) -> (c: GrpcConfig)
        ensures
            c.spec_address() == address@,
            c.spec_port() == port,
    {
        GrpcConfig { address, port }
    }

    /// The host name or address of the server.
    pub fn address(&self) -> (r: &String)
        ensures
            r@ == self.spec_address(),
    {
        &self.address
    }

    /// The port of the server.
    pub fn port(&self) -> (r: u16)
        ensures
            r == self.spec_port(),
    {
        self.port
    }

    /// The socket address of the server as text: the host, a colon and the port
    /// in decimal.
    pub fn uri_text(&self) -> (r: String)
        ensures
            r@ == self.spec_address() + ":"@ + decimal_text(self.spec_port() as nat),
    {
        let mut r = String::from_str(self.address.as_str());
        r.append(":");
        append_decimal(&mut r, self.port);
        r
    }
}

/// Where the buffer store is, who connects to it, and how many entries it
/// flushes at once.
pub struct RedisConfig {
    address: String,
    user: String,
    password: String,
    database: String,
    batch_capacity: usize,
}

impl RedisConfig {
    /// The host and port of the store.
    pub closed spec fn spec_address(&self) -> Seq<char> {
        self.address@
    }

    /// The user that connects.
    pub closed spec fn spec_user(&self) -> Seq<char> {
        self.user@
    }

    /// The password of the user.
    pub closed spec fn spec_password(&self) -> Seq<char> {
        self.password@
    }

    /// How many entries the store flushes at once.
    pub closed spec fn spec_batch_capacity(&self) -> usize {
        self.batch_capacity
    }

    /// The name of the database.
    pub closed spec fn spec_database(&self) -> Seq<char> {
        self.database@
    }

    /// A store configuration from its parts.
    pub fn new(
        address: String,
        user: String,
        password: String,
        database: String,
        batch_capacity: usize,
    ) -> (c: RedisConfig)
        ensures
            c.spec_address() == address@,
            c.spec_user() == user@,
            c.spec_password() == password@,
            c.spec_database() == database@,
            c.spec_batch_capacity() == batch_capacity,
    {
        RedisConfig { address, user, password, database, batch_capacity }
    }

    /// The host and port of the store.
    pub fn address(&self) -> (r: &String)
        ensures
            r@ == self.spec_address(),
    {
        &self.address
    }

    /// The user that connects.
    pub fn user(&self) -> (r: &String)
        ensures
            r@ == self.spec_user(),
    {
        &self.user
    }

    /// The password of the user.
    pub fn password(&self) -> (r: &String)
        ensures
            r@ == self.spec_password(),
    {
        &self.password
    }

    /// The name of the database.
    pub fn database(&self) -> (r: &String)
        ensures
            r@ == self.spec_database(),
    {
        &self.database
    }

    /// How many entries the store flushes at once.
    pub fn batch_capacity(&self) -> (r: usize)
        ensures
            r == self.spec_batch_capacity(),
    {
        self.batch_capacity
    }

    /// The connection address of the store: `redis://`, the user, a colon, the
    /// password, `@` and the address.
    pub open spec fn spec_uri(&self) -> Seq<char> {
        "redis://"@ + self.spec_user() + ":"@ + self.spec_password() + "@"@ + self.spec_address()
    }

    /// The connection address of the store: `redis://`, the user, a colon, the
    /// password, `@` and the address.
    pub fn uri(&self) -> (r: String)
        ensures
            r@ == self.spec_uri(),
            r@ == "redis://"@ + self.spec_user() + ":"@ + self.spec_password() + "@"@
                + self.spec_address(),
    {
        let mut r = String::from_str("redis://");
        r.append(self.user.as_str());
        r.append(":");
        r.append(self.password.as_str());
        r.append("@");
        r.append(self.address.as_str());
        r
    }
}

/// How the worker buffers incoming entries and how often it flushes.
pub struct WorkerConfig {
    pub buffer_size: usize,
    pub flush_interval_seconds: u64,
}

/// The configuration of the whole service.
pub struct AppConfig {
    pub clickhouse: ClickhouseConfig,
    pub grpc: GrpcConfig,
    pub redis: RedisConfig,
    pub worker: WorkerConfig,
}

/// The number that a text of decimal digits writes, read from left to right:
/// each character stands for its code point less that of `0`.
pub open spec fn decimal_value(text: Seq<char>) -> int
    decreases text.len(),
{
    if text.len() == 0 {
        0
    } else {
        decimal_value(text.drop_last()) * 10 + ((text.last() as int) - ('0' as int))
    }
}

/// Whether every character of a text is a decimal digit `0` to `9`.
pub open spec fn all_decimal_digits(text: Seq<char>) -> bool {
    forall|i: int| 0 <= i < text.len() ==> '0' <= #[trigger] text[i] <= '9'
}

proof fn lemma_digit_char_value(d: nat)
    requires
        d < 10,
    ensures
        (digit_char(d) as int) - ('0' as int) == d,
        '0' <= digit_char(d) <= '9',
{
}

/// The decimal writing of a number is made of digits only, and reads back as
/// that number: whatever the port, its text names the same port.
pub proof fn lemma_decimal_text_reads_back(n: nat)
    ensures
        all_decimal_digits(decimal_text(n)),
        decimal_value(decimal_text(n)) == n,
        decimal_text(n).len() > 0,
    decreases n,
{
    if n < 10 {
        lemma_digit_char_value(n);
        let t = decimal_text(n);
        assert(t.drop_last() =~= Seq::<char>::empty());
        assert(decimal_value(t.drop_last()) == 0);
        assert(t.last() == digit_char(n));
        assert(decimal_value(t) == decimal_value(t.drop_last()) * 10 + ((t.last() as int) - ('0' as int)));
    } else {
        lemma_decimal_text_reads_back(n / 10);
        lemma_digit_char_value(n % 10);
        let t = decimal_text(n);
        assert(t.drop_last() =~= decimal_text(n / 10));
        assert(t.last() == digit_char(n % 10));
        assert(decimal_value(t) == decimal_value(t.drop_last()) * 10 + ((t.last() as int) - ('0' as int)));
        assert(n == (n / 10) * 10 + n % 10);
        assert forall|i: int| 0 <= i < t.len() implies '0' <= #[trigger] t[i] <= '9' by {
            if i < t.len() - 1 {
                assert(t[i] == t.drop_last()[i]);
            }
        }
    }
}

/// The listen address of a server ends, after its host and a colon, with a text
/// of digits that reads back as the configured port.
pub proof fn lemma_uri_text_port_reads_back(config: GrpcConfig)
    ensures
        ({
            let text = config.spec_address() + ":"@ + decimal_text(config.spec_port() as nat);
            let port_text = text.subrange((config.spec_address().len() + ":"@.len()) as int, text.len() as int);
            &&& all_decimal_digits(port_text)
            &&& decimal_value(port_text) == config.spec_port()
        }),
{
    let head = config.spec_address() + ":"@;
    let digits = decimal_text(config.spec_port() as nat);
    let text = head + digits;
    assert(text.subrange(head.len() as int, text.len() as int) =~= digits);
    lemma_decimal_text_reads_back(config.spec_port() as nat);
}

} // verus!
