//! Where the store is: the credentials and the address, and the connection
//! string made of them.

use vstd::prelude::*;
use vstd::string::StringExecFns;

verus! {

/// The credentials and the address of the store.
#[derive(Debug, PartialEq, Eq)]
pub struct Config {
    pub user: String,
    pub pass: String,
    pub host: String,
    pub port: u16,
    pub database: String,
}

/// The decimal digit of `d`, for `d` below ten.
pub open spec fn digit(d: nat) -> char {
    (d + 48) as char
}

/// `n` in decimal digits, without leading zeros.
pub open spec fn decimal(n: nat) -> Seq<char>
    decreases n,
{
    if n < 10 {
        seq![digit(n)]
    } else {
        decimal(n / 10).push(digit(n % 10))
    }
}

/// The connection string of a store: the scheme, the user and the password
/// with a colon between them, an `@`, the host and the port with a colon
/// between them, a slash, and the database.
pub open spec fn url_of(
    user: Seq<char>,
    pass: Seq<char>,
    host: Seq<char>,
    port: u16,
    database: Seq<char>,
) -> Seq<char> {
    "postgresql://"@ + user + seq![':'] + pass + seq!['@'] + host + seq![':'] + decimal(
        port as nat,
    ) + seq!['/'] + database
}

/// The decimal digit of `d` as a text.
fn digit_text(d: u16) -> (text: &'static str)
    requires
        d < 10,
    ensures
        text@ == seq![digit(d as nat)],
{
    proof {
        reveal_strlit("0");
        reveal_strlit("1");
        reveal_strlit("2");
        reveal_strlit("3");
        reveal_strlit("4");
        reveal_strlit("5");
        reveal_strlit("6");
        reveal_strlit("7");
        reveal_strlit("8");
        reveal_strlit("9");
    }
    let text = match d {
        0 => "0",
        1 => "1",
        2 => "2",
        3 => "3",
        4 => "4",
        5 => "5",
        6 => "6",
        7 => "7",
        8 => "8",
        _ => "9",
    };
    assert(text@ =~= seq![digit(d as nat)]);
    text
}

/// `n` in decimal digits, without leading zeros.
fn decimal_text(n: u16) -> (text: String)
    ensures
        text@ == decimal(n as nat),
    decreases n,
{
    if n < 10 {
        String::from_str(digit_text(n))
    } else {
        decimal_text(n / 10).concat(digit_text(n % 10))
    }
}

impl Config {
    /// The connection string of this store.
    pub fn url(&self) -> (url: String)
        ensures
            url@ == url_of(self.user@, self.pass@, self.host@, self.port, self.database@),
    {
        proof {
            reveal_strlit(":");
            reveal_strlit("@");
            reveal_strlit("/");
        }
        let port = decimal_text(self.port);
        String::from_str("postgresql://").concat(self.user.as_str()).concat(":").concat(
            self.pass.as_str(),
        ).concat("@").concat(self.host.as_str()).concat(":").concat(port.as_str()).concat(
            "/",
        ).concat(self.database.as_str())
    }
}

} // verus!
