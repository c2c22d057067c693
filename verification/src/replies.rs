//! The replies the server sends on the control connection, and their exact
//! texts, including the passive-mode reply that spells out the data channel's
//! address as four decimal octets and the port's high and low bytes.
use vstd::prelude::*;

verus! {

/// The transfer-type flag a session carries: set by the type-setting command
/// and otherwise unused, since ASCII translation is not implemented.
#[derive(Clone, Copy, Debug, PartialEq, Eq, Structural)]
pub enum TransferType {
    Ascii,
    Binary,
}

/// A host address as its four decimal octets.
#[derive(Clone, Copy, Debug, PartialEq, Eq, Structural)]
pub struct IpOctets {
    pub a: u8,
    pub b: u8,
    pub c: u8,
    pub d: u8,
}

/// One reply on the control connection. The passive-mode reply carries the
/// bound address and port it announces; every other reply is a fixed text.
#[derive(Clone, Copy, Debug, PartialEq, Eq, Structural)]
pub enum Reply {
    /// The greeting sent when a connection is accepted.
    Hello,
    /// The user name was taken; the password is expected next.
    UserOk,
    /// The password was taken; the session is open for commands.
    PassOk,
    /// The parting reply to a quit command.
    Bye,
    /// The fixed system-type reply.
    SystemType,
    /// The passive-mode reply announcing the data channel's address.
    Passive { ip: IpOctets, port: u16 },
    /// The transfer type was set to ASCII.
    TypeAscii,
    /// The transfer type was set to binary.
    TypeBinary,
    /// The transfer-type argument was neither of the two accepted letters.
    TypeBad,
    /// A binary-mode data connection is about to open.
    Opening,
    /// The data connection already exists; the transfer is starting.
    AlreadyOpen,
    /// The data connection is being closed after a transfer.
    Closing,
}

/// Splits an ephemeral port into the high and low bytes announced in a
/// passive-mode reply.
pub fn encode_port(p: u16) -> (r: (u8, u8))
    ensures
        r.0 == p / 256,
        r.1 == p % 256,
        r.0 as int * 256 + r.1 as int == p as int,
{
    ((p / 256) as u8, (p % 256) as u8)
}

/// The character of a single decimal digit.
pub open spec fn dec_digit(d: int) -> char {
    ((48 + d) as u8) as char
}

/// The decimal numeral of a non-negative number, most significant digit
/// first.
pub open spec fn spec_dec(n: int) -> Seq<char>
    decreases n,
{
    if n < 10 {
        seq![dec_digit(n)]
    } else {
        spec_dec(n / 10).push(dec_digit(n % 10))
    }
}

/// Writes a number of at most three digits in decimal.
pub fn dec_u8(n: u8) -> (r: String)
    ensures
        r@ == spec_dec(n as int),
{
    let mut s = String::new();
    if n >= 100 {
        crate::text::push_char(&mut s, (48 + n / 100) as char);
    }
    if n >= 10 {
        crate::text::push_char(&mut s, (48 + (n / 10) % 10) as char);
    }
    crate::text::push_char(&mut s, (48 + n % 10) as char);
    proof {
        if n >= 100 {
            assert(spec_dec(n as int) == spec_dec(n as int / 10).push(dec_digit(n as int % 10)));
            assert(spec_dec(n as int / 10) == spec_dec(n as int / 100).push(
                dec_digit((n as int / 10) % 10),
            )) by {
                assert(n as int / 10 / 10 == n as int / 100);
                assert(n as int / 10 % 10 == (n as int / 10) % 10);
            }
            assert(spec_dec(n as int / 100) =~= seq![dec_digit(n as int / 100)]);
            assert(s@ =~= spec_dec(n as int));
        } else if n >= 10 {
            assert(spec_dec(n as int) == spec_dec(n as int / 10).push(dec_digit(n as int % 10)));
            assert(spec_dec(n as int / 10) =~= seq![dec_digit(n as int / 10)]);
            assert(n as int / 10 == (n as int / 10) % 10);
            assert(s@ =~= spec_dec(n as int));
        } else {
            assert(s@ =~= spec_dec(n as int));
        }
    }
    s
}

/// The exact text of a reply, as it goes out on the control connection.
pub open spec fn spec_reply_text(r: Reply) -> Seq<char> {
    match r {
        Reply::Hello => "220 Hello from a silly ftp server..\r\n"@,
        Reply::UserOk => "331 User name okay, need password.\r\n"@,
        Reply::PassOk => "230 User logged in, proceed.\r\n"@,
        Reply::Bye => "200 bye!\r\n"@,
        Reply::SystemType => "215 UNIX Type: L8\r\n"@,
        Reply::Passive { ip, port } => "227 Entering Passive Mode ("@ + spec_dec(ip.a as int)
            + ","@ + spec_dec(ip.b as int) + ","@ + spec_dec(ip.c as int) + ","@ + spec_dec(
            ip.d as int,
        ) + ","@ + spec_dec(port as int / 256) + ","@ + spec_dec(port as int % 256) + ")\r\n"@,
        Reply::TypeAscii => "200 Type set to ASCII.\r\n"@,
        Reply::TypeBinary => "200 Type set to Binary.\r\n"@,
        Reply::TypeBad => "504 Command not implemented for that parameter.\r\n"@,
        Reply::Opening => "150 Open BINARY mode data connection.\r\n"@,
        Reply::AlreadyOpen => "125 Data connection already open; transfer starting.\r\n"@,
        Reply::Closing => "226 Closing data connection.\r\n"@,
    }
}

/// Renders a reply as the exact line that goes out on the control connection.
pub fn reply_text(r: &Reply) -> (out: String)
    ensures
        out@ == spec_reply_text(*r),
{
    match r {
        Reply::Hello => String::from_str("220 Hello from a silly ftp server..\r\n"),
        Reply::UserOk => String::from_str("331 User name okay, need password.\r\n"),
        Reply::PassOk => String::from_str("230 User logged in, proceed.\r\n"),
        Reply::Bye => String::from_str("200 bye!\r\n"),
        Reply::SystemType => String::from_str("215 UNIX Type: L8\r\n"),
        Reply::Passive { ip, port } => {
            let (hi, lo) = encode_port(*port);
            let mut s = String::from_str("227 Entering Passive Mode (");
            s.append(dec_u8(ip.a).as_str());
            s.append(",");
            s.append(dec_u8(ip.b).as_str());
            s.append(",");
            s.append(dec_u8(ip.c).as_str());
            s.append(",");
            s.append(dec_u8(ip.d).as_str());
            s.append(",");
            s.append(dec_u8(hi).as_str());
            s.append(",");
            s.append(dec_u8(lo).as_str());
            s.append(")\r\n");
            proof {
                assert(s@ =~= spec_reply_text(*r));
            }
            s
        },
        Reply::TypeAscii => String::from_str("200 Type set to ASCII.\r\n"),
        Reply::TypeBinary => String::from_str("200 Type set to Binary.\r\n"),
        Reply::TypeBad => String::from_str("504 Command not implemented for that parameter.\r\n"),
        Reply::Opening => String::from_str("150 Open BINARY mode data connection.\r\n"),
        Reply::AlreadyOpen => String::from_str(
            "125 Data connection already open; transfer starting.\r\n",
        ),
        Reply::Closing => String::from_str("226 Closing data connection.\r\n"),
    }
}

/// Law: the passive-mode port encoding round-trips. For any port, the high
/// byte times 256 plus the low byte gives the port back.
pub proof fn lemma_port_encoding_round_trip(p: u16)
    ensures
        (p / 256) as int * 256 + (p % 256) as int == p as int,
{
}

} // verus!
