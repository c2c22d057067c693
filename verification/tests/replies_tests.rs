use ftp_engine::replies::{dec_u8, encode_port, reply_text, IpOctets, Reply};

#[test]
fn fixed_reply_texts_are_exact() {
    assert_eq!(reply_text(&Reply::Hello), "220 Hello from a silly ftp server..\r\n");
    assert_eq!(reply_text(&Reply::UserOk), "331 User name okay, need password.\r\n");
    assert_eq!(reply_text(&Reply::PassOk), "230 User logged in, proceed.\r\n");
    assert_eq!(reply_text(&Reply::Bye), "200 bye!\r\n");
    assert_eq!(reply_text(&Reply::SystemType), "215 UNIX Type: L8\r\n");
    assert_eq!(reply_text(&Reply::TypeAscii), "200 Type set to ASCII.\r\n");
    assert_eq!(reply_text(&Reply::TypeBinary), "200 Type set to Binary.\r\n");
    assert_eq!(
        reply_text(&Reply::TypeBad),
        "504 Command not implemented for that parameter.\r\n"
    );
    assert_eq!(reply_text(&Reply::Opening), "150 Open BINARY mode data connection.\r\n");
    assert_eq!(
        reply_text(&Reply::AlreadyOpen),
        "125 Data connection already open; transfer starting.\r\n"
    );
    assert_eq!(reply_text(&Reply::Closing), "226 Closing data connection.\r\n");
}

#[test]
fn passive_reply_spells_out_address_and_port_bytes() {
    let ip = IpOctets { a: 127, b: 0, c: 0, d: 1 };
    assert_eq!(
        reply_text(&Reply::Passive { ip, port: 1234 }),
        "227 Entering Passive Mode (127,0,0,1,4,210)\r\n"
    );
    let ip = IpOctets { a: 255, b: 255, c: 255, d: 255 };
    assert_eq!(
        reply_text(&Reply::Passive { ip, port: 65535 }),
        "227 Entering Passive Mode (255,255,255,255,255,255)\r\n"
    );
    let ip = IpOctets { a: 0, b: 0, c: 0, d: 0 };
    assert_eq!(
        reply_text(&Reply::Passive { ip, port: 0 }),
        "227 Entering Passive Mode (0,0,0,0,0,0)\r\n"
    );
}

#[test]
fn decimal_rendering_is_exact() {
    assert_eq!(dec_u8(0), "0");
    assert_eq!(dec_u8(9), "9");
    assert_eq!(dec_u8(10), "10");
    assert_eq!(dec_u8(99), "99");
    assert_eq!(dec_u8(100), "100");
    assert_eq!(dec_u8(210), "210");
    assert_eq!(dec_u8(255), "255");
}

#[test]
fn port_encoding_round_trips() {
    for p in [0u16, 1, 255, 256, 1234, 2121, 32768, 65535] {
        let (hi, lo) = encode_port(p);
        assert_eq!(hi as u32 * 256 + lo as u32, p as u32);
    }
    assert_eq!(encode_port(0), (0, 0));
    assert_eq!(encode_port(256), (1, 0));
    assert_eq!(encode_port(65535), (255, 255));
}
