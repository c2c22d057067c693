use ftp_engine::channel::Channel;
use ftp_engine::replies::{reply_text, IpOctets, Reply, TransferType};
use ftp_engine::session::{Action, Event, Phase, Session};

fn line(s: &str) -> Event {
    Event::Line(s.to_string())
}

fn addr() -> IpOctets {
    IpOctets { a: 127, b: 0, c: 0, d: 1 }
}

fn logged_in() -> Session {
    let mut s = Session::new();
    assert_eq!(s.step(Event::Start), vec![Action::Send(Reply::Hello), Action::ReadLine]);
    assert_eq!(s.step(line("USER a")), vec![Action::Send(Reply::UserOk), Action::ReadLine]);
    assert_eq!(s.step(line("PASS b")), vec![Action::Send(Reply::PassOk), Action::ReadLine]);
    assert_eq!(s.phase, Phase::Idle);
    s
}

#[test]
fn scenario_login_syst_quit() {
    let mut s = Session::new();
    let greeting = s.step(Event::Start);
    assert_eq!(greeting, vec![Action::Send(Reply::Hello), Action::ReadLine]);
    assert_eq!(reply_text(&Reply::Hello), "220 Hello from a silly ftp server..\r\n");

    let user = s.step(line("USER a"));
    assert_eq!(user, vec![Action::Send(Reply::UserOk), Action::ReadLine]);
    assert_eq!(reply_text(&Reply::UserOk), "331 User name okay, need password.\r\n");

    let pass = s.step(line("PASS b"));
    assert_eq!(pass, vec![Action::Send(Reply::PassOk), Action::ReadLine]);
    assert_eq!(reply_text(&Reply::PassOk), "230 User logged in, proceed.\r\n");

    let syst = s.step(line("SYST"));
    assert_eq!(syst, vec![Action::Send(Reply::SystemType), Action::ReadLine]);
    assert_eq!(reply_text(&Reply::SystemType), "215 UNIX Type: L8\r\n");

    let quit = s.step(line("QUIT"));
    assert_eq!(quit, vec![Action::Send(Reply::Bye), Action::CloseSession]);
    assert_eq!(reply_text(&Reply::Bye), "200 bye!\r\n");
    assert_eq!(s.phase, Phase::Done);
}

#[test]
fn scenario_bad_type_keeps_session_open() {
    let mut s = logged_in();
    let bad = s.step(line("TYPE Q"));
    assert_eq!(bad, vec![Action::Send(Reply::TypeBad), Action::ReadLine]);
    assert_eq!(
        reply_text(&Reply::TypeBad),
        "504 Command not implemented for that parameter.\r\n"
    );
    assert_eq!(s.phase, Phase::Idle);
    let syst = s.step(line("SYST"));
    assert_eq!(syst, vec![Action::Send(Reply::SystemType), Action::ReadLine]);
}

#[test]
fn scenario_passive_upload() {
    let mut s = logged_in();
    let pasv = s.step(line("PASV"));
    assert_eq!(pasv, vec![Action::BindData]);
    assert_eq!(s.phase, Phase::PasvBinding);

    let bound = s.step(Event::Bound { ip: addr(), port: 1234 });
    assert_eq!(
        bound,
        vec![Action::Send(Reply::Passive { ip: addr(), port: 1234 }), Action::ReadLine]
    );
    assert_eq!(
        reply_text(&Reply::Passive { ip: addr(), port: 1234 }),
        "227 Entering Passive Mode (127,0,0,1,4,210)\r\n"
    );
    assert_eq!(s.st.channel, Channel::Listening { ip: addr(), port: 1234 });

    let stor = s.step(line("STOR /tmp/out.bin"));
    assert_eq!(
        stor,
        vec![
            Action::OpenFile("/tmp/out.bin".to_string()),
            Action::Send(Reply::Opening),
            Action::ReceiveIntoFile,
        ]
    );
    assert_eq!(reply_text(&Reply::Opening), "150 Open BINARY mode data connection.\r\n");
    assert_eq!(s.st.channel, Channel::Transferring { ip: addr(), port: 1234 });

    let done = s.step(Event::TransferDone);
    assert_eq!(done, vec![Action::Send(Reply::Closing), Action::ReadLine]);
    assert_eq!(reply_text(&Reply::Closing), "226 Closing data connection.\r\n");
    assert_eq!(s.st.channel, Channel::Closed);
    assert_eq!(s.phase, Phase::Idle);
}

#[test]
fn scenario_unknown_verb_is_ignored() {
    let mut s = logged_in();
    let foo = s.step(line("FOO"));
    assert_eq!(foo, vec![Action::ReadLine]);
    assert_eq!(s.phase, Phase::Idle);
    let syst = s.step(line("SYST"));
    assert_eq!(syst, vec![Action::Send(Reply::SystemType), Action::ReadLine]);
}

#[test]
fn type_command_sets_the_transfer_flag() {
    let mut s = logged_in();
    assert_eq!(s.st.ttype, TransferType::Binary);
    assert_eq!(s.step(line("TYPE A")), vec![Action::Send(Reply::TypeAscii), Action::ReadLine]);
    assert_eq!(s.st.ttype, TransferType::Ascii);
    assert_eq!(s.step(line("TYPE I")), vec![Action::Send(Reply::TypeBinary), Action::ReadLine]);
    assert_eq!(s.st.ttype, TransferType::Binary);
    assert_eq!(reply_text(&Reply::TypeAscii), "200 Type set to ASCII.\r\n");
    assert_eq!(reply_text(&Reply::TypeBinary), "200 Type set to Binary.\r\n");
}

#[test]
fn handshake_out_of_order_drops_the_session() {
    let mut s = Session::new();
    s.step(Event::Start);
    assert_eq!(s.step(line("PASS b")), vec![Action::CloseSession]);
    assert_eq!(s.phase, Phase::Done);

    let mut s = Session::new();
    s.step(Event::Start);
    s.step(line("USER a"));
    assert_eq!(s.step(line("SYST")), vec![Action::CloseSession]);
    assert_eq!(s.phase, Phase::Done);
}

#[test]
fn listing_binds_when_no_channel_exists() {
    let mut s = logged_in();
    assert_eq!(s.step(line("LIST")), vec![Action::BindData]);
    assert_eq!(s.step(Event::Bound { ip: addr(), port: 2020 }), vec![Action::SendListing]);
    assert_eq!(s.st.channel, Channel::Transferring { ip: addr(), port: 2020 });
    assert_eq!(
        s.step(Event::ListingDone),
        vec![Action::Send(Reply::Closing), Action::ReadLine]
    );
    assert_eq!(s.st.channel, Channel::Closed);
    assert_eq!(s.phase, Phase::Idle);
}

#[test]
fn listing_reuses_an_open_channel() {
    let mut s = logged_in();
    s.step(line("PASV"));
    s.step(Event::Bound { ip: addr(), port: 2020 });
    let list = s.step(line("LIST"));
    assert_eq!(list, vec![Action::Send(Reply::AlreadyOpen), Action::SendListing]);
    assert_eq!(
        reply_text(&Reply::AlreadyOpen),
        "125 Data connection already open; transfer starting.\r\n"
    );
}

#[test]
fn upload_without_a_listening_channel_is_fatal() {
    let mut s = logged_in();
    assert_eq!(s.step(line("STOR /tmp/x")), vec![Action::CloseSession]);
    assert_eq!(s.phase, Phase::Done);
}

#[test]
fn io_failure_ends_the_session_and_done_absorbs_events() {
    let mut s = logged_in();
    assert_eq!(s.step(Event::IoFailure), vec![Action::CloseSession]);
    assert_eq!(s.phase, Phase::Done);
    assert_eq!(s.step(line("SYST")), Vec::<Action>::new());
    assert_eq!(s.step(Event::Start), Vec::<Action>::new());
}
