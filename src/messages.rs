use vstd::prelude::*;

use crate::text::push_str;

verus! {

/// Backend messages that authentication writes to the client.
#[derive(Debug)]
pub enum BeMessage {
    AuthenticationOk,
    /// `ParameterStatus` with `client_encoding` set to `UTF8`.
    ClientEncodingUtf8,
    NoticeResponse(String),
}

/// What a backend message says, as mathematical values.
pub enum BeMessageView {
    AuthenticationOk,
    ClientEncodingUtf8,
    NoticeResponse(Seq<char>),
}

impl View for BeMessage {
    type V = BeMessageView;

    open spec fn view(&self) -> BeMessageView {
        match self {
            BeMessage::AuthenticationOk => BeMessageView::AuthenticationOk,
            BeMessage::ClientEncodingUtf8 => BeMessageView::ClientEncodingUtf8,
            BeMessage::NoticeResponse(s) => BeMessageView::NoticeResponse(s@),
        }
    }
}

/// The greeting that sends the user to the console to confirm the session.
pub open spec fn greeting_text(redirect_uri: Seq<char>, session_id: Seq<char>) -> Seq<char> {
    "Welcome to Neon!\nAuthenticate by visiting:\n    "@ + redirect_uri + session_id + "\n\n"@
}

/// The notice sent once the console has confirmed the session.
pub open spec fn connecting_text() -> Seq<char> {
    "Connecting to database."@
}

pub fn hello_message(redirect_uri: &str, session_id: &str) -> (r: String)
    ensures
        r@ == greeting_text(redirect_uri@, session_id@),
{
    let mut s = "Welcome to Neon!\nAuthenticate by visiting:\n    ".to_owned();
    push_str(&mut s, redirect_uri);
    push_str(&mut s, session_id);
    push_str(&mut s, "\n\n");
    s
}

pub fn connecting_notice() -> (r: BeMessage)
    ensures
        r@ == BeMessageView::NoticeResponse(connecting_text()),
{
    BeMessage::NoticeResponse("Connecting to database.".to_owned())
}

} // verus!
