//! The interactive session: the message log, the line being typed, the
//! dialog on screen and the outbound link to the peer. Keys, parsed commands
//! and events from the network thread drive it; each step returns the side
//! effects for the caller to perform, in order.

use vstd::prelude::*;
use vstd::string::StringExecFns;

use crate::dialog::{DialogState, PendingDecision};
use crate::network::{Connection, ConnectionState, IpAddress};
use crate::protocol::{
    chat_fits, chat_frame, decode_handshake, file_fits, file_frame, File, Message, ProtocolError,
    ProtocolMessage, NAME_FIELD_LEN,
};
use crate::ChannelMessage;

verus! {

/// Whether a log entry was received from the peer or sent to it.
#[derive(Debug, Clone, Copy, PartialEq, Eq, Structural)]
pub enum MsgType {
    Recv,
    Sent,
}

/// A key press, as far as the session tells keys apart.
#[derive(Debug, Clone, Copy, PartialEq, Eq, Structural)]
pub enum Key {
    Enter,
    Left,
    Right,
    Backspace,
    Char(char),
    /// A character typed with the control key held.
    Ctrl(char),
    Other,
}

/// A typed line that parsed as a command.
#[derive(Debug)]
pub enum UserCommand {
    Connect(IpAddress),
    Disconnect,
    File(String),
    Quit,
}

/// A side effect for the caller to perform.
#[derive(Debug)]
pub enum UiAction {
    /// Send this command to the network thread.
    Send(ChannelMessage),
    /// Connect to the peer at this address, write the link's handshake, read
    /// the nine-byte reply and hand it to `connect_finished`.
    Connect(IpAddress),
    /// Write these bytes on the outbound stream.
    Write(Vec<u8>),
    /// Close the outbound stream.
    CloseLink,
    /// Read the file at this path and hand its name and bytes to `send_file`.
    SendFile(String),
    /// Save this file in the downloads directory.
    SaveFile(File),
    /// Parse this line as a command and hand the result to `on_line`.
    Submit(String),
    /// Leave the program.
    Quit,
}

/// The log text recorded for a file sent or saved.
pub open spec fn file_note() -> Seq<char> {
    "sent a file"@
}

/// A log as plain values.
pub open spec fn log_view(v: Seq<(MsgType, String)>) -> Seq<(MsgType, Seq<char>)> {
    v.map_values(|e: (MsgType, String)| (e.0, e.1@))
}

/// A dialog slot as plain values.
pub open spec fn dialog_view(d: Option<DialogState>) -> Option<(bool, PendingDecision)> {
    match d {
        Some(s) => Some(s@),
        None => None,
    }
}

/// The session as plain values.
pub struct AppView {
    pub state: ConnectionState,
    pub id: u32,
    pub log: Seq<(MsgType, Seq<char>)>,
    pub input: Seq<char>,
    pub dialog: Option<(bool, PendingDecision)>,
}

/// The session once the dialog on screen has been answered, and the effects
/// that the answer asks for. Accepting a peer lets the network thread go on
/// and, unless already linked, connects back to the peer; refusing it tells
/// the network thread to drop it. Accepting a file saves it; a notice only
/// closes.
pub open spec fn resolution(v: AppView) -> (AppView, Seq<UiAction>) {
    let closed = AppView { dialog: None, ..v };
    match v.dialog {
        Some((yes, PendingDecision::ConnectApproval { id, ip })) => if yes {
            if v.state == ConnectionState::Listening {
                (
                    closed,
                    seq![UiAction::Send(ChannelMessage::ConnectAccept), UiAction::Connect(ip)],
                )
            } else {
                (closed, seq![UiAction::Send(ChannelMessage::ConnectAccept)])
            }
        } else {
            (closed, seq![UiAction::Send(ChannelMessage::Disconnect)])
        },
        Some((yes, PendingDecision::FileApproval(f))) => if yes {
            (
                AppView { log: v.log.push((MsgType::Recv, file_note())), ..closed },
                seq![UiAction::SaveFile(f)],
            )
        } else {
            (closed, seq![])
        },
        _ => (closed, seq![]),
    }
}

/// A list of at most two actions is the literal list of its elements.
proof fn lemma_short_list(actions: Seq<UiAction>)
    ensures
        actions.len() == 1 ==> actions == seq![actions[0]],
        actions.len() == 2 ==> actions == seq![actions[0], actions[1]],
{
    if actions.len() == 1 {
        assert(actions =~= seq![actions[0]]);
    }
    if actions.len() == 2 {
        assert(actions =~= seq![actions[0], actions[1]]);
    }
}

/// Relies on `String::push`: the character is added at the end.
#[verifier::external_body]
fn push_char(s: &mut String, c: char)
    ensures
        final(s)@ == old(s)@.push(c),
{
    s.push(c);
}

/// Relies on `String::pop`: the last character, if any, is removed and returned.
#[verifier::external_body]
fn pop_char(s: &mut String) -> (r: Option<char>)
    ensures
        old(s)@.len() == 0 ==> r is None && final(s)@ == old(s)@,
        old(s)@.len() > 0 ==> r == Some(old(s)@.last()) && final(s)@ == old(s)@.drop_last(),
{
    s.pop()
}

/// The interactive side's state.
#[derive(Debug)]
pub struct App {
    link: Connection,
    messages: Vec<(MsgType, String)>,
    input: String,
    dialog: Option<DialogState>,
}

impl View for App {
    type V = AppView;

    closed spec fn view(&self) -> AppView {
        AppView {
            state: self.link.spec_state(),
            id: self.link.spec_local_id(),
            log: log_view(self.messages@),
            input: self.input@,
            dialog: dialog_view(self.dialog),
        }
    }
}

impl App {
    /// A session with nothing logged, no dialog and no peer, for a process
    /// whose id is `id`.
    pub fn new(id: u32) -> (r: Self)
        requires
            id != 0,
        ensures
            r@ == (AppView {
                state: ConnectionState::Listening,
                id,
                log: seq![],
                input: seq![],
                dialog: None,
            }),
    {
        let r = App {
            link: Connection::new(id),
            messages: Vec::new(),
            input: String::new(),
            dialog: None,
        };
        assert(r@.log =~= seq![]);
        r
    }

    pub fn is_connected(&self) -> (r: bool)
        ensures
            r == (self@.state == ConnectionState::Connected),
    {
        self.link.is_connected()
    }

    /// The outbound link.
    pub fn link(&self) -> (r: &Connection)
        ensures
            r.spec_state() == self@.state,
            r.spec_local_id() == self@.id,
    {
        &self.link
    }

    /// The log, oldest entry first.
    pub fn messages(&self) -> (r: &Vec<(MsgType, String)>)
        ensures
            log_view(r@) == self@.log,
    {
        &self.messages
    }

    /// The line being typed.
    pub fn input(&self) -> (r: &String)
        ensures
            r@ == self@.input,
    {
        &self.input
    }

    /// The dialog on screen, if any.
    pub fn dialog(&self) -> (r: &Option<DialogState>)
        ensures
            dialog_view(*r) == self@.dialog,
    {
        &self.dialog
    }

    fn log(&mut self, kind: MsgType, text: String)
        ensures
            final(self)@ == (AppView { log: old(self)@.log.push((kind, text@)), ..old(self)@ }),
    {
        let ghost before = self.messages@;
        self.messages.push((kind, text));
        assert(log_view(self.messages@) =~= log_view(before).push((kind, text@)));
    }

    fn open_dialog(&mut self, decision: PendingDecision)
        ensures
            final(self)@ == (AppView { dialog: Some((false, decision)), ..old(self)@ }),
    {
        self.dialog = Some(DialogState::new(decision));
    }

    /// Handles one event from the network thread. A connection request opens
    /// a dialog unless a peer is already linked, in which case it is accepted
    /// at once; a received file opens a dialog. A `Disconnect` drops the
    /// outbound link but leaves a pending dialog in place: saving a file
    /// needs no connection.
    pub fn on_channel_message(&mut self, msg: ChannelMessage) -> (r: Vec<UiAction>)
        ensures
            match msg {
                ChannelMessage::ConnectRequest(id, ip) => if old(self)@.state
                    == ConnectionState::Connected {
                    &&& r@ == seq![UiAction::Send(ChannelMessage::ConnectAccept)]
                    &&& final(self)@ == old(self)@
                } else {
                    &&& r@ == Seq::<UiAction>::empty()
                    &&& final(self)@ == (AppView {
                        dialog: Some((false, PendingDecision::ConnectApproval { id, ip })),
                        ..old(self)@
                    })
                },
                ChannelMessage::Message(m) => {
                    &&& r@ == Seq::<UiAction>::empty()
                    &&& final(self)@ == (AppView {
                        log: old(self)@.log.push((MsgType::Recv, m@)),
                        ..old(self)@
                    })
                },
                ChannelMessage::File(f) => {
                    &&& r@ == Seq::<UiAction>::empty()
                    &&& final(self)@ == (AppView {
                        dialog: Some((false, PendingDecision::FileApproval(f))),
                        ..old(self)@
                    })
                },
                ChannelMessage::Disconnect => {
                    &&& r@ == seq![UiAction::CloseLink]
                    &&& final(self)@ == (AppView {
                        state: ConnectionState::Listening,
                        ..old(self)@
                    })
                },
                ChannelMessage::ConnectAccept => {
                    &&& r@ == Seq::<UiAction>::empty()
                    &&& final(self)@ == old(self)@
                },
            },
    {
        let mut actions: Vec<UiAction> = Vec::new();
        match msg {
            ChannelMessage::ConnectRequest(id, ip) => {
                if self.link.is_connected() {
                    actions.push(UiAction::Send(ChannelMessage::ConnectAccept));
                } else {
                    self.open_dialog(PendingDecision::ConnectApproval { id, ip });
                }
            },
            ChannelMessage::Message(m) => {
                self.log(MsgType::Recv, m.message());
            },
            ChannelMessage::File(f) => {
                self.open_dialog(PendingDecision::FileApproval(f));
            },
            ChannelMessage::Disconnect => {
                self.link.reset();
                actions.push(UiAction::CloseLink);
            },
            ChannelMessage::ConnectAccept => {},
        }
        proof {
            lemma_short_list(actions@);
        }
        actions
    }

    /// Answers the dialog on screen with the selected answer and closes it.
    fn resolve_dialog(&mut self) -> (r: Vec<UiAction>)
        requires
            old(self)@.dialog is Some,
        ensures
            (final(self)@, r@) == resolution(old(self)@),
    {
        let ghost before = self@;
        let mut actions: Vec<UiAction> = Vec::new();
        let dialog = self.dialog.take();
        if let Some(state) = dialog {
            let (yes, decision) = state.into_parts();
            match decision {
                PendingDecision::ConnectApproval { id, ip } => {
                    if yes {
                        actions.push(UiAction::Send(ChannelMessage::ConnectAccept));
                        if let ConnectionState::Listening = self.link.state() {
                            actions.push(UiAction::Connect(ip));
                        }
                    } else {
                        actions.push(UiAction::Send(ChannelMessage::Disconnect));
                    }
                },
                PendingDecision::FileApproval(f) => {
                    if yes {
                        self.log(MsgType::Recv, String::from_str("sent a file"));
                        actions.push(UiAction::SaveFile(f));
                    }
                },
                PendingDecision::Acknowledge(_) => {},
            }
        }
        proof {
            lemma_short_list(actions@);
        }
        actions
    }

    /// Handles one key press. With a dialog on screen, the arrows switch the
    /// answer and Enter gives it; otherwise keys edit the line and Enter
    /// hands it over to be parsed. Control-C and control-D quit.
    pub fn handle_key(&mut self, key: Key) -> (r: Vec<UiAction>)
        ensures
            match key {
                Key::Enter => match old(self)@.dialog {
                    Some(_) => (final(self)@, r@) == resolution(old(self)@),
                    None => {
                        &&& r@.len() == 1
                        &&& r@[0] matches UiAction::Submit(line) && line@ == old(self)@.input
                        &&& final(self)@ == (AppView { input: seq![], ..old(self)@ })
                    },
                },
                Key::Left | Key::Right => {
                    &&& r@ == Seq::<UiAction>::empty()
                    &&& final(self)@ == match old(self)@.dialog {
                        Some((yes, d)) => AppView { dialog: Some((!yes, d)), ..old(self)@ },
                        None => old(self)@,
                    }
                },
                Key::Ctrl('c') | Key::Ctrl('d') => {
                    &&& r@ == seq![UiAction::Quit]
                    &&& final(self)@ == old(self)@
                },
                Key::Char(c) | Key::Ctrl(c) => {
                    &&& r@ == Seq::<UiAction>::empty()
                    &&& final(self)@ == if old(self)@.dialog is None {
                        AppView { input: old(self)@.input.push(c), ..old(self)@ }
                    } else {
                        old(self)@
                    }
                },
                Key::Backspace => {
                    &&& r@ == Seq::<UiAction>::empty()
                    &&& final(self)@ == if old(self)@.dialog is None && old(self)@.input.len() > 0 {
                        AppView { input: old(self)@.input.drop_last(), ..old(self)@ }
                    } else {
                        old(self)@
                    }
                },
                Key::Other => {
                    &&& r@ == Seq::<UiAction>::empty()
                    &&& final(self)@ == old(self)@
                },
            },
    {
        let mut actions: Vec<UiAction> = Vec::new();
        match key {
            Key::Enter => {
                if self.dialog.is_some() {
                    return self.resolve_dialog();
                }
                let mut line = String::new();
                std::mem::swap(&mut self.input, &mut line);
                actions.push(UiAction::Submit(line));
            },
            Key::Left | Key::Right => {
                if let Some(state) = &mut self.dialog {
                    state.toggle();
                }
            },
            Key::Ctrl('c') | Key::Ctrl('d') => {
                actions.push(UiAction::Quit);
            },
            Key::Char(c) | Key::Ctrl(c) => {
                if self.dialog.is_none() {
                    push_char(&mut self.input, c);
                }
            },
            Key::Backspace => {
                if self.dialog.is_none() {
                    pop_char(&mut self.input);
                }
            },
            Key::Other => {},
        }
        proof {
            lemma_short_list(actions@);
        }
        actions
    }

    /// Acts on a typed line: the command it parsed as, or, if it parsed as
    /// none, a chat message. Commands that need a peer, and chat, do nothing
    /// while none is linked; `Connect` does nothing while one is.
    pub fn on_line(&mut self, command: Option<UserCommand>, line: String) -> (r: Vec<UiAction>)
        ensures
            match command {
                Some(UserCommand::Connect(ip)) => {
                    &&& final(self)@ == old(self)@
                    &&& r@ == if old(self)@.state == ConnectionState::Listening {
                        seq![UiAction::Connect(ip)]
                    } else {
                        Seq::<UiAction>::empty()
                    }
                },
                Some(UserCommand::Disconnect) => if old(self)@.state
                    == ConnectionState::Connected {
                    &&& r@ == seq![UiAction::Send(ChannelMessage::Disconnect), UiAction::CloseLink]
                    &&& final(self)@ == (AppView {
                        state: ConnectionState::Listening,
                        ..old(self)@
                    })
                } else {
                    &&& r@ == Seq::<UiAction>::empty()
                    &&& final(self)@ == old(self)@
                },
                Some(UserCommand::File(path)) => {
                    &&& final(self)@ == old(self)@
                    &&& r@ == if old(self)@.state == ConnectionState::Connected {
                        seq![UiAction::SendFile(path)]
                    } else {
                        Seq::<UiAction>::empty()
                    }
                },
                Some(UserCommand::Quit) => {
                    &&& r@ == seq![UiAction::Quit]
                    &&& final(self)@ == old(self)@
                },
                None => if old(self)@.state == ConnectionState::Connected && chat_fits(line@) {
                    &&& r@.len() == 1
                    &&& r@[0] matches UiAction::Write(b) && b@ == chat_frame(line@)
                    &&& final(self)@ == (AppView {
                        log: old(self)@.log.push((MsgType::Sent, line@)),
                        ..old(self)@
                    })
                } else {
                    &&& r@ == Seq::<UiAction>::empty()
                    &&& final(self)@ == old(self)@
                },
            },
    {
        let mut actions: Vec<UiAction> = Vec::new();
        match command {
            Some(UserCommand::Connect(ip)) => {
                if let ConnectionState::Listening = self.link.state() {
                    actions.push(UiAction::Connect(ip));
                }
            },
            Some(UserCommand::Disconnect) => {
                if self.link.is_connected() {
                    self.link.reset();
                    actions.push(UiAction::Send(ChannelMessage::Disconnect));
                    actions.push(UiAction::CloseLink);
                }
            },
            Some(UserCommand::File(path)) => {
                if self.link.is_connected() {
                    actions.push(UiAction::SendFile(path));
                }
            },
            Some(UserCommand::Quit) => {
                actions.push(UiAction::Quit);
            },
            None => {
                if self.link.is_connected() && line.as_str().as_bytes().len() <= u32::MAX as usize {
                    let text = line.clone();
                    let message = ProtocolMessage::Message(Message::new(line));
                    if let Ok(bytes) = self.link.send(&message) {
                        actions.push(UiAction::Write(bytes));
                        self.log(MsgType::Sent, text);
                    }
                }
            },
        }
        proof {
            lemma_short_list(actions@);
        }
        actions
    }

    /// Completes a `Connect`: `reply` is what the peer answered to the
    /// link's handshake (`None`: connecting or reading failed). Returns
    /// whether the peer is now linked; if not, a notice says why.
    pub fn connect_finished(&mut self, reply: Option<Vec<u8>>) -> (r: bool)
        ensures
            r == (reply matches Some(b) && decode_handshake(b@) == Ok::<u32, ProtocolError>(
                old(self)@.id,
            )),
            r ==> final(self)@ == (AppView { state: ConnectionState::Connected, ..old(self)@ }),
            !r ==> final(self)@ == (AppView {
                state: ConnectionState::Listening,
                dialog: Some(
                    (
                        false,
                        PendingDecision::Acknowledge(
                            match reply {
                                None => ProtocolError::ConnectionFailed,
                                Some(b) => match decode_handshake(b@) {
                                    Err(e) => e,
                                    Ok(_) => ProtocolError::HandshakeRejected,
                                },
                            },
                        ),
                    ),
                ),
                ..old(self)@
            }),
    {
        self.link.reset();
        match self.link.initiate_reply(reply) {
            Ok(()) => true,
            Err(e) => {
                self.open_dialog(PendingDecision::Acknowledge(e));
                false
            },
        }
    }

    /// Completes a `SendFile`: the name and bytes of the file read. The file
    /// is sent if a peer is linked and it fits a frame.
    pub fn send_file(&mut self, name: String, data: Vec<u8>) -> (r: Vec<UiAction>)
        ensures
            if old(self)@.state == ConnectionState::Connected && file_fits(name@, data@) {
                &&& r@.len() == 1
                &&& r@[0] matches UiAction::Write(b) && b@ == file_frame(name@, data@)
                &&& final(self)@ == (AppView {
                    log: old(self)@.log.push((MsgType::Sent, file_note())),
                    ..old(self)@
                })
            } else {
                &&& r@ == Seq::<UiAction>::empty()
                &&& final(self)@ == old(self)@
            },
    {
        let mut actions: Vec<UiAction> = Vec::new();
        if self.link.is_connected() && name.as_str().as_bytes().len() <= NAME_FIELD_LEN
            && data.len() <= (u32::MAX as usize) - NAME_FIELD_LEN {
            let message = ProtocolMessage::File(File::new(name, data));
            if let Ok(bytes) = self.link.send(&message) {
                actions.push(UiAction::Write(bytes));
                self.log(MsgType::Sent, String::from_str("sent a file"));
            }
        }
        proof {
            lemma_short_list(actions@);
        }
        actions
    }
}

} // verus!