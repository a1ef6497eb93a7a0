//! The data channel of one connection: how it was set up, what it carries
//! and how far the transfer has come.

use vstd::prelude::*;

verus! {

/// How the data channel comes about. `S` is the caller's stream, `L` its
/// listener; nothing here looks inside either.
#[derive(Debug)]
pub enum TransferMode<S, L> {
    /// The server dialled the address that PORT named.
    Port(S),
    /// The client dialled the address that PASV answered.
    Passive(S),
    /// PASV was answered and the client has not dialled yet.
    PendingPassive(L),
}

/// The data channel of a connection and the state of the transfer on it.
#[derive(Debug)]
pub struct TransferSession<S, L> {
    pub mode: TransferMode<S, L>,
    pub total_size: u64,
    pub finished_size: u64,
    pub file_name: Vec<u8>,
    pub finished: bool,
    pub aborted: bool,
    pub offset: u64,
}

/// A session with the file's name as a sequence of bytes.
pub struct SessionView<S, L> {
    pub mode: TransferMode<S, L>,
    pub total_size: u64,
    pub finished_size: u64,
    pub file_name: Seq<u8>,
    pub finished: bool,
    pub aborted: bool,
    pub offset: u64,
}

impl<S, L> View for TransferSession<S, L> {
    type V = SessionView<S, L>;

    open spec fn view(&self) -> SessionView<S, L> {
        SessionView {
            mode: self.mode,
            total_size: self.total_size,
            finished_size: self.finished_size,
            file_name: self.file_name@,
            finished: self.finished,
            aborted: self.aborted,
            offset: self.offset,
        }
    }
}

impl<S, L> SessionView<S, L> {
    /// The session as PORT or PASV leaves it.
    pub open spec fn fresh(mode: TransferMode<S, L>) -> Self {
        SessionView {
            mode,
            total_size: 0,
            finished_size: 0,
            file_name: Seq::empty(),
            finished: false,
            aborted: false,
            offset: 0,
        }
    }

    /// Whether a stream stands ready to carry data.
    pub open spec fn ready(self) -> bool {
        self.mode is Port || self.mode is Passive
    }

    /// The stream, once there is one.
    pub open spec fn stream(self) -> Option<S> {
        match self.mode {
            TransferMode::Port(s) => Some(s),
            TransferMode::Passive(s) => Some(s),
            TransferMode::PendingPassive(_) => None,
        }
    }
}

impl<S, L> TransferSession<S, L> {
    /// A session on which nothing has happened yet.
    pub fn new(mode: TransferMode<S, L>) -> (session: Self)
        ensures
            session@ == SessionView::fresh(mode),
    {
        Self {
            mode,
            total_size: 0,
            finished_size: 0,
            file_name: Vec::new(),
            finished: false,
            aborted: false,
            offset: 0,
        }
    }

    /// The stream of the data channel, once there is one.
    pub fn get_stream(&self) -> (stream: Option<&S>)
        ensures
            match stream {
                Some(s) => self@.stream() == Some(*s),
                None => self@.stream() is None,
            },
    {
        match &self.mode {
            TransferMode::Port(stream) => Some(stream),
            TransferMode::Passive(stream) => Some(stream),
            TransferMode::PendingPassive(_) => None,
        }
    }

    /// The listener on which the client is awaited, while it is.
    pub fn get_listener(&self) -> (listener: Option<&L>)
        ensures
            match listener {
                Some(l) => self.mode == TransferMode::<S, L>::PendingPassive(*l),
                None => self@.ready(),
            },
    {
        match &self.mode {
            TransferMode::PendingPassive(listener) => Some(listener),
            _ => None,
        }
    }
}

} // verus!
