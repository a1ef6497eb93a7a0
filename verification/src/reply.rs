//! Replies of the control channel: a status code, a text, and for the
//! replies of several lines what stands between the first and the last.

use crate::commands::HostPort;
use crate::text::{
    append, append_str, bytes_of, crlf, decimal, decimal_value, digit, is_digit, lit,
    push_decimal, COMMA, CR, HYPHEN, LF, QUOTE, SPACE,
};
use vstd::prelude::*;

verus! {

/// A reply of one line, or of several.
#[derive(Debug, Clone, PartialEq, Eq)]
pub struct Reply {
    pub code: u16,
    /// The text of the first line, without the code.
    pub text: Vec<u8>,
    /// The lines between the first and the last, each with its CR LF.
    pub body: Vec<u8>,
    /// The text of the last line, where the reply has more than one.
    pub last: Option<Vec<u8>>,
}

/// A reply with its texts as sequences of bytes.
pub struct ReplyView {
    pub code: u16,
    pub text: Seq<u8>,
    pub body: Seq<u8>,
    pub last: Option<Seq<u8>>,
}

impl View for Reply {
    type V = ReplyView;

    open spec fn view(&self) -> ReplyView {
        ReplyView {
            code: self.code,
            text: self.text@,
            body: self.body@,
            last: match self.last {
                Some(l) => Some(l@),
                None => None,
            },
        }
    }
}

/// The reply of one line with this code and text.
pub open spec fn plain(code: u16, text: Seq<u8>) -> ReplyView {
    ReplyView { code, text, body: Seq::empty(), last: None }
}

/// The reply of several lines: `code-text`, the lines of `body`, `code last`.
pub open spec fn multi(code: u16, text: Seq<u8>, body: Seq<u8>, last: Seq<u8>) -> ReplyView {
    ReplyView { code, text, body, last: Some(last) }
}

impl ReplyView {
    /// A status code has three digits, the first of them from 1 to 5.
    pub open spec fn wf(self) -> bool {
        100 <= self.code < 600
    }

    /// Whether this reply ends a command: only those of the first hundred
    /// announce that more is to come.
    pub open spec fn is_final(self) -> bool {
        self.code >= 200
    }

    /// The bytes that go out on the control channel.
    pub open spec fn wire(self) -> Seq<u8> {
        match self.last {
            None => decimal(self.code as nat) + seq![SPACE] + self.text + crlf(),
            Some(l) => decimal(self.code as nat) + seq![HYPHEN] + self.text + crlf() + self.body
                + decimal(self.code as nat) + seq![SPACE] + l + crlf(),
        }
    }
}

impl Reply {
    /// The status code has three digits, the first of them from 1 to 5.
    pub open spec fn wf(&self) -> bool {
        self@.wf()
    }

    /// A reply of one line.
    pub fn new(code: u16, text: Vec<u8>) -> (r: Reply)
        ensures
            r@ == plain(code, text@),
    {
        Reply { code, text, body: Vec::new(), last: None }
    }

    /// A reply of one line whose text is a literal.
    pub fn plain(code: u16, text: &str) -> (r: Reply)
        ensures
            r@ == plain(code, lit(text)),
    {
        Reply { code, text: bytes_of(text), body: Vec::new(), last: None }
    }

    /// A reply of several lines.
    pub fn multi(code: u16, text: Vec<u8>, body: Vec<u8>, last: &str) -> (r: Reply)
        ensures
            r@ == multi(code, text@, body@, lit(last)),
    {
        Reply { code, text, body, last: Some(bytes_of(last)) }
    }

    /// The bytes to write on the control channel.
    pub fn render(&self) -> (out: Vec<u8>)
        ensures
            out@ == self@.wire(),
    {
        let mut out: Vec<u8> = Vec::new();
        push_decimal(&mut out, self.code as u64);
        match &self.last {
            None => {
                out.push(SPACE);
                append(&mut out, self.text.as_slice());
                out.push(CR);
                out.push(LF);
                assert(out@ =~= self@.wire());
            },
            Some(l) => {
                out.push(HYPHEN);
                append(&mut out, self.text.as_slice());
                out.push(CR);
                out.push(LF);
                append(&mut out, self.body.as_slice());
                push_decimal(&mut out, self.code as u64);
                out.push(SPACE);
                append(&mut out, l.as_slice());
                out.push(CR);
                out.push(LF);
                assert(out@ =~= self@.wire());
            },
        }
        out
    }
}

/// A number of three digits is written with exactly those digits.
pub proof fn lemma_three_digits(n: nat)
    requires
        100 <= n < 1000,
    ensures
        decimal(n) == seq![digit(n / 100), digit((n / 10) % 10), digit(n % 10)],
{
    reveal_with_fuel(decimal, 3);
    assert(decimal(n) =~= seq![digit(n / 100), digit((n / 10) % 10), digit(n % 10)]);
}

/// Every well-formed reply goes out with its status code in front: three
/// decimal digits that spell a number from 100 to 599, and then a space, or
/// a hyphen where more lines follow.
pub proof fn lemma_wire_begins_with_code(r: ReplyView)
    requires
        r.wf(),
    ensures
        r.wire().len() >= 6,
        is_digit(r.wire()[0]) && is_digit(r.wire()[1]) && is_digit(r.wire()[2]),
        decimal_value(r.wire().take(3)) == r.code,
        100 <= decimal_value(r.wire().take(3)) < 600,
        r.wire()[3] == (if r.last is Some { HYPHEN } else { SPACE }),
        r.wire()[r.wire().len() - 2] == CR && r.wire().last() == LF,
{
    let n = r.code as nat;
    lemma_three_digits(n);
    let w = r.wire();
    let d = decimal(n);
    assert(w.take(3) =~= d);
    reveal_with_fuel(decimal_value, 4);
    assert(d.drop_last() =~= seq![digit(n / 100), digit((n / 10) % 10)]);
    assert(d.drop_last().drop_last() =~= seq![digit(n / 100)]);
    assert(d.drop_last().drop_last().drop_last() =~= Seq::<u8>::empty());
}

/// The replies whose text never changes, each with its status code.
pub const GREETING: (u16, &'static str) = (220, "FTP server ready.");

pub const NEED_PASSWORD: (u16, &'static str) = (331, "User name okay, need password.");

pub const LOGGED_IN: (u16, &'static str) = (230, "User logged in, proceed.");

pub const NOOP_OK: (u16, &'static str) = (200, "NOOP ok.");

pub const SYSTEM: (u16, &'static str) = (215, "UNIX Type: L8");

pub const TYPE_ASCII: (u16, &'static str) = (200, "Type set to ASCII.");

pub const TYPE_BINARY: (u16, &'static str) = (200, "Type set to Binary.");

pub const TYPE_UNKNOWN: (u16, &'static str) = (504, "Command not implemented for that parameter.");

pub const PORT_OK: (u16, &'static str) = (200, "PORT command successful.");

pub const FILE_ACTION_OK: (u16, &'static str) = (250, "Requested file action okay, completed.");

pub const NEED_MORE: (u16, &'static str) = (350, "Requested file action pending further information.");

pub const RESTART_OK: (u16, &'static str) = (350, "Restart marker accepted.");

pub const ALLO_OK: (u16, &'static str) = (200, "ALLO command okay.");

pub const OPENING_LIST: (u16, &'static str) = (150, "Opening ASCII mode data connection for file list");

pub const TRANSFER_COMPLETE: (u16, &'static str) = (226, "Transfer complete.");

pub const ABOR_OK: (u16, &'static str) = (226, "ABOR command processed.");

pub const TRANSFER_ABORTED: (u16, &'static str) = (226, "Connection closed; transfer aborted.");

pub const DATA_FAILED: (u16, &'static str) = (426, "Connection closed; transfer aborted.");

pub const GOODBYE: (u16, &'static str) = (221, "Goodbye.");

pub const DENIED: (u16, &'static str) = (550, "Permission denied.");

pub const NOT_FOUND: (u16, &'static str) = (553, "Not found.");

pub const FILE_EXISTS: (u16, &'static str) = (550, "Permission denied, the file exists.");

pub const IS_DIRECTORY: (u16, &'static str) = (550, "Permission denied, the path is a directory.");

pub const NOT_LOGGED_IN: (u16, &'static str) = (530, "Not logged in.");

pub const NO_DATA_CONNECTION: (u16, &'static str) = (425, "Can't open data connection.");

pub const BAD_SEQUENCE: (u16, &'static str) = (503, "Bad sequence of commands.");

pub const OFFSET_OUT_OF_RANGE: (u16, &'static str) = (550, "Offset out of range.");

pub const NO_SUCH_FILE: (u16, &'static str) = (550, "No such file or directory.");

pub const NOT_IMPLEMENTED: (u16, &'static str) = (502, "Command not implemented.");

pub const BAD_ARGUMENT: (u16, &'static str) = (501, "Syntax error in parameters or arguments.");

pub const REMOVE_DIR_FAILED: (u16, &'static str) = (550, "Failed to remove directory.");

pub const REMOVE_FILE_FAILED: (u16, &'static str) = (550, "Failed to remove file.");

pub const RENAME_FAILED: (u16, &'static str) = (550, "Failed to rename.");

pub const OPEN_FAILED: (u16, &'static str) = (550, "Failed to open file.");

pub const READ_DIR_FAILED: (u16, &'static str) = (550, "Failed to read directory.");

/// The reply of one line that a code and a text of the table make.
pub open spec fn canned(entry: (u16, &'static str)) -> ReplyView {
    plain(entry.0, lit(entry.1))
}

/// The answer to PWD for the directory as it is shown.
pub open spec fn pwd_reply(dir: Seq<u8>) -> ReplyView {
    plain(257, seq![QUOTE] + dir + lit("\" is the current directory."))
}

/// The answer to MKD for the directory as the client named it.
pub open spec fn created_reply(dir: Seq<u8>) -> ReplyView {
    plain(257, seq![QUOTE] + dir + lit("\" created."))
}

/// The six numbers that name an address: four for the host, two for the port.
pub open spec fn six_numbers(at: HostPort) -> Seq<u8> {
    decimal(at.h1 as nat) + seq![COMMA] + (decimal(at.h2 as nat) + seq![COMMA] + (decimal(
        at.h3 as nat,
    ) + seq![COMMA] + (decimal(at.h4 as nat) + seq![COMMA] + (decimal((at.port / 256) as nat)
        + seq![COMMA] + decimal((at.port % 256) as nat)))))
}

/// The answer to PASV for the address on which the server listens.
pub open spec fn passive_reply(at: HostPort) -> ReplyView {
    plain(227, lit("Entering Passive Mode (") + six_numbers(at) + lit(")"))
}

/// The answer to MDTM for a time that is already written out.
pub open spec fn stamp_reply(stamp: Seq<u8>) -> ReplyView {
    plain(213, stamp)
}

/// What announces the transfer of the file `name`.
pub open spec fn opening_reply(name: Seq<u8>) -> ReplyView {
    plain(150, lit("Opening BINARY mode data connection for ") + name + lit("."))
}

/// What ends STOU: the name under which the data was stored.
pub open spec fn stored_reply(name: Seq<u8>) -> ReplyView {
    plain(226, lit("Transfer complete. Stored as ") + name)
}

/// The answer to FEAT.
pub open spec fn features_reply() -> ReplyView {
    multi(211, lit("Features:"), lit(" REST STREAM\r\n MDTM\r\n"), lit("End."))
}

/// The lines between the first and last of the answer to STAT without a
/// path.
pub open spec fn status_body(username: Seq<u8>, dir: Seq<u8>, binary: bool) -> Seq<u8> {
    lit("User: ") + username + crlf() + lit("Current directory: ") + dir + crlf() + lit("TYPE: ")
        + (if binary {
        lit("Binary")
    } else {
        lit("ASCII")
    }) + crlf()
}

/// The answer to STAT without a path.
pub open spec fn status_reply(username: Seq<u8>, dir: Seq<u8>, binary: bool) -> ReplyView {
    multi(211, lit("Status of the server:"), status_body(username, dir, binary), lit("End of status."))
}

/// The answer to STAT with a path, for a listing that is already made.
pub open spec fn file_status_reply(path: Seq<u8>, listing: Seq<u8>) -> ReplyView {
    multi(213, lit("Status of ") + path + lit(":"), listing, lit("End of status."))
}

impl Reply {
    /// A reply of the table.
    pub fn canned(entry: (u16, &'static str)) -> (r: Reply)
        ensures
            r@ == canned(entry),
    {
        Reply::plain(entry.0, entry.1)
    }

    /// The answer to PWD.
    pub fn pwd(dir: &[u8]) -> (r: Reply)
        ensures
            r@ == pwd_reply(dir@),
    {
        let mut text: Vec<u8> = Vec::new();
        text.push(QUOTE);
        append(&mut text, dir);
        append_str(&mut text, "\" is the current directory.");
        assert(text@ =~= seq![QUOTE] + dir@ + lit("\" is the current directory."));
        Reply::new(257, text)
    }

    /// The answer to MKD.
    pub fn created(dir: &[u8]) -> (r: Reply)
        ensures
            r@ == created_reply(dir@),
    {
        let mut text: Vec<u8> = Vec::new();
        text.push(QUOTE);
        append(&mut text, dir);
        append_str(&mut text, "\" created.");
        assert(text@ =~= seq![QUOTE] + dir@ + lit("\" created."));
        Reply::new(257, text)
    }

    /// The answer to PASV.
    pub fn passive(at: HostPort) -> (r: Reply)
        ensures
            r@ == passive_reply(at),
    {
        let mut text: Vec<u8> = Vec::new();
        append_str(&mut text, "Entering Passive Mode (");
        push_decimal(&mut text, at.h1 as u64);
        text.push(COMMA);
        push_decimal(&mut text, at.h2 as u64);
        text.push(COMMA);
        push_decimal(&mut text, at.h3 as u64);
        text.push(COMMA);
        push_decimal(&mut text, at.h4 as u64);
        text.push(COMMA);
        push_decimal(&mut text, (at.port / 256) as u64);
        text.push(COMMA);
        push_decimal(&mut text, (at.port % 256) as u64);
        assert(text@ =~= lit("Entering Passive Mode (") + six_numbers(at));
        append_str(&mut text, ")");
        Reply::new(227, text)
    }

    /// The answer to MDTM.
    pub fn stamp(stamp: Vec<u8>) -> (r: Reply)
        ensures
            r@ == stamp_reply(stamp@),
    {
        Reply::new(213, stamp)
    }

    /// What announces the transfer of a file.
    pub fn opening(name: &[u8]) -> (r: Reply)
        ensures
            r@ == opening_reply(name@),
    {
        let mut text: Vec<u8> = Vec::new();
        append_str(&mut text, "Opening BINARY mode data connection for ");
        append(&mut text, name);
        append_str(&mut text, ".");
        assert(text@ =~= lit("Opening BINARY mode data connection for ") + name@ + lit("."));
        Reply::new(150, text)
    }

    /// What ends STOU.
    pub fn stored(name: &[u8]) -> (r: Reply)
        ensures
            r@ == stored_reply(name@),
    {
        let mut text: Vec<u8> = Vec::new();
        append_str(&mut text, "Transfer complete. Stored as ");
        append(&mut text, name);
        assert(text@ =~= lit("Transfer complete. Stored as ") + name@);
        Reply::new(226, text)
    }

    /// The answer to FEAT.
    pub fn features() -> (r: Reply)
        ensures
            r@ == features_reply(),
    {
        Reply::multi(211, bytes_of("Features:"), bytes_of(" REST STREAM\r\n MDTM\r\n"), "End.")
    }

    /// The answer to STAT without a path.
    pub fn status(username: &[u8], dir: &[u8], binary: bool) -> (r: Reply)
        ensures
            r@ == status_reply(username@, dir@, binary),
    {
        let mut body: Vec<u8> = Vec::new();
        append_str(&mut body, "User: ");
        append(&mut body, username);
        body.push(CR);
        body.push(LF);
        append_str(&mut body, "Current directory: ");
        append(&mut body, dir);
        body.push(CR);
        body.push(LF);
        append_str(&mut body, "TYPE: ");
        if binary {
            append_str(&mut body, "Binary");
        } else {
            append_str(&mut body, "ASCII");
        }
        body.push(CR);
        body.push(LF);
        assert(body@ =~= status_body(username@, dir@, binary));
        Reply::multi(211, bytes_of("Status of the server:"), body, "End of status.")
    }

    /// The answer to STAT with a path.
    pub fn file_status(path: &[u8], listing: Vec<u8>) -> (r: Reply)
        ensures
            r@ == file_status_reply(path@, listing@),
    {
        let mut text: Vec<u8> = Vec::new();
        append_str(&mut text, "Status of ");
        append(&mut text, path);
        append_str(&mut text, ":");
        assert(text@ =~= lit("Status of ") + path@ + lit(":"));
        Reply::multi(213, text, listing, "End of status.")
    }
}

} // verus!
