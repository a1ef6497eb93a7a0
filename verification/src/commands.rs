//! The commands of the control channel and the parser that reads one from a
//! line.

use crate::text::{
    copy_range, find, index_of, is_word, lit, parse_decimal, read_decimal, to_upper, upper_all,
    COMMA, CR, LF, SPACE,
};
use vstd::prelude::*;

verus! {

/// An IPv4 address and a port, as PORT names them and PASV answers them.
#[derive(Clone, Copy, Debug, PartialEq, Eq, Structural)]
pub struct HostPort {
    pub h1: u8,
    pub h2: u8,
    pub h3: u8,
    pub h4: u8,
    pub port: u16,
}

/// Why a line names a known command and still cannot be read.
#[derive(Clone, Copy, Debug, PartialEq, Eq, Structural)]
pub enum ProtocolError {
    /// The argument of PORT is not six numbers below 256 with commas between.
    BadHostPort,
    /// The argument of ALLO or REST is no decimal number of 64 bits.
    BadNumber,
}

/// A command of the control channel. Paths and names are kept as the bytes
/// that came.
#[derive(Debug, Clone, PartialEq, Eq)]
pub enum FtpCommand {
    USER(Vec<u8>),
    PASS(Vec<u8>),
    ACCT(Vec<u8>),
    CWD(Vec<u8>),
    CDUP,
    QUIT,
    REIN,
    PORT(HostPort),
    PASV,
    TYPE(Vec<u8>),
    STRU(Vec<u8>),
    MODE(Vec<u8>),
    RETR(Vec<u8>),
    STOR(Vec<u8>),
    STOU,
    APPE(Vec<u8>),
    ALLO(u64),
    REST(u64),
    RNFR(Vec<u8>),
    RNTO(Vec<u8>),
    ABOR,
    DELE(Vec<u8>),
    RMD(Vec<u8>),
    MKD(Vec<u8>),
    PWD,
    LIST(Option<Vec<u8>>),
    NLST(Option<Vec<u8>>),
    SITE(Vec<u8>),
    SYST,
    STAT(Option<Vec<u8>>),
    HELP(Option<Vec<u8>>),
    NOOP,
    FEAT,
    MDTM(Vec<u8>),
}

/// A command with its argument as a sequence of bytes.
pub enum CommandView {
    USER(Seq<u8>),
    PASS(Seq<u8>),
    ACCT(Seq<u8>),
    CWD(Seq<u8>),
    CDUP,
    QUIT,
    REIN,
    PORT(HostPort),
    PASV,
    TYPE(Seq<u8>),
    STRU(Seq<u8>),
    MODE(Seq<u8>),
    RETR(Seq<u8>),
    STOR(Seq<u8>),
    STOU,
    APPE(Seq<u8>),
    ALLO(u64),
    REST(u64),
    RNFR(Seq<u8>),
    RNTO(Seq<u8>),
    ABOR,
    DELE(Seq<u8>),
    RMD(Seq<u8>),
    MKD(Seq<u8>),
    PWD,
    LIST(Option<Seq<u8>>),
    NLST(Option<Seq<u8>>),
    SITE(Seq<u8>),
    SYST,
    STAT(Option<Seq<u8>>),
    HELP(Option<Seq<u8>>),
    NOOP,
    FEAT,
    MDTM(Seq<u8>),
}

/// The bytes of an argument that may be missing.
pub open spec fn view_opt(o: Option<Vec<u8>>) -> Option<Seq<u8>> {
    match o {
        Some(v) => Some(v@),
        None => None,
    }
}

impl View for FtpCommand {
    type V = CommandView;

    open spec fn view(&self) -> CommandView {
        match *self {
            FtpCommand::USER(a) => CommandView::USER(a@),
            FtpCommand::PASS(a) => CommandView::PASS(a@),
            FtpCommand::ACCT(a) => CommandView::ACCT(a@),
            FtpCommand::CWD(a) => CommandView::CWD(a@),
            FtpCommand::CDUP => CommandView::CDUP,
            FtpCommand::QUIT => CommandView::QUIT,
            FtpCommand::REIN => CommandView::REIN,
            FtpCommand::PORT(hp) => CommandView::PORT(hp),
            FtpCommand::PASV => CommandView::PASV,
            FtpCommand::TYPE(a) => CommandView::TYPE(a@),
            FtpCommand::STRU(a) => CommandView::STRU(a@),
            FtpCommand::MODE(a) => CommandView::MODE(a@),
            FtpCommand::RETR(a) => CommandView::RETR(a@),
            FtpCommand::STOR(a) => CommandView::STOR(a@),
            FtpCommand::STOU => CommandView::STOU,
            FtpCommand::APPE(a) => CommandView::APPE(a@),
            FtpCommand::ALLO(n) => CommandView::ALLO(n),
            FtpCommand::REST(n) => CommandView::REST(n),
            FtpCommand::RNFR(a) => CommandView::RNFR(a@),
            FtpCommand::RNTO(a) => CommandView::RNTO(a@),
            FtpCommand::ABOR => CommandView::ABOR,
            FtpCommand::DELE(a) => CommandView::DELE(a@),
            FtpCommand::RMD(a) => CommandView::RMD(a@),
            FtpCommand::MKD(a) => CommandView::MKD(a@),
            FtpCommand::PWD => CommandView::PWD,
            FtpCommand::LIST(a) => CommandView::LIST(view_opt(a)),
            FtpCommand::NLST(a) => CommandView::NLST(view_opt(a)),
            FtpCommand::SITE(a) => CommandView::SITE(a@),
            FtpCommand::SYST => CommandView::SYST,
            FtpCommand::STAT(a) => CommandView::STAT(view_opt(a)),
            FtpCommand::HELP(a) => CommandView::HELP(view_opt(a)),
            FtpCommand::NOOP => CommandView::NOOP,
            FtpCommand::FEAT => CommandView::FEAT,
            FtpCommand::MDTM(a) => CommandView::MDTM(a@),
        }
    }
}

/// `None` for an empty argument, the argument otherwise.
pub open spec fn some_unless_empty(s: Seq<u8>) -> Option<Seq<u8>> {
    if s.len() == 0 {
        None
    } else {
        Some(s)
    }
}

/// An argument that may be left out: `None` where it is empty.
pub fn empty_to_some(s: Vec<u8>) -> (out: Option<Vec<u8>>)
    ensures
        view_opt(out) == some_unless_empty(s@),
{
    if s.len() == 0 {
        None
    } else {
        Some(s)
    }
}

/// The line without the CR LF, or the lone LF, that ends it.
pub open spec fn strip_eol(s: Seq<u8>) -> Seq<u8> {
    let n = s.len() as int;
    if n >= 2 && s[n - 2] == CR && s[n - 1] == LF {
        s.take(n - 2)
    } else if n >= 1 && s[n - 1] == LF {
        s.take(n - 1)
    } else {
        s
    }
}

/// The verb of a line: what stands before its first space, in upper case.
pub open spec fn verb_of(line: Seq<u8>) -> Seq<u8> {
    upper_all(line.take(find(line, SPACE)))
}

/// The argument of a line: what follows its first space, as it stands.
pub open spec fn argument_of(line: Seq<u8>) -> Seq<u8> {
    let k = find(line, SPACE);
    if 0 <= k < line.len() {
        line.skip(k + 1)
    } else {
        Seq::empty()
    }
}

/// The parts of `s` between the bytes `b`.
pub open spec fn split(s: Seq<u8>, b: u8) -> Seq<Seq<u8>>
    decreases s.len(),
{
    let k = find(s, b);
    if 0 <= k < s.len() {
        seq![s.take(k)] + split(s.skip(k + 1), b)
    } else {
        seq![s]
    }
}

/// The parts as sequences of bytes.
pub open spec fn views(parts: Seq<Vec<u8>>) -> Seq<Seq<u8>> {
    Seq::new(parts.len(), |i: int| parts[i]@)
}

/// Cuts `s` at every byte `b`. There is always one part more than there
/// are such bytes.
pub fn split_at_byte(s: &[u8], b: u8) -> (parts: Vec<Vec<u8>>)
    ensures
        views(parts@) == split(s@, b),
{
    let mut parts: Vec<Vec<u8>> = Vec::new();
    let mut start: usize = 0;
    let n = s.len();
    assert(s@.skip(0) =~= s@);
    assert(views(parts@) + split(s@, b) =~= split(s@, b));
    loop
        invariant
            n == s@.len(),
            start <= n,
            split(s@, b) == views(parts@) + split(s@.skip(start as int), b),
        decreases n - start,
    {
        let rest = vstd::slice::slice_subrange(s, start, n);
        assert(rest@ =~= s@.skip(start as int));
        let k = index_of(rest, b);
        let part = copy_range(rest, 0, k);
        let ghost before = views(parts@);
        parts.push(part);
        assert(views(parts@) =~= before + seq![rest@.take(k as int)]);
        if k < rest.len() {
            assert(rest@.skip(k as int + 1) =~= s@.skip(start as int + k as int + 1));
            assert(before + (seq![rest@.take(k as int)] + split(rest@.skip(k as int + 1), b))
                =~= views(parts@) + split(rest@.skip(k as int + 1), b));
            start = start + k + 1;
        } else {
            assert(rest@.take(k as int) =~= rest@);
            return parts;
        }
    }
}

/// The address that six numbers name.
pub open spec fn host_port_of(parts: Seq<Seq<u8>>) -> Option<HostPort> {
    if parts.len() == 6 && (forall|i: int| 0 <= i < 6 ==> read_decimal(#[trigger] parts[i], 255) is Some) {
        Some(
            HostPort {
                h1: read_decimal(parts[0], 255)->0 as u8,
                h2: read_decimal(parts[1], 255)->0 as u8,
                h3: read_decimal(parts[2], 255)->0 as u8,
                h4: read_decimal(parts[3], 255)->0 as u8,
                port: (read_decimal(parts[4], 255)->0 * 256 + read_decimal(parts[5], 255)->0) as u16,
            },
        )
    } else {
        None
    }
}

/// Reads `h1,h2,h3,h4,p1,p2`: the address h1.h2.h3.h4 and the port
/// p1 * 256 + p2.
pub fn parse_host_port(arg: &[u8]) -> (out: Option<HostPort>)
    ensures
        out == host_port_of(split(arg@, COMMA)),
{
    let parts = split_at_byte(arg, COMMA);
    if parts.len() != 6 {
        return None;
    }
    let mut nums: Vec<u8> = Vec::new();
    let mut i: usize = 0;
    while i < 6
        invariant
            i <= 6,
            parts@.len() == 6,
            views(parts@) == split(arg@, COMMA),
            nums@.len() == i,
            forall|j: int| 0 <= j < i ==> read_decimal(#[trigger] views(parts@)[j], 255) == Some(nums@[j] as nat),
        decreases 6 - i,
    {
        match parse_decimal(parts[i].as_slice(), 255) {
            Some(v) => {
                nums.push(v as u8);
            },
            None => {
                assert(read_decimal(views(parts@)[i as int], 255) is None);
                return None;
            },
        }
        i += 1;
    }
    let p1: u16 = nums[4] as u16;
    let p2: u16 = nums[5] as u16;
    Some(HostPort { h1: nums[0], h2: nums[1], h3: nums[2], h4: nums[3], port: p1 * 256 + p2 })
}

/// The verbs that the server knows; any other verb is `Other`.
#[derive(Clone, Copy, Debug, PartialEq, Eq, Structural)]
pub enum Verb {
    USER,
    PASS,
    ACCT,
    CWD,
    CDUP,
    QUIT,
    REIN,
    PORT,
    PASV,
    TYPE,
    STRU,
    MODE,
    RETR,
    STOR,
    STOU,
    APPE,
    ALLO,
    REST,
    RNFR,
    RNTO,
    ABOR,
    DELE,
    RMD,
    MKD,
    PWD,
    LIST,
    NLST,
    SITE,
    SYST,
    STAT,
    HELP,
    FEAT,
    MDTM,
    Other,
}

/// The verb that a word in upper case names.
pub open spec fn verb_named(word: Seq<u8>) -> Verb {
    if word == lit("USER") {
        Verb::USER
    } else if word == lit("PASS") {
        Verb::PASS
    } else if word == lit("ACCT") {
        Verb::ACCT
    } else if word == lit("CWD") {
        Verb::CWD
    } else if word == lit("CDUP") {
        Verb::CDUP
    } else if word == lit("QUIT") {
        Verb::QUIT
    } else if word == lit("REIN") {
        Verb::REIN
    } else if word == lit("PORT") {
        Verb::PORT
    } else if word == lit("PASV") {
        Verb::PASV
    } else if word == lit("TYPE") {
        Verb::TYPE
    } else if word == lit("STRU") {
        Verb::STRU
    } else if word == lit("MODE") {
        Verb::MODE
    } else if word == lit("RETR") {
        Verb::RETR
    } else if word == lit("STOR") {
        Verb::STOR
    } else if word == lit("STOU") {
        Verb::STOU
    } else if word == lit("APPE") {
        Verb::APPE
    } else if word == lit("ALLO") {
        Verb::ALLO
    } else if word == lit("REST") {
        Verb::REST
    } else if word == lit("RNFR") {
        Verb::RNFR
    } else if word == lit("RNTO") {
        Verb::RNTO
    } else if word == lit("ABOR") {
        Verb::ABOR
    } else if word == lit("DELE") {
        Verb::DELE
    } else if word == lit("RMD") {
        Verb::RMD
    } else if word == lit("MKD") {
        Verb::MKD
    } else if word == lit("PWD") {
        Verb::PWD
    } else if word == lit("LIST") {
        Verb::LIST
    } else if word == lit("NLST") {
        Verb::NLST
    } else if word == lit("SITE") {
        Verb::SITE
    } else if word == lit("SYST") {
        Verb::SYST
    } else if word == lit("STAT") {
        Verb::STAT
    } else if word == lit("HELP") {
        Verb::HELP
    } else if word == lit("FEAT") {
        Verb::FEAT
    } else if word == lit("MDTM") {
        Verb::MDTM
    } else {
        Verb::Other
    }
}

/// Looks a word up among the verbs, as it stands: the caller has put it
/// in upper case.
pub fn lookup_verb(word: &[u8]) -> (verb: Verb)
    ensures
        verb == verb_named(word@),
{
    if is_word(word, "USER") {
        Verb::USER
    } else if is_word(word, "PASS") {
        Verb::PASS
    } else if is_word(word, "ACCT") {
        Verb::ACCT
    } else if is_word(word, "CWD") {
        Verb::CWD
    } else if is_word(word, "CDUP") {
        Verb::CDUP
    } else if is_word(word, "QUIT") {
        Verb::QUIT
    } else if is_word(word, "REIN") {
        Verb::REIN
    } else if is_word(word, "PORT") {
        Verb::PORT
    } else if is_word(word, "PASV") {
        Verb::PASV
    } else if is_word(word, "TYPE") {
        Verb::TYPE
    } else if is_word(word, "STRU") {
        Verb::STRU
    } else if is_word(word, "MODE") {
        Verb::MODE
    } else if is_word(word, "RETR") {
        Verb::RETR
    } else if is_word(word, "STOR") {
        Verb::STOR
    } else if is_word(word, "STOU") {
        Verb::STOU
    } else if is_word(word, "APPE") {
        Verb::APPE
    } else if is_word(word, "ALLO") {
        Verb::ALLO
    } else if is_word(word, "REST") {
        Verb::REST
    } else if is_word(word, "RNFR") {
        Verb::RNFR
    } else if is_word(word, "RNTO") {
        Verb::RNTO
    } else if is_word(word, "ABOR") {
        Verb::ABOR
    } else if is_word(word, "DELE") {
        Verb::DELE
    } else if is_word(word, "RMD") {
        Verb::RMD
    } else if is_word(word, "MKD") {
        Verb::MKD
    } else if is_word(word, "PWD") {
        Verb::PWD
    } else if is_word(word, "LIST") {
        Verb::LIST
    } else if is_word(word, "NLST") {
        Verb::NLST
    } else if is_word(word, "SITE") {
        Verb::SITE
    } else if is_word(word, "SYST") {
        Verb::SYST
    } else if is_word(word, "STAT") {
        Verb::STAT
    } else if is_word(word, "HELP") {
        Verb::HELP
    } else if is_word(word, "FEAT") {
        Verb::FEAT
    } else if is_word(word, "MDTM") {
        Verb::MDTM
    } else {
        Verb::Other
    }
}

/// The command that a verb and its argument make. A verb that is not known
/// makes NOOP.
pub open spec fn command_of(verb: Verb, arg: Seq<u8>) -> Result<CommandView, ProtocolError> {
    match verb {
        Verb::USER => Ok(CommandView::USER(arg)),
        Verb::PASS => Ok(CommandView::PASS(arg)),
        Verb::ACCT => Ok(CommandView::ACCT(arg)),
        Verb::CWD => Ok(CommandView::CWD(arg)),
        Verb::CDUP => Ok(CommandView::CDUP),
        Verb::QUIT => Ok(CommandView::QUIT),
        Verb::REIN => Ok(CommandView::REIN),
        Verb::PORT => match host_port_of(split(arg, COMMA)) {
            Some(hp) => Ok(CommandView::PORT(hp)),
            None => Err(ProtocolError::BadHostPort),
        },
        Verb::PASV => Ok(CommandView::PASV),
        Verb::TYPE => Ok(CommandView::TYPE(arg)),
        Verb::STRU => Ok(CommandView::STRU(arg)),
        Verb::MODE => Ok(CommandView::MODE(arg)),
        Verb::RETR => Ok(CommandView::RETR(arg)),
        Verb::STOR => Ok(CommandView::STOR(arg)),
        Verb::STOU => Ok(CommandView::STOU),
        Verb::APPE => Ok(CommandView::APPE(arg)),
        Verb::ALLO => match read_decimal(arg, u64::MAX as nat) {
            Some(n) => Ok(CommandView::ALLO(n as u64)),
            None => Err(ProtocolError::BadNumber),
        },
        Verb::REST => match read_decimal(arg, u64::MAX as nat) {
            Some(n) => Ok(CommandView::REST(n as u64)),
            None => Err(ProtocolError::BadNumber),
        },
        Verb::RNFR => Ok(CommandView::RNFR(arg)),
        Verb::RNTO => Ok(CommandView::RNTO(arg)),
        Verb::ABOR => Ok(CommandView::ABOR),
        Verb::DELE => Ok(CommandView::DELE(arg)),
        Verb::RMD => Ok(CommandView::RMD(arg)),
        Verb::MKD => Ok(CommandView::MKD(arg)),
        Verb::PWD => Ok(CommandView::PWD),
        Verb::LIST => Ok(CommandView::LIST(some_unless_empty(arg))),
        Verb::NLST => Ok(CommandView::NLST(some_unless_empty(arg))),
        Verb::SITE => Ok(CommandView::SITE(arg)),
        Verb::SYST => Ok(CommandView::SYST),
        Verb::STAT => Ok(CommandView::STAT(some_unless_empty(arg))),
        Verb::HELP => Ok(CommandView::HELP(some_unless_empty(arg))),
        Verb::FEAT => Ok(CommandView::FEAT),
        Verb::MDTM => Ok(CommandView::MDTM(arg)),
        Verb::Other => Ok(CommandView::NOOP),
    }
}

/// What a line of the control channel asks for. The verb is read without
/// regard to case.
pub open spec fn parse(req: Seq<u8>) -> Result<CommandView, ProtocolError> {
    let line = strip_eol(req);
    command_of(verb_named(verb_of(line)), argument_of(line))
}

/// The outcome of parsing with the command as a value of the model.
pub open spec fn view_result(r: Result<FtpCommand, ProtocolError>) -> Result<
    CommandView,
    ProtocolError,
> {
    match r {
        Ok(c) => Ok(c@),
        Err(e) => Err(e),
    }
}

/// Puts a verb and its argument together.
pub fn make_command(verb: Verb, arg: Vec<u8>) -> (out: Result<FtpCommand, ProtocolError>)
    ensures
        view_result(out) == command_of(verb, arg@),
{
    match verb {
        Verb::USER => Ok(FtpCommand::USER(arg)),
        Verb::PASS => Ok(FtpCommand::PASS(arg)),
        Verb::ACCT => Ok(FtpCommand::ACCT(arg)),
        Verb::CWD => Ok(FtpCommand::CWD(arg)),
        Verb::CDUP => Ok(FtpCommand::CDUP),
        Verb::QUIT => Ok(FtpCommand::QUIT),
        Verb::REIN => Ok(FtpCommand::REIN),
        Verb::PORT => match parse_host_port(arg.as_slice()) {
            Some(hp) => Ok(FtpCommand::PORT(hp)),
            None => Err(ProtocolError::BadHostPort),
        },
        Verb::PASV => Ok(FtpCommand::PASV),
        Verb::TYPE => Ok(FtpCommand::TYPE(arg)),
        Verb::STRU => Ok(FtpCommand::STRU(arg)),
        Verb::MODE => Ok(FtpCommand::MODE(arg)),
        Verb::RETR => Ok(FtpCommand::RETR(arg)),
        Verb::STOR => Ok(FtpCommand::STOR(arg)),
        Verb::STOU => Ok(FtpCommand::STOU),
        Verb::APPE => Ok(FtpCommand::APPE(arg)),
        Verb::ALLO => match parse_decimal(arg.as_slice(), u64::MAX) {
            Some(n) => Ok(FtpCommand::ALLO(n)),
            None => Err(ProtocolError::BadNumber),
        },
        Verb::REST => match parse_decimal(arg.as_slice(), u64::MAX) {
            Some(n) => Ok(FtpCommand::REST(n)),
            None => Err(ProtocolError::BadNumber),
        },
        Verb::RNFR => Ok(FtpCommand::RNFR(arg)),
        Verb::RNTO => Ok(FtpCommand::RNTO(arg)),
        Verb::ABOR => Ok(FtpCommand::ABOR),
        Verb::DELE => Ok(FtpCommand::DELE(arg)),
        Verb::RMD => Ok(FtpCommand::RMD(arg)),
        Verb::MKD => Ok(FtpCommand::MKD(arg)),
        Verb::PWD => Ok(FtpCommand::PWD),
        Verb::LIST => Ok(FtpCommand::LIST(empty_to_some(arg))),
        Verb::NLST => Ok(FtpCommand::NLST(empty_to_some(arg))),
        Verb::SITE => Ok(FtpCommand::SITE(arg)),
        Verb::SYST => Ok(FtpCommand::SYST),
        Verb::STAT => Ok(FtpCommand::STAT(empty_to_some(arg))),
        Verb::HELP => Ok(FtpCommand::HELP(empty_to_some(arg))),
        Verb::FEAT => Ok(FtpCommand::FEAT),
        Verb::MDTM => Ok(FtpCommand::MDTM(arg)),
        Verb::Other => Ok(FtpCommand::NOOP),
    }
}

/// Reads one line of the control channel, with or without the CR LF that
/// ended it. It fails only where the verb is PORT, ALLO or REST and the
/// argument is not what that verb takes.
pub fn parse_command(req: &[u8]) -> (out: Result<FtpCommand, ProtocolError>)
    ensures
        view_result(out) == parse(req@),
{
    let n = req.len();
    let end = if n >= 2 && req[n - 2] == CR && req[n - 1] == LF {
        n - 2
    } else if n >= 1 && req[n - 1] == LF {
        n - 1
    } else {
        n
    };
    let line = copy_range(req, 0, end);
    assert(line@ =~= strip_eol(req@));
    let k = index_of(line.as_slice(), SPACE);
    let word = copy_range(line.as_slice(), 0, k);
    assert(word@ =~= line@.take(k as int));
    let verb = to_upper(word.as_slice());
    let arg = if k < line.len() {
        copy_range(line.as_slice(), k + 1, line.len())
    } else {
        Vec::new()
    };
    assert(arg@ =~= argument_of(line@));
    make_command(lookup_verb(verb.as_slice()), arg)
}

} // verus!
