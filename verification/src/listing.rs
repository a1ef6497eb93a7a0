//! The lines of LIST and NLST, and the local time of a file's last change.

use crate::text::{
    all_digits, append, append_str, crlf, decimal, is_digit, lit, push_decimal, CR, LF, SPACE,
};
use vstd::prelude::*;

verus! {

/// One entry of a directory, as the file system reports it.
#[derive(Debug, Clone, PartialEq, Eq)]
pub struct Entry {
    pub name: Vec<u8>,
    pub is_dir: bool,
    pub size: u64,
    /// Seconds since 1970 at which the entry was last changed.
    pub mtime: i64,
}

/// An entry with its name as a sequence of bytes.
pub struct EntryView {
    pub name: Seq<u8>,
    pub is_dir: bool,
    pub size: u64,
    pub mtime: i64,
}

impl View for Entry {
    type V = EntryView;

    open spec fn view(&self) -> EntryView {
        EntryView { name: self.name@, is_dir: self.is_dir, size: self.size, mtime: self.mtime }
    }
}

/// The entries as values of the model.
pub open spec fn entry_views(entries: Seq<Entry>) -> Seq<EntryView> {
    Seq::new(entries.len(), |i: int| entries[i]@)
}

/// The last second for which a time is written: a day before the end of
/// the year 9999, in seconds since 1970, so that no time zone carries it
/// into a year of five digits.
pub const LAST_SECOND: i64 = 253_402_214_399;

/// The width to which LIST pads the size of an entry.
pub const SIZE_WIDTH: usize = 13;

/// The colon between hour and minute.
pub const COLON: u8 = 58;

/// `s` with spaces before it until it is `width` long.
pub open spec fn pad_left(s: Seq<u8>, width: nat) -> Seq<u8> {
    if s.len() >= width {
        s
    } else {
        Seq::new((width - s.len()) as nat, |i: int| SPACE) + s
    }
}

/// One line of LIST, in the long form of `ls`, for a time already in words.
pub open spec fn long_line(name: Seq<u8>, is_dir: bool, size: u64, time: Seq<u8>) -> Seq<u8> {
    (if is_dir {
        lit("drwxr-xr-x")
    } else {
        lit("-rw-r--r--")
    }) + lit(" 1 owner group ") + pad_left(decimal(size as nat), SIZE_WIDTH as nat) + seq![SPACE]
        + time + seq![SPACE] + name + crlf()
}

/// One line of NLST: the name alone.
pub open spec fn short_line(name: Seq<u8>) -> Seq<u8> {
    name + crlf()
}

/// The line of an entry in either form.
pub open spec fn line_of(e: EntryView, time: Seq<u8>, name_only: bool) -> Seq<u8> {
    if name_only {
        short_line(e.name)
    } else {
        long_line(e.name, e.is_dir, e.size, time)
    }
}

/// The lines of all entries in their order, the i-th with the i-th time.
pub open spec fn listing(entries: Seq<EntryView>, times: Seq<Seq<u8>>, name_only: bool) -> Seq<u8>
    decreases entries.len(),
{
    if entries.len() == 0 {
        Seq::empty()
    } else {
        listing(entries.drop_last(), times.drop_last(), name_only) + line_of(
            entries.last(),
            times.last(),
            name_only,
        )
    }
}

/// The names of all entries in their order, a line each.
pub open spec fn name_listing(entries: Seq<EntryView>) -> Seq<u8>
    decreases entries.len(),
{
    if entries.len() == 0 {
        Seq::empty()
    } else {
        name_listing(entries.drop_last()) + short_line(entries.last().name)
    }
}

/// Whether the byte is an ASCII letter.
pub open spec fn is_letter(b: u8) -> bool {
    65 <= b <= 90 || 97 <= b <= 122
}

/// The shape of a time in a line of LIST: the month in three letters, the
/// day, the hour and the minute in two digits each, as in `Jul 08 00:34`.
pub open spec fn is_list_time(t: Seq<u8>) -> bool {
    &&& t.len() == 12
    &&& is_letter(t[0]) && is_letter(t[1]) && is_letter(t[2])
    &&& t[3] == SPACE && t[6] == SPACE && t[9] == COLON
    &&& is_digit(t[4]) && is_digit(t[5])
    &&& is_digit(t[7]) && is_digit(t[8])
    &&& is_digit(t[10]) && is_digit(t[11])
}

/// The shape of a time in the answer to MDTM: fourteen digits, from the
/// year to the second.
pub open spec fn is_stamp(t: Seq<u8>) -> bool {
    t.len() == 14 && all_digits(t)
}

/// Whether every one of the times has the shape that LIST writes.
pub open spec fn all_list_times(times: Seq<Seq<u8>>) -> bool {
    forall|i: int| 0 <= i < times.len() ==> is_list_time(#[trigger] times[i])
}

/// The time at `secs` seconds since 1970 in the time zone of this machine,
/// written after the pattern `fmt`. This calls chrono:
/// `DateTime::from_timestamp`, then `with_timezone` for `Local`, then
/// `format`. Which time comes out depends on the machine's time zone and is
/// left open. What is claimed is the shape that chrono documents for the
/// two patterns: `%b` is a month in three letters, `%Y` a year in four
/// digits as long as the year has no more, and `%m`, `%d`, `%H`, `%M` and
/// `%S` are two digits each. The range of seconds keeps the year at four
/// digits in every time zone, and chrono is not asked for any other
/// pattern.
#[verifier::external_body]
fn local_time(secs: i64, fmt: &str) -> (out: Vec<u8>)
    requires
        0 <= secs <= LAST_SECOND,
        fmt@ == "%b %d %H:%M"@ || fmt@ == "%Y%m%d%H%M%S"@,
    ensures
        fmt@ == "%b %d %H:%M"@ ==> is_list_time(out@),
        fmt@ == "%Y%m%d%H%M%S"@ ==> is_stamp(out@),
{
    chrono::DateTime::from_timestamp(secs, 0)
        .unwrap_or_default()
        .with_timezone(&chrono::Local)
        .format(fmt)
        .to_string()
        .into_bytes()
}

/// The time of an entry as LIST shows it, by this machine's clock and in
/// its time zone: month, day, hour and minute. A time before 1970 or after
/// `LAST_SECOND` is shown as the first second of 1970.
pub fn list_time(mtime: i64) -> (out: Vec<u8>)
    ensures
        is_list_time(out@),
{
    if 0 <= mtime && mtime <= LAST_SECOND {
        local_time(mtime, "%b %d %H:%M")
    } else {
        local_time(0, "%b %d %H:%M")
    }
}

/// The time of an entry as MDTM answers it, by this machine's clock and in
/// its time zone: year to second, digits only. A time before 1970 or after
/// `LAST_SECOND` is answered as the first second of 1970.
pub fn stamp_time(mtime: i64) -> (out: Vec<u8>)
    ensures
        is_stamp(out@),
{
    if 0 <= mtime && mtime <= LAST_SECOND {
        local_time(mtime, "%Y%m%d%H%M%S")
    } else {
        local_time(0, "%Y%m%d%H%M%S")
    }
}

/// The line of one entry for a time that is already written out.
pub fn list_line(entry: &Entry, time: &[u8], name_only: bool) -> (out: Vec<u8>)
    ensures
        out@ == line_of(entry@, time@, name_only),
{
    let mut out: Vec<u8> = Vec::new();
    if name_only {
        append(&mut out, entry.name.as_slice());
        out.push(CR);
        out.push(LF);
        assert(out@ =~= short_line(entry.name@));
        return out;
    }
    if entry.is_dir {
        append_str(&mut out, "drwxr-xr-x");
    } else {
        append_str(&mut out, "-rw-r--r--");
    }
    append_str(&mut out, " 1 owner group ");
    let mut digits: Vec<u8> = Vec::new();
    push_decimal(&mut digits, entry.size);
    assert(digits@ =~= decimal(entry.size as nat));
    let ghost before = out@;
    let mut i: usize = digits.len();
    while i < SIZE_WIDTH
        invariant
            digits@.len() <= i,
            i <= SIZE_WIDTH || i == digits@.len(),
            out@ == before + Seq::new((i - digits@.len()) as nat, |k: int| SPACE),
        decreases SIZE_WIDTH - i,
    {
        out.push(SPACE);
        i += 1;
        assert(out@ =~= before + Seq::new((i - digits@.len()) as nat, |k: int| SPACE));
    }
    append(&mut out, digits.as_slice());
    assert(out@ =~= before + pad_left(digits@, SIZE_WIDTH as nat));
    out.push(SPACE);
    append(&mut out, time);
    out.push(SPACE);
    append(&mut out, entry.name.as_slice());
    out.push(CR);
    out.push(LF);
    assert(out@ =~= long_line(entry.name@, entry.is_dir, entry.size, time@));
    out
}

/// The line of one entry. With names only it is the name and CR LF; else it
/// is the long line for the entry's time as this machine's zone writes it.
pub fn file_path_to_list_item(entry: &Entry, name_only: bool) -> (out: Vec<u8>)
    ensures
        name_only ==> out@ == short_line(entry.name@),
        exists|time: Seq<u8>|
            (name_only || is_list_time(time)) && out@ == #[trigger] line_of(
                entry@,
                time,
                name_only,
            ),
{
    if name_only {
        let none: Vec<u8> = Vec::new();
        let out = list_line(entry, none.as_slice(), true);
        assert(out@ == line_of(entry@, none@, name_only));
        out
    } else {
        let time = list_time(entry.mtime);
        let out = list_line(entry, time.as_slice(), false);
        assert(is_list_time(time@) && out@ == line_of(entry@, time@, name_only));
        out
    }
}

/// The lines of all entries in their order.
pub fn get_list_lines(entries: &[Entry], name_only: bool) -> (out: Vec<u8>)
    ensures
        exists|times: Seq<Seq<u8>>|
            (name_only || all_list_times(times)) && out@ == #[trigger] listing(
                entry_views(entries@),
                times,
                name_only,
            ),
        name_only ==> out@ == name_listing(entry_views(entries@)),
{
    let mut out: Vec<u8> = Vec::new();
    let ghost mut times: Seq<Seq<u8>> = Seq::empty();
    let mut i: usize = 0;
    assert(entry_views(entries@).take(0).len() == 0);
    while i < entries.len()
        invariant
            i <= entries@.len(),
            times.len() == i,
            name_only || all_list_times(times),
            out@ == listing(entry_views(entries@).take(i as int), times, name_only),
            name_only ==> out@ == name_listing(entry_views(entries@).take(i as int)),
        decreases entries@.len() - i,
    {
        let line = file_path_to_list_item(&entries[i], name_only);
        proof {
            let t = choose|time: Seq<u8>|
                (name_only || is_list_time(time)) && line@ == #[trigger] line_of(
                    entries@[i as int]@,
                    time,
                    name_only,
                );
            assert(entry_views(entries@).take(i as int + 1).drop_last() =~= entry_views(
                entries@,
            ).take(i as int));
            assert(times.push(t).drop_last() =~= times);
            times = times.push(t);
        }
        append(&mut out, line.as_slice());
        i += 1;
    }
    assert(entry_views(entries@).take(i as int) =~= entry_views(entries@));
    out
}

} // verus!
