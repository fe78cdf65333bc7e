//! The File object: an in-memory file read and written as a stream of
//! octets, or as records, one per line of its text.

use vstd::prelude::*;
use vstd::utf8::encode_utf8;

use super::{Date, ObjectError, ObjectIdentifier, ObjectType};
use crate::text::{chars_of, lossy_chars, text_of, utf8_lossy_decoded};

verus! {

/// File access method.
#[derive(Debug, Clone, Copy, PartialEq, Eq, Structural)]
pub enum FileAccessMethod {
    RecordAccess,
    StreamAccess,
}

impl FileAccessMethod {
    /// The enumerated value: 0 for record access, 1 for stream access.
    pub fn code(self) -> (r: u32)
        ensures
            r == (if self is RecordAccess { 0u32 } else { 1u32 }),
    {
        match self {
            FileAccessMethod::RecordAccess => 0,
            FileAccessMethod::StreamAccess => 1,
        }
    }
}

/// `line` without one final carriage return.
pub open spec fn strip_cr(line: Seq<char>) -> Seq<char> {
    if line.len() > 0 && line.last() == '\r' {
        line.drop_last()
    } else {
        line
    }
}

/// The lines of `t` from position `i`, with `cur` the part of the current
/// line already read: lines end at "\n" or "\r\n", and a final line ending
/// is optional.
pub open spec fn split_lines(t: Seq<char>, cur: Seq<char>, i: int) -> Seq<Seq<char>>
    decreases t.len() - i,
{
    if i >= t.len() {
        if cur.len() > 0 {
            seq![cur]
        } else {
            seq![]
        }
    } else if t[i] == '\n' {
        seq![strip_cr(cur)] + split_lines(t, seq![], i + 1)
    } else {
        split_lines(t, cur.push(t[i]), i + 1)
    }
}

/// The lines of a text, as `str::lines` gives them.
pub open spec fn text_lines(t: Seq<char>) -> Seq<Seq<char>> {
    split_lines(t, seq![], 0)
}

/// The lines joined with "\n" between them.
pub open spec fn join_lines(lines: Seq<Seq<char>>) -> Seq<char>
    decreases lines.len(),
{
    if lines.len() == 0 {
        seq![]
    } else if lines.len() == 1 {
        lines[0]
    } else {
        join_lines(lines.drop_last()) + seq!['\n'] + lines.last()
    }
}

/// The views of a sequence of character vectors.
pub open spec fn char_views(s: Seq<Vec<char>>) -> Seq<Seq<char>> {
    s.map_values(|v: Vec<char>| v@)
}

/// The views of a sequence of octet vectors.
pub open spec fn octet_views(s: Seq<Vec<u8>>) -> Seq<Seq<u8>> {
    s.map_values(|v: Vec<u8>| v@)
}

/// The records of a file's octets.
pub open spec fn file_records(data: Seq<u8>) -> Seq<Seq<char>> {
    text_lines(utf8_lossy_decoded(data))
}

/// Records `start` up to (not including) `end` as octets, as far as there
/// are records.
pub open spec fn records_read(lines: Seq<Seq<char>>, start: int, end: int) -> Seq<Seq<u8>> {
    let stop = if end < lines.len() { end } else { lines.len() as int };
    Seq::new(if stop > start { (stop - start) as nat } else { 0 }, |k: int| encode_utf8(lines[start + k]))
}

/// `lines` with empty lines added up to `n` lines, and the texts of
/// `records` put at `start` on.
pub open spec fn records_written(lines: Seq<Seq<char>>, start: int, records: Seq<Seq<u8>>) -> Seq<Seq<char>> {
    let n = if lines.len() >= start + records.len() { lines.len() as int } else { start + records.len() };
    Seq::new(n as nat, |i: int|
        if start <= i < start + records.len() {
            utf8_lossy_decoded(records[i - start])
        } else if i < lines.len() {
            lines[i]
        } else {
            Seq::<char>::empty()
        })
}

/// Octets `d` with `x` written at `s`, extended with zeros where needed.
pub open spec fn octets_written(d: Seq<u8>, s: int, x: Seq<u8>) -> Seq<u8> {
    let n = if d.len() >= s + x.len() { d.len() as int } else { s + x.len() };
    Seq::new(n as nat, |i: int|
        if s <= i < s + x.len() {
            x[i - s]
        } else if i < d.len() {
            d[i]
        } else {
            0u8
        })
}

/// Reading back the octets just written gives them, and the octets the
/// write did not cover keep their values.
pub proof fn lemma_write_then_read(d: Seq<u8>, s: int, x: Seq<u8>)
    requires
        0 <= s,
    ensures
        octets_written(d, s, x).len() >= s + x.len(),
        octets_written(d, s, x).subrange(s, s + x.len()) == x,
        forall|i: int| 0 <= i < d.len() && !(s <= i < s + x.len()) ==> #[trigger] octets_written(d, s, x)[i] == d[i],
{
    assert(octets_written(d, s, x).subrange(s, s + x.len()) =~= x);
}

/// Whether `line` can stand as a record line: no line feed in it, and no
/// carriage return at its end.
pub open spec fn plain_line(line: Seq<char>) -> bool {
    &&& forall|i: int| 0 <= i < line.len() ==> line[i] != '\n'
    &&& !(line.len() > 0 && line.last() == '\r')
}

/// Reading on past octets with no line feed adds them to the current line.
proof fn lemma_split_skips_plain(t: Seq<char>, cur: Seq<char>, i: int, k: int)
    requires
        0 <= i <= k <= t.len(),
        forall|j: int| i <= j < k ==> t[j] != '\n',
    ensures
        split_lines(t, cur, i) == split_lines(t, cur + t.subrange(i, k), k),
    decreases k - i,
{
    if i < k {
        lemma_split_skips_plain(t, cur.push(t[i]), i + 1, k);
        assert(cur.push(t[i]) + t.subrange(i + 1, k) =~= cur + t.subrange(i, k));
    } else {
        assert(cur + t.subrange(i, k) =~= cur);
    }
}

/// Splitting after a prefix is splitting what follows it.
proof fn lemma_split_shift(p: Seq<char>, t: Seq<char>, cur: Seq<char>, i: int)
    requires
        0 <= i <= t.len(),
    ensures
        split_lines(p + t, cur, p.len() + i) == split_lines(t, cur, i),
    decreases t.len() - i,
{
    if i < t.len() {
        assert((p + t)[p.len() + i] == t[i]);
        if t[i] == '\n' {
            lemma_split_shift(p, t, seq![], i + 1);
        } else {
            lemma_split_shift(p, t, cur.push(t[i]), i + 1);
        }
    }
}

/// Joining lines: the first, then a line feed and the rest joined.
proof fn lemma_join_first(lines: Seq<Seq<char>>)
    requires
        lines.len() >= 2,
    ensures
        join_lines(lines) == lines[0] + seq!['\n'] + join_lines(lines.drop_first()),
    decreases lines.len(),
{
    let nl: Seq<char> = seq!['\n'];
    if lines.len() > 2 {
        lemma_join_first(lines.drop_last());
        assert(lines.drop_last().drop_first() =~= lines.drop_first().drop_last());
        assert(lines.drop_first().last() == lines.last());
        assert(lines.drop_last()[0] == lines[0]);
        let a = lines[0];
        let m = join_lines(lines.drop_first().drop_last());
        assert(join_lines(lines.drop_first()) == m + nl + lines.last());
        assert(join_lines(lines) == a + nl + m + nl + lines.last());
        assert(a + nl + m + nl + lines.last() =~= a + nl + (m + nl + lines.last()));
    } else {
        assert(lines.drop_first() =~= seq![lines[1]]);
        assert(lines.drop_last() =~= seq![lines[0]]);
        assert(join_lines(lines.drop_last()) == lines[0]);
        assert(join_lines(lines.drop_first()) == lines[1]);
    }
}

/// Records written as lines are read back as the same lines: joining
/// lines with line feeds and splitting the text at line ends gives them
/// again, where no line holds a line feed or ends with a carriage return
/// and the last line is not empty.
pub proof fn lemma_lines_round_trip(lines: Seq<Seq<char>>)
    requires
        forall|i: int| 0 <= i < lines.len() ==> plain_line(#[trigger] lines[i]),
        lines.len() > 0 ==> lines.last().len() > 0,
    ensures
        text_lines(join_lines(lines)) == lines,
    decreases lines.len(),
{
    if lines.len() == 0 {
    } else if lines.len() == 1 {
        let t = lines[0];
        assert(plain_line(lines[0]));
        lemma_split_skips_plain(t, seq![], 0, t.len() as int);
        assert(Seq::<char>::empty() + t.subrange(0, t.len() as int) =~= t);
        assert(lines =~= seq![t]);
    } else {
        let first = lines[0];
        let rest = lines.drop_first();
        assert forall|i: int| 0 <= i < rest.len() implies plain_line(#[trigger] rest[i]) by {
            assert(rest[i] == lines[i + 1]);
        }
        lemma_lines_round_trip(rest);
        lemma_join_first(lines);
        let tail = join_lines(rest);
        let t = first + seq!['\n'] + tail;
        assert(plain_line(lines[0]));
        assert forall|j: int| 0 <= j < first.len() implies t[j] != '\n' by {
            assert(t[j] == first[j]);
        }
        lemma_split_skips_plain(t, seq![], 0, first.len() as int);
        assert(Seq::<char>::empty() + t.subrange(0, first.len() as int) =~= first);
        assert(t[first.len() as int] == '\n');
        assert(strip_cr(first) == first);
        lemma_split_shift(first + seq!['\n'], tail, seq![], 0);
        assert(first + seq!['\n'] + tail == t);
        assert(seq![first] + rest =~= lines);
    }
}

/// The error for a file not set for record access.
pub open spec fn not_record_access_error<T>(r: Result<T, ObjectError>) -> bool {
    r matches Err(ObjectError::InvalidValue(m)) && m@ == "File is not configured for record access"@
}

/// File object.
#[derive(Debug, Clone)]
pub struct File {
    pub identifier: ObjectIdentifier,
    pub object_name: String,
    /// File type (MIME type or file extension)
    pub file_type: String,
    /// File size in octets
    pub file_size: u32,
    pub modification_date: Date,
    pub archive: bool,
    pub read_only: bool,
    pub file_access_method: FileAccessMethod,
    /// Record count (for record access method)
    pub record_count: Option<u32>,
    pub description: String,
    /// File contents
    pub file_data: Vec<u8>,
}

/// Splits a text into its lines.
fn lines_of(t: &Vec<char>) -> (r: Vec<Vec<char>>)
    ensures
        char_views(r@) == text_lines(t@),
{
    let mut out: Vec<Vec<char>> = Vec::new();
    let mut cur: Vec<char> = Vec::new();
    let mut i: usize = 0;
    while i < t.len()
        invariant
            i <= t@.len(),
            char_views(out@) + split_lines(t@, cur@, i as int) == text_lines(t@),
        decreases t@.len() - i,
    {
        let ghost before = out@;
        let ghost c0 = cur@;
        if t[i] == '\n' {
            if cur.len() > 0 && cur[cur.len() - 1] == '\r' {
                cur.pop();
            }
            let line = cur;
            out.push(line);
            cur = Vec::new();
            proof {
                assert(char_views(out@) =~= char_views(before) + seq![strip_cr(c0)]);
                assert(split_lines(t@, c0, i as int) == seq![strip_cr(c0)] + split_lines(t@, seq![], i + 1));
                assert(char_views(before) + (seq![strip_cr(c0)] + split_lines(t@, seq![], i + 1))
                    =~= char_views(out@) + split_lines(t@, cur@, i + 1));
            }
        } else {
            cur.push(t[i]);
        }
        i = i + 1;
    }
    let ghost before = out@;
    if cur.len() > 0 {
        out.push(cur);
    }
    proof {
        assert(char_views(out@) =~= char_views(before) + split_lines(t@, seq![], t@.len() as int)
            || char_views(out@) =~= text_lines(t@));
        assert(char_views(out@) =~= text_lines(t@));
    }
    out
}

/// The UTF-8 octets of a text.
fn utf8_octets(chars: &Vec<char>) -> (r: Vec<u8>)
    ensures
        r@ == encode_utf8(chars@),
{
    let s = text_of(chars);
    vstd::slice::slice_to_vec(s.as_str().as_bytes())
}

/// The lines joined with "\n".
fn join_with_newlines(lines: &Vec<Vec<char>>) -> (r: Vec<char>)
    ensures
        r@ == join_lines(char_views(lines@)),
{
    let mut out: Vec<char> = Vec::new();
    let mut i: usize = 0;
    while i < lines.len()
        invariant
            i <= lines@.len(),
            out@ == join_lines(char_views(lines@.subrange(0, i as int))),
        decreases lines@.len() - i,
    {
        let ghost before = out@;
        if i > 0 {
            out.push('\n');
        }
        let mut k: usize = 0;
        let ghost mid = out@;
        while k < lines[i].len()
            invariant
                i < lines@.len(),
                k <= lines@[i as int]@.len(),
                out@ == mid + lines@[i as int]@.subrange(0, k as int),
            decreases lines@[i as int]@.len() - k,
        {
            out.push(lines[i][k]);
            k = k + 1;
            assert(out@ =~= mid + lines@[i as int]@.subrange(0, k as int));
        }
        proof {
            let s = char_views(lines@.subrange(0, i + 1));
            assert(s.drop_last() =~= char_views(lines@.subrange(0, i as int)));
            assert(s.last() == lines@[i as int]@);
            assert(lines@[i as int]@.subrange(0, k as int) =~= lines@[i as int]@);
            if i == 0 {
                assert(out@ =~= join_lines(s));
            } else {
                assert(out@ =~= join_lines(s));
            }
        }
        i = i + 1;
    }
    assert(lines@.subrange(0, i as int) =~= lines@);
    out
}

impl File {
    /// Creates a stream-access File, empty, dated 2024-01-01.
    pub fn new(instance: u32, object_name: String, file_type: String) -> (r: Self)
        ensures
            r.identifier == (ObjectIdentifier { object_type: ObjectType::File, instance }),
            r.object_name@ == object_name@,
            r.file_type@ == file_type@,
            r.file_size == 0,
            r.modification_date == (Date { year: 2024, month: 1, day: 1, weekday: 1 }),
            !r.archive,
            !r.read_only,
            r.file_access_method == FileAccessMethod::StreamAccess,
            r.record_count is None,
            r.description@ == Seq::<char>::empty(),
            r.file_data@ == Seq::<u8>::empty(),
    {
        File {
            identifier: ObjectIdentifier::new(ObjectType::File, instance),
            object_name,
            file_type,
            file_size: 0,
            modification_date: Date { year: 2024, month: 1, day: 1, weekday: 1 },
            archive: false,
            read_only: false,
            file_access_method: FileAccessMethod::StreamAccess,
            record_count: None,
            description: String::new(),
            file_data: Vec::new(),
        }
    }

    /// Replaces the file's contents; the size follows.
    pub fn set_file_data(&mut self, data: Vec<u8>)
        ensures
            final(self).file_data@ == data@,
            final(self).file_size == data@.len() as u32,
            *final(self) == (File { file_data: final(self).file_data, file_size: final(self).file_size, ..*old(self) }),
    {
        self.file_data = data;
        #[verifier::truncate]
        let size = self.file_data.len() as u32;
        self.file_size = size;
    }

    /// The file's contents.
    pub fn get_file_data(&self) -> (r: &[u8])
        ensures
            r@ == self.file_data@,
    {
        self.file_data.as_slice()
    }

    /// Reads up to `requested_count` octets from `start_position`; past
    /// the end of the file the result is empty.
    pub fn read_data(&self, start_position: u32, requested_count: u32) -> (r: Result<Vec<u8>, ObjectError>)
        requires
            start_position + requested_count <= u32::MAX,
        ensures
            r matches Ok(v) && v@ == (if start_position >= self.file_data@.len() {
                Seq::<u8>::empty()
            } else if start_position + requested_count <= self.file_data@.len() {
                self.file_data@.subrange(start_position as int, start_position + requested_count)
            } else {
                self.file_data@.subrange(start_position as int, self.file_data@.len() as int)
            }),
    {
        let start = start_position as usize;
        let end = (start_position + requested_count) as usize;
        if start >= self.file_data.len() {
            return Ok(Vec::new());
        }
        let actual_end = if end < self.file_data.len() { end } else { self.file_data.len() };
        let part = vstd::slice::slice_subrange(self.file_data.as_slice(), start, actual_end);
        Ok(vstd::slice::slice_to_vec(part))
    }

    /// Writes `data` at `start_position`, extending the file with zeros
    /// where it is shorter; refused for a read-only file.
    pub fn write_data(&mut self, start_position: u32, data: &[u8]) -> (r: Result<(), ObjectError>)
        requires
            start_position + data@.len() <= usize::MAX,
        ensures
            old(self).read_only <==> r matches Err(ObjectError::WriteAccessDenied),
            !old(self).read_only <==> r is Ok,
            r is Err ==> *final(self) == *old(self),
            r is Ok ==> final(self).file_data@ == octets_written(old(self).file_data@, start_position as int, data@),
            r is Ok ==> final(self).file_size == final(self).file_data@.len() as u32,
            r is Ok ==> *final(self) == (File { file_data: final(self).file_data, file_size: final(self).file_size, ..*old(self) }),
    {
        if self.read_only {
            return Err(ObjectError::WriteAccessDenied);
        }
        let start = start_position as usize;
        let required_len = start + data.len();
        let ghost d0 = self.file_data@;
        let mut buf: Vec<u8> = Vec::new();
        std::mem::swap(&mut buf, &mut self.file_data);
        while buf.len() < required_len
            invariant
                d0.len() <= buf@.len() <= (if d0.len() >= required_len { d0.len() as int } else { required_len as int }),
                forall|i: int| 0 <= i < d0.len() ==> buf@[i] == d0[i],
                forall|i: int| d0.len() <= i < buf@.len() ==> buf@[i] == 0,
            decreases required_len - buf@.len(),
        {
            buf.push(0);
        }
        let mut k: usize = 0;
        while k < data.len()
            invariant
                k <= data@.len(),
                required_len == start + data@.len(),
                buf@.len() == (if d0.len() >= required_len { d0.len() as int } else { required_len as int }),
                forall|i: int| 0 <= i < buf@.len() ==> buf@[i] == (
                    if start <= i < start + k { data@[i - start] } else if i < d0.len() { d0[i] } else { 0u8 }),
            decreases data@.len() - k,
        {
            buf.set(start + k, data[k]);
            k = k + 1;
        }
        assert(buf@ =~= octets_written(d0, start as int, data@));
        self.file_data = buf;
        #[verifier::truncate]
        let size = self.file_data.len() as u32;
        self.file_size = size;
        Ok(())
    }

    /// Reads records `start_record` to `start_record + record_count - 1`,
    /// each line of the file's text one record, as far as there are lines.
    pub fn read_records(&self, start_record: u32, record_count: u32) -> (r: Result<Vec<Vec<u8>>, ObjectError>)
        requires
            start_record + record_count <= u32::MAX,
        ensures
            (self.file_access_method == FileAccessMethod::RecordAccess) <==> r is Ok,
            r matches Ok(v) ==> octet_views(v@) == records_read(file_records(self.file_data@), start_record as int, start_record + record_count),
            r is Err ==> not_record_access_error(r),
    {
        if self.file_access_method != FileAccessMethod::RecordAccess {
            return Err(ObjectError::InvalidValue(chars_of("File is not configured for record access")));
        }
        let text = lossy_chars(self.file_data.as_slice());
        let lines = lines_of(&text);
        let ghost ls = char_views(lines@);
        let start_idx = start_record as usize;
        let end_idx = (start_record + record_count) as usize;
        let stop = if end_idx < lines.len() { end_idx } else { lines.len() };
        let mut records: Vec<Vec<u8>> = Vec::new();
        let mut i: usize = start_idx;
        while i < stop
            invariant
                start_idx <= i <= (if stop > start_idx { stop } else { start_idx }),
                stop <= lines@.len(),
                ls == char_views(lines@),
                octet_views(records@) =~= Seq::new((i - start_idx) as nat, |k: int| encode_utf8(ls[start_idx + k])),
            decreases stop - i,
        {
            let ghost before = records@;
            let rec = utf8_octets(&lines[i]);
            records.push(rec);
            proof {
                assert(ls[i as int] == lines@[i as int]@);
                assert(octet_views(records@) =~= octet_views(before) + seq![encode_utf8(ls[i as int])]);
            }
            i = i + 1;
        }
        assert(octet_views(records@) =~= records_read(ls, start_record as int, start_record + record_count));
        Ok(records)
    }

    /// Writes `records` as lines from `start_record` on, adding empty
    /// lines where the file has fewer; the file becomes the lines joined
    /// with "\n". Refused for a read-only file or one not set for record
    /// access.
    pub fn write_records(&mut self, start_record: u32, records: &[Vec<u8>]) -> (r: Result<(), ObjectError>)
        requires
            start_record + records@.len() <= usize::MAX,
        ensures
            (!old(self).read_only && old(self).file_access_method == FileAccessMethod::RecordAccess) <==> r is Ok,
            old(self).read_only ==> r matches Err(ObjectError::WriteAccessDenied),
            !old(self).read_only && old(self).file_access_method != FileAccessMethod::RecordAccess ==> not_record_access_error(r),
            r is Err ==> *final(self) == *old(self),
            r is Ok ==> ({
                let lines = records_written(file_records(old(self).file_data@), start_record as int, octet_views(records@));
                &&& final(self).file_data@ == encode_utf8(join_lines(lines))
                &&& final(self).file_size == final(self).file_data@.len() as u32
                &&& final(self).record_count == Some(lines.len() as u32)
            }),
            r is Ok ==> *final(self) == (File {
                file_data: final(self).file_data,
                file_size: final(self).file_size,
                record_count: final(self).record_count,
                ..*old(self)
            }),
    {
        if self.read_only {
            return Err(ObjectError::WriteAccessDenied);
        }
        if self.file_access_method != FileAccessMethod::RecordAccess {
            return Err(ObjectError::InvalidValue(chars_of("File is not configured for record access")));
        }
        let text = lossy_chars(self.file_data.as_slice());
        let mut lines = lines_of(&text);
        let ghost ls = char_views(lines@);
        let ghost recs = octet_views(records@);
        let start_idx = start_record as usize;
        let need = start_idx + records.len();
        while lines.len() < need
            invariant
                need == start_idx + records@.len(),
                ls.len() <= lines@.len() <= (if ls.len() >= start_idx + records@.len() { ls.len() as int } else { start_idx + records@.len() }),
                forall|i: int| 0 <= i < ls.len() ==> (#[trigger] lines@[i])@ == ls[i],
                forall|i: int| ls.len() <= i < lines@.len() ==> (#[trigger] lines@[i])@ == Seq::<char>::empty(),
            decreases need - lines@.len(),
        {
            lines.push(Vec::new());
        }
        let mut k: usize = 0;
        while k < records.len()
            invariant
                k <= records@.len(),
                need == start_idx + records@.len(),
                recs == octet_views(records@),
                lines@.len() == (if ls.len() >= start_idx + records@.len() { ls.len() as int } else { start_idx + records@.len() }),
                forall|i: int| 0 <= i < lines@.len() ==> (#[trigger] lines@[i])@ == (
                    if start_idx <= i < start_idx + k { utf8_lossy_decoded(recs[i - start_idx]) }
                    else if i < ls.len() { ls[i] } else { Seq::<char>::empty() }),
            decreases records@.len() - k,
        {
            let rec = lossy_chars(records[k].as_slice());
            lines.set(start_idx + k, rec);
            k = k + 1;
        }
        let ghost written = records_written(ls, start_record as int, recs);
        assert(char_views(lines@) =~= written);
        let joined = join_with_newlines(&lines);
        self.file_data = utf8_octets(&joined);
        #[verifier::truncate]
        let size = self.file_data.len() as u32;
        self.file_size = size;
        #[verifier::truncate]
        let count = lines.len() as u32;
        self.record_count = Some(count);
        Ok(())
    }
}

} // verus!
