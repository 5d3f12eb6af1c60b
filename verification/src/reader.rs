use vstd::prelude::*;
use crate::error::{error_text, RustLtfsError};
use crate::ops::TapeOperations;
use crate::text::{
    chars_to_string, contains, contains_chars, contains_str, decimal_exec, push_chars, push_str,
    remove_char, remove_char_exec, replace_all, replace_all_exec, str_to_chars, trim, trim_chars,
    trim_end_char,
};
use crate::validator::utf8_lossy;

verus! {

/// An index text cleaned of NUL characters and surrounding white space.
pub open spec fn cleaned(x: Seq<char>) -> Seq<char> {
    trim(remove_char(x, '\0'))
}

/// Removes NUL characters, then surrounding white space.
pub fn clean_index_text(x: &[char]) -> (r: Vec<char>)
    ensures
        r@ == cleaned(x@),
{
    let no_nul = remove_char_exec(x, '\0');
    trim_chars(&no_nul)
}

/// `String::from_utf8` on a copy of `b`: the text when `b` is valid UTF-8.
#[verifier::external_body]
fn string_from_utf8(b: &[u8]) -> (r: Option<String>)
    ensures
        match r {
            Some(s) => vstd::utf8::valid_utf8(b@) && s@ == vstd::utf8::decode_utf8(b@),
            None => !vstd::utf8::valid_utf8(b@),
        },
{
    match String::from_utf8(b.to_vec()) {
        Ok(s) => Some(s),
        Err(_) => None,
    }
}

/// What one block of an index read contributes: the text of the block
/// without its trailing NULs, when the block is valid UTF-8.
pub open spec fn block_text(b: Seq<u8>) -> Option<Seq<char>> {
    if vstd::utf8::valid_utf8(b) {
        Some(trim_end_char(vstd::utf8::decode_utf8(b), '\0'))
    } else {
        None
    }
}

pub open spec fn all_zero_block(b: Seq<u8>) -> bool {
    forall|i: int| 0 <= i < b.len() ==> b[i] == 0
}

/// The outcome of one single-block read.
pub enum BlockRead {
    /// The read returned a block.
    Block(Vec<u8>),
    /// The read returned no block (a file mark).
    NoBlock,
    /// The read failed.
    Failed,
}

/// Reads an index block by block until a file mark, an all-zero block,
/// non-UTF-8 data, a read error, the closing `</ltfsindex>` tag, or the
/// block limit.
pub struct IndexBlockReader {
    pub xml: Vec<char>,
    pub blocks_read: u32,
    pub has_data: bool,
    pub stopped: bool,
    pub failed_without_data: bool,
    pub max_blocks: u32,
}

impl IndexBlockReader {
    pub fn new(max_blocks: u32) -> (r: Self)
        ensures
            r.xml@ == Seq::<char>::empty(),
            r.blocks_read == 0,
            !r.has_data,
            !r.stopped,
            !r.failed_without_data,
            r.max_blocks == max_blocks,
    {
        IndexBlockReader {
            xml: Vec::new(),
            blocks_read: 0,
            has_data: false,
            stopped: false,
            failed_without_data: false,
            max_blocks,
        }
    }

    /// Whether another block should be read.
    pub fn wants_block(&self) -> (b: bool)
        ensures
            b == (!self.stopped && self.blocks_read < self.max_blocks),
    {
        !self.stopped && self.blocks_read < self.max_blocks
    }

    /// Takes the outcome of one read.
    pub fn feed(&mut self, read: BlockRead)
        requires
            old(self).blocks_read < old(self).max_blocks,
            !old(self).stopped,
        ensures
            final(self).max_blocks == old(self).max_blocks,
            match read {
                BlockRead::NoBlock => final(self).stopped && final(self).xml@ == old(self).xml@
                    && final(self).blocks_read == old(self).blocks_read
                    && final(self).has_data == old(self).has_data
                    && final(self).failed_without_data == old(self).failed_without_data,
                BlockRead::Failed => final(self).stopped && final(self).xml@ == old(self).xml@
                    && final(self).blocks_read == old(self).blocks_read
                    && final(self).has_data == old(self).has_data
                    && final(self).failed_without_data == !old(self).has_data,
                BlockRead::Block(b) => {
                    &&& final(self).blocks_read == old(self).blocks_read + 1
                    &&& final(self).has_data == (old(self).has_data || !all_zero_block(b@))
                    &&& final(self).failed_without_data == old(self).failed_without_data
                    &&& if all_zero_block(b@) {
                        final(self).stopped && final(self).xml@ == old(self).xml@
                    } else {
                        match block_text(b@) {
                            Some(t) => final(self).xml@ == old(self).xml@ + t && final(self).stopped
                                == contains(old(self).xml@ + t, "</ltfsindex>"@),
                            None => final(self).stopped && final(self).xml@ == old(self).xml@,
                        }
                    }
                },
            },
    {
        match read {
            BlockRead::NoBlock => {
                self.stopped = true;
            },
            BlockRead::Failed => {
                self.stopped = true;
                self.failed_without_data = !self.has_data;
            },
            BlockRead::Block(buffer) => {
                self.blocks_read = self.blocks_read + 1;
                let mut any = false;
                let mut i: usize = 0;
                while i < buffer.len()
                    invariant
                        i <= buffer@.len(),
                        any == exists|j: int| 0 <= j < i && buffer@[j] != 0,
                    decreases buffer@.len() - i,
                {
                    if buffer[i] != 0 {
                        any = true;
                    }
                    i = i + 1;
                }
                if any {
                    self.has_data = true;
                } else {
                    self.stopped = true;
                    return;
                }
                match string_from_utf8(buffer.as_slice()) {
                    Some(text) => {
                        let cs = str_to_chars(text.as_str());
                        let mut end = cs.len();
                        assert(cs@.take(end as int) =~= cs@);
                        while end > 0 && cs[end - 1] == '\0'
                            invariant
                                end <= cs@.len(),
                                trim_end_char(cs@, '\0') == trim_end_char(cs@.take(end as int), '\0'),
                            decreases end,
                        {
                            assert(cs@.take(end as int).drop_last() =~= cs@.take(end - 1));
                            end = end - 1;
                        }
                        proof {
                            let t = cs@.take(end as int);
                            if t.len() > 0 {
                                assert(t.last() == cs@[end - 1]);
                            }
                            assert(trim_end_char(t, '\0') == t);
                        }
                        let piece = &cs.as_slice()[0..end];
                        assert(piece@ =~= cs@.take(end as int));
                        push_chars(&mut self.xml, piece);
                        if contains_str(&self.xml, "</ltfsindex>") {
                            self.stopped = true;
                        }
                    },
                    None => {
                        self.stopped = true;
                    },
                }
            },
        }
    }

    /// The result of the read done to detect the format: the cleaned text,
    /// or an error when the very first read failed before any data came.
    pub fn finish_format_probe(&self) -> (r: Result<String, RustLtfsError>)
        ensures
            match r {
                Ok(s) => !self.failed_without_data && s@ == cleaned(self.xml@),
                Err(e) => self.failed_without_data && e is LtfsIndex,
            },
    {
        if self.failed_without_data {
            return Err(RustLtfsError::LtfsIndex("No data could be read from tape".to_owned()));
        }
        let c = clean_index_text(&self.xml);
        Ok(chars_to_string(&c))
    }

    /// The result of a read at the current position: the cleaned text,
    /// which must not be empty.
    pub fn finish_at_position(&self) -> (r: Result<String, RustLtfsError>)
        ensures
            match r {
                Ok(s) => cleaned(self.xml@).len() > 0 && s@ == cleaned(self.xml@),
                Err(e) => cleaned(self.xml@).len() == 0 && e is LtfsIndex,
            },
    {
        let c = clean_index_text(&self.xml);
        if c.len() == 0 {
            return Err(RustLtfsError::LtfsIndex("No XML content found at current position".to_owned()));
        }
        Ok(chars_to_string(&c))
    }
}

/// The index found at the current position from a 10-block read: the
/// lossily decoded text without NULs and surrounding white space, when it
/// is longer than 100 bytes.
pub open spec fn index_at_position(buffer: Seq<u8>) -> Option<Seq<char>> {
    let c = cleaned(utf8_lossy(buffer));
    if (vstd::utf8::encode_utf8(c).len() as usize) > 100 {
        Some(c)
    } else {
        None
    }
}

impl TapeOperations {
    /// The index text in `buffer`, the ten blocks read at the current
    /// position (`read` is the outcome of that read).
    pub fn try_read_index_at_current_position(&self, read: Result<Vec<u8>, RustLtfsError>) -> (r: Result<String, RustLtfsError>)
        ensures
            match read {
                Ok(b) => match index_at_position(b@) {
                    Some(x) => r matches Ok(s) && s@ == x,
                    None => r matches Err(e) && e is LtfsIndex,
                },
                Err(e) => r == Err::<String, RustLtfsError>(e),
            },
    {
        match read {
            Ok(buffer) => {
                let text = crate::validator::from_utf8_lossy(buffer.as_slice());
                let cs = str_to_chars(text.as_str());
                let c = clean_index_text(&cs);
                let s = chars_to_string(&c);
                if s.as_str().len() > 100 {
                    Ok(s)
                } else {
                    Err(RustLtfsError::LtfsIndex("No sufficient data at position".to_owned()))
                }
            },
            Err(e) => Err(e),
        }
    }
}


/// The bytes of `b` before its first zero byte (all of it without one).
pub open spec fn before_first_zero(b: Seq<u8>) -> Seq<u8> {
    if exists|i: int| 0 <= i < b.len() && b[i] == 0 {
        b.take(choose|i: int| 0 <= i < b.len() && b[i] == 0 && forall|j: int| 0 <= j < i ==> b[j] != 0)
    } else {
        b
    }
}

/// The next step of an expanding index read.
pub enum ExpansionStep {
    /// Read again from the same place, this many blocks.
    ReadMore(u32),
    /// The index text.
    Done(String),
    Failed(RustLtfsError),
}

/// Reads the index with a growing read: 10 blocks first, doubled (up to
/// 200) while the closing `</ltfsindex>` tag is missing.
pub struct ExpandingIndexRead {
    pub blocks_to_read: u32,
}

pub open spec fn next_block_count(b: u32) -> u32 {
    if 2 * b < 200 { (2 * b) as u32 } else { 200 }
}

impl ExpandingIndexRead {
    pub fn new() -> (r: Self)
        ensures
            r.blocks_to_read == 10,
    {
        ExpandingIndexRead { blocks_to_read: 10 }
    }

    /// Takes the outcome of reading `blocks_to_read` blocks: the text up to
    /// the first zero byte must be UTF-8; with the closing tag, or once 200
    /// blocks were read, it is the index (which must hold `<ltfsindex`);
    /// otherwise the read is repeated with twice the blocks.
    pub fn feed(&mut self, read: Result<Vec<u8>, RustLtfsError>) -> (r: ExpansionStep)
        requires
            old(self).blocks_to_read <= 200,
        ensures
            final(self).blocks_to_read <= 200,
            match read {
                Err(e) => r matches ExpansionStep::Failed(f) && f is Scsi,
                Ok(b) => {
                    let p = before_first_zero(b@);
                    if !vstd::utf8::valid_utf8(p) {
                        r matches ExpansionStep::Failed(f) && f is LtfsIndex
                    } else {
                        let x = vstd::utf8::decode_utf8(p);
                        if contains(x, "</ltfsindex>"@) || old(self).blocks_to_read >= 200 {
                            if x.len() > 0 && contains(x, "<ltfsindex"@) {
                                r matches ExpansionStep::Done(s) && s@ == x
                            } else {
                                r matches ExpansionStep::Failed(f) && f is LtfsIndex
                            }
                        } else {
                            final(self).blocks_to_read == next_block_count(old(self).blocks_to_read)
                                && r == ExpansionStep::ReadMore(final(self).blocks_to_read)
                        }
                    }
                },
            },
    {
        match read {
            Err(e) => {
                let text = e.to_text();
                let t = str_to_chars(text.as_str());
                let mut m: Vec<char> = Vec::new();
                push_str(&mut m, "Failed to read index from tape: ");
                push_chars(&mut m, &t);
                if contains_str(&t, "Direct block read operation failed") {
                    push_str(&mut m, ". Possible causes: blank tape, incorrect position, hardware issue, SCSI problem. Try --skip-index option.");
                }
                ExpansionStep::Failed(RustLtfsError::Scsi(chars_to_string(&m)))
            },
            Ok(buffer) => {
                let mut n: usize = 0;
                while n < buffer.len() && buffer[n] != 0
                    invariant
                        n <= buffer@.len(),
                        forall|j: int| 0 <= j < n ==> buffer@[j] != 0,
                    decreases buffer@.len() - n,
                {
                    n = n + 1;
                }
                let prefix = &buffer.as_slice()[0..n];
                proof {
                    let b = buffer@;
                    if n < b.len() {
                        assert(b[n as int] == 0);
                        let w = choose|i: int| 0 <= i < b.len() && b[i] == 0 && forall|j: int| 0 <= j < i ==> b[j] != 0;
                        assert(0 <= w < b.len() && b[w] == 0 && forall|j: int| 0 <= j < w ==> b[j] != 0);
                        assert(w == n) by {
                            if w < n {
                                assert(b[w] != 0);
                            } else if w > n {
                                assert(b[n as int] != 0);
                            }
                        }
                    } else {
                        assert(!(exists|i: int| 0 <= i < b.len() && b[i] == 0));
                        assert(b.take(n as int) =~= b);
                    }
                    assert(prefix@ =~= before_first_zero(b));
                }
                match string_from_utf8(prefix) {
                    None => ExpansionStep::Failed(RustLtfsError::LtfsIndex(
                        "Failed to parse index data as UTF-8".to_owned(),
                    )),
                    Some(content) => {
                        let cs = str_to_chars(content.as_str());
                        if contains_str(&cs, "</ltfsindex>") || self.blocks_to_read >= 200 {
                            if cs.len() > 0 && contains_str(&cs, "<ltfsindex") {
                                ExpansionStep::Done(content)
                            } else if cs.len() == 0 {
                                ExpansionStep::Failed(RustLtfsError::LtfsIndex("Index XML is empty".to_owned()))
                            } else {
                                ExpansionStep::Failed(RustLtfsError::LtfsIndex(
                                    "Invalid LTFS index format - missing ltfsindex element".to_owned(),
                                ))
                            }
                        } else {
                            self.blocks_to_read = if 2 * self.blocks_to_read < 200 {
                                2 * self.blocks_to_read
                            } else {
                                200
                            };
                            ExpansionStep::ReadMore(self.blocks_to_read)
                        }
                    },
                }
            },
        }
    }
}

/// Whether a read error should be retried: the decision taken from the
/// error's text, the blocks read so far, the number of errors in a row and,
/// for a device status error, whether TEST UNIT READY then succeeded.
pub open spec fn read_error_retry(t: Seq<char>, blocks_read: u32, error_count: u32, recovered: bool) -> bool {
    if contains(t, "Direct block read operation failed"@) {
        if blocks_read > 0 { false } else { error_count <= 2 }
    } else if contains(t, "Device not ready"@) || contains(t, "Unit attention"@) {
        if recovered { true } else { error_count <= 1 }
    } else if contains(t, "Medium error"@) || contains(t, "Unrecovered read error"@) {
        if blocks_read > 10 { false } else { error_count <= 1 }
    } else if contains(t, "Illegal request"@) || contains(t, "Invalid field"@) {
        false
    } else if contains(t, "Hardware error"@) || contains(t, "Communication failure"@) {
        error_count <= 1
    } else {
        error_count <= 2
    }
}

/// A read error calls for a TEST UNIT READY probe before it is judged.
pub open spec fn needs_unit_ready_probe(t: Seq<char>) -> bool {
    !contains(t, "Direct block read operation failed"@) && (contains(t, "Device not ready"@)
        || contains(t, "Unit attention"@))
}

impl TapeOperations {
    /// Whether the caller should probe the drive with TEST UNIT READY
    /// before `handle_scsi_read_error` judges `error`.
    pub fn read_error_needs_unit_ready_probe(&self, error: &RustLtfsError) -> (b: bool)
        ensures
            b == needs_unit_ready_probe(error_text(*error)),
    {
        let text = error.to_text();
        let t = str_to_chars(text.as_str());
        !contains_str(&t, "Direct block read operation failed") && (contains_str(&t, "Device not ready")
            || contains_str(&t, "Unit attention"))
    }

    /// Whether reading should go on after `error` (true) or stop (false).
    /// `device_recovered` is the outcome of the TEST UNIT READY probe for a
    /// device status error, and is not looked at otherwise.
    pub fn handle_scsi_read_error(&self, error: &RustLtfsError, blocks_read: u32, error_count: u32, device_recovered: bool) -> (r: Result<bool, RustLtfsError>)
        ensures
            r == Ok::<bool, RustLtfsError>(read_error_retry(error_text(*error), blocks_read, error_count, device_recovered)),
    {
        let text = error.to_text();
        let t = str_to_chars(text.as_str());
        if contains_str(&t, "Direct block read operation failed") {
            if blocks_read > 0 {
                return Ok(false);
            } else {
                return Ok(error_count <= 2);
            }
        }
        if contains_str(&t, "Device not ready") || contains_str(&t, "Unit attention") {
            if device_recovered {
                return Ok(true);
            } else {
                return Ok(error_count <= 1);
            }
        }
        if contains_str(&t, "Medium error") || contains_str(&t, "Unrecovered read error") {
            if blocks_read > 10 {
                return Ok(false);
            } else {
                return Ok(error_count <= 1);
            }
        }
        if contains_str(&t, "Illegal request") || contains_str(&t, "Invalid field") {
            return Ok(false);
        }
        if contains_str(&t, "Hardware error") || contains_str(&t, "Communication failure") {
            return Ok(error_count <= 1);
        }
        Ok(error_count <= 2)
    }
}


/// Appends the bytes of `src` to `dst`.
fn append_bytes(dst: &mut Vec<u8>, src: &[u8])
    ensures
        final(dst)@ == old(dst)@ + src@,
{
    let ghost d0 = dst@;
    let mut i: usize = 0;
    while i < src.len()
        invariant
            i <= src@.len(),
            dst@ == d0 + src@.take(i as int),
        decreases src@.len() - i,
    {
        dst.push(src[i]);
        assert(src@.take(i + 1) =~= src@.take(i as int).push(src@[i as int]));
        assert(d0 + src@.take(i + 1) =~= (d0 + src@.take(i as int)).push(src@[i as int]));
        i = i + 1;
    }
    assert(src@.take(src@.len() as int) =~= src@);
}

/// The next step of a read to the file mark.
pub enum FileMarkStep {
    /// Read the next block.
    Continue,
    /// Stop and use what was read.
    Stop,
    Failed(RustLtfsError),
}

/// The first `n` bytes of `d` (all of it when shorter).
pub open spec fn head_of(d: Seq<u8>, n: int) -> Seq<u8> {
    if d.len() < n { d } else { d.take(n) }
}

/// The first 8 KiB read show the start of an index: `<?xml` or
/// `<ltfsindex`.
pub open spec fn index_start_seen(d: Seq<u8>) -> bool {
    contains(utf8_lossy(head_of(d, 8192)), "<?xml"@) || contains(utf8_lossy(head_of(d, 8192)), "<ltfsindex"@)
}

/// Reads block by block up to a file mark: at most 50 blocks, or 200 once
/// the first 8 KiB read show the start of an index.  A read error stops
/// the read, and fails it when nothing was read yet.
pub struct FileMarkReader {
    pub data: Vec<u8>,
    pub blocks_read: u32,
    pub max_blocks: u32,
}

fn prefix_bytes(d: &[u8], n: usize) -> (r: Vec<u8>)
    ensures
        r@ == head_of(d@, n as int),
{
    let m = if d.len() < n { d.len() } else { n };
    let mut r: Vec<u8> = Vec::new();
    let mut i: usize = 0;
    while i < m
        invariant
            i <= m <= d@.len(),
            m == if d@.len() < n { d@.len() } else { n as nat },
            r@ == d@.take(i as int),
        decreases m - i,
    {
        r.push(d[i]);
        assert(d@.take(i + 1) =~= d@.take(i as int).push(d@[i as int]));
        i = i + 1;
    }
    assert(d@.len() < n ==> d@.take(m as int) =~= d@);
    r
}

impl FileMarkReader {
    pub fn new() -> (r: Self)
        ensures
            r.data@ == Seq::<u8>::empty(),
            r.blocks_read == 0,
            r.max_blocks == 50,
    {
        FileMarkReader { data: Vec::new(), blocks_read: 0, max_blocks: 50 }
    }

    /// Whether the block limit still allows a read.
    pub fn wants_block(&self) -> (b: bool)
        ensures
            b == (self.blocks_read < self.max_blocks),
    {
        self.blocks_read < self.max_blocks
    }

    /// A read returned `buffer` (`None`: it returned no block, a file mark).
    /// A block read raises the limit to 200 blocks once the data read so
    /// far shows the start of an index.
    pub fn feed_block(&mut self, buffer: Option<Vec<u8>>) -> (r: FileMarkStep)
        requires
            old(self).blocks_read < old(self).max_blocks <= 200,
        ensures
            match buffer {
                None => r is Stop && *final(self) == *old(self),
                Some(b) => {
                    &&& r is Continue
                    &&& final(self).data@ == old(self).data@ + b@
                    &&& final(self).blocks_read == old(self).blocks_read + 1
                    &&& final(self).max_blocks == if old(self).max_blocks < 200 && index_start_seen(
                        old(self).data@ + b@,
                    ) {
                        200
                    } else {
                        old(self).max_blocks
                    }
                },
            },
    {
        match buffer {
            None => FileMarkStep::Stop,
            Some(b) => {
                append_bytes(&mut self.data, b.as_slice());
                self.blocks_read = self.blocks_read + 1;
                if self.max_blocks < 200 {
                    let head = prefix_bytes(self.data.as_slice(), 8192);
                    let text = crate::validator::from_utf8_lossy(head.as_slice());
                    let cs = str_to_chars(text.as_str());
                    if contains_str(&cs, "<?xml") || contains_str(&cs, "<ltfsindex") {
                        self.max_blocks = 200;
                    }
                }
                FileMarkStep::Continue
            },
        }
    }

    /// A read failed with `error`: the read fails when nothing was read
    /// yet, and otherwise stops with what was read.
    pub fn feed_error(&mut self, error: &RustLtfsError) -> (r: FileMarkStep)
        ensures
            *final(self) == *old(self),
            old(self).blocks_read == 0 ==> (r matches FileMarkStep::Failed(RustLtfsError::Scsi(m))
                && m@ == "Failed to read any data (Debug Mode - No Retry): "@ + error_text(*error)),
            old(self).blocks_read > 0 ==> r is Stop,
    {
        if self.blocks_read == 0 {
            let text = error.to_text();
            let mut m: Vec<char> = Vec::new();
            push_str(&mut m, "Failed to read any data (Debug Mode - No Retry): ");
            push_str(&mut m, text.as_str());
            return FileMarkStep::Failed(RustLtfsError::Scsi(chars_to_string(&m)));
        }
        FileMarkStep::Stop
    }

    /// The index text read: the data decoded (invalid UTF-8 replaced),
    /// cleaned of NULs and surrounding white space; it must not be empty.
    pub fn finish(&self) -> (r: Result<String, RustLtfsError>)
        ensures
            match r {
                Ok(s) => s@ == cleaned(utf8_lossy(self.data@)) && s@.len() > 0,
                Err(e) => cleaned(utf8_lossy(self.data@)).len() == 0 && (e matches RustLtfsError::LtfsIndex(m)
                    && m@ == "Cleaned XML is empty"@),
            },
    {
        let text = crate::validator::from_utf8_lossy(self.data.as_slice());
        let cs = str_to_chars(text.as_str());
        let c = clean_index_text(&cs);
        if c.len() == 0 {
            return Err(RustLtfsError::LtfsIndex("Cleaned XML is empty".to_owned()));
        }
        Ok(chars_to_string(&c))
    }
}

/// What `FromSchemaText` makes of an index text: NULs removed; then, with at
/// least 20 bytes left, the non-standard `<_directory>` and `<_file>`
/// wrappers that LTFSCopyGUI writes removed and `%25` decoded; it must
/// still mention `ltfsindex`, `directory` or `file`.
pub open spec fn schema_text_rewrite(s: Seq<char>) -> Seq<char> {
    let a = remove_char(s, '\0');
    let b = replace_all(a, "<_directory>"@, ""@);
    let c = replace_all(b, "</_directory>"@, ""@);
    let d = replace_all(c, "<_file>"@, ""@);
    let e = replace_all(d, "</_file>"@, ""@);
    replace_all(e, "%25"@, "%"@)
}

pub open spec fn schema_text_ok(s: Seq<char>) -> bool {
    let a = remove_char(s, '\0');
    let r = schema_text_rewrite(s);
    &&& (vstd::utf8::encode_utf8(a).len() as usize) >= 20
    &&& (contains(r, "ltfsindex"@) || contains(r, "directory"@) || contains(r, "file"@))
}

fn replace_literal(s: &[char], p: &str, r: &str) -> (out: Vec<char>)
    ensures
        out@ == replace_all(s@, p@, r@),
{
    let pc = str_to_chars(p);
    let rc = str_to_chars(r);
    replace_all_exec(s, &pc, &rc)
}

impl TapeOperations {
    /// LTFSCopyGUI's `FromSchemaText`: see `schema_text_rewrite`.
    pub fn ltfscopygui_from_schema_text(&self, s: String) -> (r: Result<String, RustLtfsError>)
        ensures
            match r {
                Ok(t) => schema_text_ok(s@) && t@ == schema_text_rewrite(s@),
                Err(e) => !schema_text_ok(s@) && e is LtfsIndex,
            },
    {
        let cs = str_to_chars(s.as_str());
        let a = remove_char_exec(&cs, '\0');
        let a_text = chars_to_string(&a);
        let a_len = a_text.as_str().len();
        if a_len < 20 {
            let mut m: Vec<char> = Vec::new();
            push_str(&mut m, "Schema text too short after null removal: ");
            push_chars(&mut m, &decimal_exec(a_len as u64));
            push_str(&mut m, " bytes");
            return Err(RustLtfsError::LtfsIndex(chars_to_string(&m)));
        }
        let b = replace_literal(&a, "<_directory>", "");
        let c = replace_literal(&b, "</_directory>", "");
        let d = replace_literal(&c, "<_file>", "");
        let e = replace_literal(&d, "</_file>", "");
        let f = replace_literal(&e, "%25", "%");
        if !contains_str(&f, "ltfsindex") && !contains_str(&f, "directory") && !contains_str(&f, "file") {
            return Err(RustLtfsError::LtfsIndex("No LTFS structure found in processed text".to_owned()));
        }
        Ok(chars_to_string(&f))
    }

    /// The index text of data read to a file mark: the lossily decoded text
    /// itself when it mentions `XMLSchema`, otherwise what
    /// `ltfscopygui_from_schema_text` makes of it.
    pub fn index_text_from_file_mark_data(&self, data: &[u8]) -> (r: Result<String, RustLtfsError>)
        ensures
            contains(utf8_lossy(data@), "XMLSchema"@) ==> (r matches Ok(t) && t@ == utf8_lossy(data@)),
            !contains(utf8_lossy(data@), "XMLSchema"@) ==> match r {
                Ok(t) => schema_text_ok(utf8_lossy(data@)) && t@ == schema_text_rewrite(utf8_lossy(data@)),
                Err(e) => !schema_text_ok(utf8_lossy(data@)) && e is LtfsIndex,
            },
    {
        let text = crate::validator::from_utf8_lossy(data);
        let cs = str_to_chars(text.as_str());
        if contains_str(&cs, "XMLSchema") {
            Ok(text)
        } else {
            self.ltfscopygui_from_schema_text(text)
        }
    }
}

impl TapeOperations {
    /// Starts the read of an index at the start of a partition: block by
    /// block, at most 50 blocks.
    pub fn try_read_ltfs_index(&self) -> (r: IndexBlockReader)
        ensures
            r.max_blocks == 50,
            r.blocks_read == 0,
            !r.stopped,
            r.xml@ == Seq::<char>::empty(),
    {
        IndexBlockReader::new(50)
    }

    /// Starts the read of an index at the current position: block by
    /// block, at most 50 blocks.
    pub fn try_read_index_at_current_position_sync(&self) -> (r: IndexBlockReader)
        ensures
            r.max_blocks == 50,
            r.blocks_read == 0,
            !r.stopped,
            r.xml@ == Seq::<char>::empty(),
    {
        IndexBlockReader::new(50)
    }

    /// Starts the read of the index XML with a growing read of 10 blocks,
    /// doubled up to 200.
    pub fn read_index_xml_from_tape(&self) -> (r: ExpandingIndexRead)
        ensures
            r.blocks_to_read == 10,
    {
        ExpandingIndexRead::new()
    }

    /// Starts a read up to the next file mark, in blocks of `block_size`
    /// bytes: at most 50, or 200 once an index start is seen.
    pub fn read_to_file_mark_with_temp_file(&self, block_size: usize) -> (r: FileMarkReader)
        ensures
            r.data@ == Seq::<u8>::empty(),
            r.blocks_read == 0,
            r.max_blocks == 50,
    {
        FileMarkReader::new()
    }
}


/// A read up to the next file mark in the manner of LTFSCopyGUI: blocks of
/// 64 KiB, at most 50 of them; an empty read, a short read (the file mark)
/// or a read error ends it, and what was read must be UTF-8 text.
pub struct CopyGuiFileMarkRead {
    pub data: Vec<u8>,
    pub blocks_read: u32,
    pub done: bool,
}

impl CopyGuiFileMarkRead {
    /// Whether another block is to be read.
    pub fn wants_block(&self) -> (b: bool)
        ensures
            b == (!self.done && self.blocks_read < 50),
    {
        !self.done && self.blocks_read < 50
    }

    /// A read of one block of 65536 bytes returned `read`.
    pub fn feed(&mut self, read: Result<Vec<u8>, RustLtfsError>)
        requires
            old(self).blocks_read < 50,
        ensures
            match read {
                Ok(b) => if b@.len() == 0 {
                    final(self).done && final(self).data@ == old(self).data@
                        && final(self).blocks_read == old(self).blocks_read
                } else {
                    final(self).data@ == old(self).data@ + b@
                        && final(self).blocks_read == old(self).blocks_read + 1
                        && final(self).done == (old(self).done || b@.len() < 65536)
                },
                Err(_) => final(self).done && final(self).data@ == old(self).data@
                    && final(self).blocks_read == old(self).blocks_read,
            },
    {
        match read {
            Ok(b) => {
                if b.len() == 0 {
                    self.done = true;
                } else {
                    append_bytes(&mut self.data, b.as_slice());
                    self.blocks_read = self.blocks_read + 1;
                    if b.len() < 65536 {
                        self.done = true;
                    }
                }
            },
            Err(_) => {
                self.done = true;
            },
        }
    }

    /// The text read, when the data is valid UTF-8.
    pub fn finish(&self) -> (r: Result<String, RustLtfsError>)
        ensures
            match r {
                Ok(s) => vstd::utf8::valid_utf8(self.data@) && s@ == vstd::utf8::decode_utf8(self.data@),
                Err(e) => !vstd::utf8::valid_utf8(self.data@) && e is FileOperation,
            },
    {
        match string_from_utf8(self.data.as_slice()) {
            Some(text) => Ok(text),
            None => Err(RustLtfsError::FileOperation(
                "Cannot read temp file: stream did not contain valid UTF-8".to_owned(),
            )),
        }
    }
}

impl TapeOperations {
    /// Starts a read of the index that begins at `block` (where the tape
    /// has been positioned) up to the next file mark.
    pub fn try_read_index_with_ltfscopygui_method(&self, block: u64) -> (r: CopyGuiFileMarkRead)
        ensures
            r.data@ == Seq::<u8>::empty(),
            r.blocks_read == 0,
            !r.done,
    {
        CopyGuiFileMarkRead { data: Vec::new(), blocks_read: 0, done: false }
    }
}

} // verus!
