use vstd::prelude::*;
use crate::error::RustLtfsError;
use crate::text::{
    chars_eq, chars_to_string, contains, contains_str, count_matches, count_matches_exec,
    decimal, decimal_exec, ends_with, ends_with_chars, first_index, index_of, is_control, is_control_char,
    parse_unsigned, parse_unsigned_exec, push_chars, push_str, starts_with, starts_with_chars,
    str_to_chars, trim_end, trim_end_chars, trim_start, trim_start_chars,
};

verus! {

/// The text that `String::from_utf8_lossy` makes of `b`.
pub uninterp spec fn utf8_lossy(b: Seq<u8>) -> Seq<char>;

/// `String::from_utf8_lossy`: the decoded text is a function of the bytes
/// alone, and bytes that are valid UTF-8 decode to exactly their characters.
#[verifier::external_body]
pub(crate) fn from_utf8_lossy(b: &[u8]) -> (s: String)
    ensures
        s@ == utf8_lossy(b@),
        vstd::utf8::valid_utf8(b@) ==> s@ == vstd::utf8::decode_utf8(b@),
{
    String::from_utf8_lossy(b).into_owned()
}

/// Unicode Alphabetic or Numeric, what `char::is_alphanumeric` tests.
pub uninterp spec fn alphanumeric(c: char) -> bool;

/// `char::is_alphanumeric`: a function of the character alone.
#[verifier::external_body]
fn is_alphanumeric(c: char) -> (b: bool)
    ensures
        b == alphanumeric(c),
{
    c.is_alphanumeric()
}

/// The state of the tag-balance scan over an XML text.
pub struct XmlScan {
    pub stack: Seq<Seq<char>>,
    pub in_tag: bool,
    /// The name of the current tag so far.
    pub tag: Seq<char>,
    /// The current tag began with `</`.
    pub closing: bool,
    /// The current tag is a declaration or comment (`<?` or `<!`).
    pub special: bool,
    /// The name of the current tag has ended (attributes may follow).
    pub name_done: bool,
    /// The last character of the current tag so far is `/`.
    pub last_slash: bool,
    pub failed: bool,
}

pub open spec fn xml_scan_start() -> XmlScan {
    XmlScan {
        stack: seq![],
        in_tag: false,
        tag: seq![],
        closing: false,
        special: false,
        name_done: false,
        last_slash: false,
        failed: false,
    }
}

/// A character may belong to a tag name.
pub open spec fn tag_char(c: char) -> bool {
    alphanumeric(c) || c == '_' || c == '-' || c == ':'
}

/// What `>` does to the scan: declarations, comments, self-closing tags
/// and empty names change nothing; an opening name is pushed; a closing
/// name must match the top of the stack.
pub open spec fn xml_tag_end(s: XmlScan) -> XmlScan {
    let done = XmlScan { in_tag: false, ..s };
    if !s.in_tag || s.special || s.last_slash || s.tag.len() == 0 {
        done
    } else if s.closing {
        if s.stack.len() == 0 || s.stack.last() != s.tag {
            XmlScan { failed: true, ..s }
        } else {
            XmlScan { stack: s.stack.drop_last(), ..done }
        }
    } else {
        XmlScan { stack: s.stack.push(s.tag), ..done }
    }
}

/// What a character inside a tag does: `/` right after `<` marks a
/// closing tag, `?` or `!` there a declaration or comment; the name is
/// made of the name characters up to the first other character, after
/// which attributes follow and are skipped.
pub open spec fn xml_tag_char(s: XmlScan, ch: char) -> XmlScan {
    let at_start = s.tag.len() == 0 && !s.closing && !s.special && !s.name_done;
    if ch == '/' && at_start {
        XmlScan { closing: true, last_slash: false, ..s }
    } else if (ch == '?' || ch == '!') && at_start {
        XmlScan { special: true, last_slash: false, ..s }
    } else if tag_char(ch) && !s.name_done && !s.special {
        XmlScan { tag: s.tag.push(ch), last_slash: false, ..s }
    } else {
        XmlScan { name_done: s.name_done || s.tag.len() > 0, last_slash: ch == '/', ..s }
    }
}

/// One step of the tag-balance scan: `<` starts a tag, `>` ends it.
pub open spec fn xml_step(s: XmlScan, ch: char) -> XmlScan {
    if s.failed {
        s
    } else if ch == '<' {
        XmlScan { in_tag: true, tag: seq![], closing: false, special: false, name_done: false, last_slash: false, ..s }
    } else if ch == '>' {
        xml_tag_end(s)
    } else if s.in_tag {
        xml_tag_char(s, ch)
    } else {
        s
    }
}

pub open spec fn xml_scan(x: Seq<char>) -> XmlScan
    decreases x.len(),
{
    if x.len() == 0 {
        xml_scan_start()
    } else {
        xml_step(xml_scan(x.drop_last()), x.last())
    }
}

/// Every tag of `x` that is opened is closed, in order.
pub open spec fn xml_balanced(x: Seq<char>) -> bool {
    !xml_scan(x).failed && xml_scan(x).stack.len() == 0
}

proof fn lemma_scan_failed_persists(x: Seq<char>, i: int, j: int)
    requires
        0 <= i <= j <= x.len(),
        xml_scan(x.take(i)).failed,
    ensures
        xml_scan(x.take(j)).failed,
    decreases j - i,
{
    if i < j {
        assert(x.take(i + 1).drop_last() =~= x.take(i));
        lemma_scan_failed_persists(x, i + 1, j);
    }
}

/// The validator of LTFS index data read from tape.  In strict mode the
/// first failed check ends the validation with an error; otherwise every
/// check runs and the failures are collected.
pub struct IndexValidator {
    pub strict_mode: bool,
    pub debug_mode: bool,
}

impl IndexValidator {
    /// A strict validator.
    pub fn new() -> (v: Self)
        ensures
            v.strict_mode,
            !v.debug_mode,
    {
        IndexValidator { strict_mode: true, debug_mode: false }
    }

    /// A lenient validator, for compatibility testing.
    pub fn new_lenient() -> (v: Self)
        ensures
            !v.strict_mode,
            !v.debug_mode,
    {
        IndexValidator { strict_mode: false, debug_mode: false }
    }

    pub fn set_strict_mode(&mut self, enabled: bool)
        ensures
            final(self).strict_mode == enabled,
            final(self).debug_mode == old(self).debug_mode,
    {
        self.strict_mode = enabled;
    }

    pub fn set_debug_mode(&mut self, enabled: bool)
        ensures
            final(self).debug_mode == enabled,
            final(self).strict_mode == old(self).strict_mode,
    {
        self.debug_mode = enabled;
    }

    /// Checks that the tags of `xml` balance (declarations, comments and
    /// self-closing tags skipped, attributes not part of a name); the error
    /// names the first mismatch, a stray closing tag or the tags left open.
    pub fn basic_xml_parse_check(&self, xml: &[char]) -> (r: Result<(), RustLtfsError>)
        ensures
            r is Ok <==> xml_balanced(xml@),
            r matches Err(e) ==> e is Parse,
    {
        let mut stack: Vec<Vec<char>> = Vec::new();
        let mut in_tag = false;
        let mut tag: Vec<char> = Vec::new();
        let mut closing = false;
        let mut special = false;
        let mut name_done = false;
        let mut last_slash = false;
        let mut i: usize = 0;
        assert(stack.deep_view() =~= Seq::<Seq<char>>::empty());
        assert(tag@ =~= Seq::<char>::empty());
        assert(xml@.take(0) =~= Seq::<char>::empty());
        while i < xml.len()
            invariant
                i <= xml@.len(),
                xml_scan(xml@.take(i as int)) == (XmlScan {
                    stack: stack.deep_view(),
                    in_tag: in_tag,
                    tag: tag@,
                    closing: closing,
                    special: special,
                    name_done: name_done,
                    last_slash: last_slash,
                    failed: false,
                }),
            decreases xml@.len() - i,
        {
            proof {
                assert(xml@.take(i + 1).drop_last() =~= xml@.take(i as int));
                assert(xml@.take(i + 1).last() == xml@[i as int]);
            }
            let ch = xml[i];
            let ghost before = stack.deep_view();
            if ch == '<' {
                in_tag = true;
                tag = Vec::new();
                closing = false;
                special = false;
                name_done = false;
                last_slash = false;
                assert(tag@ =~= Seq::<char>::empty());
            } else if ch == '>' {
                if in_tag && !special && !last_slash && tag.len() > 0 {
                    if closing {
                        let top = stack.pop();
                        match top {
                            Some(t) => {
                                assert(before.last() == t@) by {
                                    assert(t.deep_view() =~= t@);
                                }
                                if !chars_eq(&t, &tag) {
                                    proof {
                                        lemma_scan_failed_persists(xml@, i + 1, xml@.len() as int);
                                        assert(xml@.take(xml@.len() as int) =~= xml@);
                                    }
                                    let mut msg: Vec<char> = Vec::new();
                                    push_str(&mut msg, "XML标签不匹配: 期望 ");
                                    push_chars(&mut msg, &t);
                                    push_str(&mut msg, ", 实际 ");
                                    push_chars(&mut msg, &tag);
                                    return Err(RustLtfsError::Parse(chars_to_string(&msg)));
                                }
                                assert(stack.deep_view() =~= before.drop_last());
                            },
                            None => {
                                proof {
                                    lemma_scan_failed_persists(xml@, i + 1, xml@.len() as int);
                                    assert(xml@.take(xml@.len() as int) =~= xml@);
                                }
                                let mut msg: Vec<char> = Vec::new();
                                push_str(&mut msg, "多余的闭合标签: ");
                                push_chars(&mut msg, &tag);
                                return Err(RustLtfsError::Parse(chars_to_string(&msg)));
                            },
                        }
                    } else {
                        let ghost tv = tag@;
                        let copy = copy_chars(&tag);
                        assert(copy.deep_view() =~= tv);
                        stack.push(copy);
                        assert(stack.deep_view() =~= before.push(tv));
                    }
                }
                in_tag = false;
            } else if in_tag {
                let at_start = tag.len() == 0 && !closing && !special && !name_done;
                if ch == '/' && at_start {
                    closing = true;
                    last_slash = false;
                } else if (ch == '?' || ch == '!') && at_start {
                    special = true;
                    last_slash = false;
                } else if (is_alphanumeric(ch) || ch == '_' || ch == '-' || ch == ':') && !name_done && !special {
                    tag.push(ch);
                    last_slash = false;
                } else {
                    name_done = name_done || tag.len() > 0;
                    last_slash = ch == '/';
                }
            }
            i = i + 1;
        }
        assert(xml@.take(xml@.len() as int) =~= xml@);
        if stack.len() > 0 {
            let mut msg: Vec<char> = Vec::new();
            push_str(&mut msg, "未闭合的XML标签: [");
            let mut k: usize = 0;
            while k < stack.len()
                decreases stack@.len() - k,
            {
                if k > 0 {
                    push_str(&mut msg, ", ");
                }
                push_str(&mut msg, "\"");
                push_chars(&mut msg, &stack[k]);
                push_str(&mut msg, "\"");
                k = k + 1;
            }
            push_str(&mut msg, "]");
            return Err(RustLtfsError::Parse(chars_to_string(&msg)));
        }
        Ok(())
    }
}

/// A copy of `v`.
fn copy_chars(v: &Vec<char>) -> (r: Vec<char>)
    ensures
        r@ == v@,
{
    let mut r: Vec<char> = Vec::new();
    let mut i: usize = 0;
    while i < v.len()
        invariant
            i <= v@.len(),
            r@ == v@.take(i as int),
        decreases v@.len() - i,
    {
        r.push(v[i]);
        assert(v@.take(i + 1) =~= v@.take(i as int).push(v@[i as int]));
        i = i + 1;
    }
    assert(v@.take(v@.len() as int) =~= v@);
    r
}


/// What a validation reports about index data.
#[derive(Debug, Clone)]
pub struct ValidationResult {
    pub is_valid: bool,
    pub data_size: usize,
    pub has_ltfs_identifier: bool,
    pub xml_well_formed: bool,
    pub ltfs_version: Option<String>,
    pub volume_uuid: Option<String>,
    pub generation_number: Option<u64>,
    pub file_count_estimate: Option<usize>,
    pub warnings: Vec<String>,
    pub errors: Vec<String>,
}

pub open spec fn opt_view(o: Option<String>) -> Option<Seq<char>> {
    match o {
        Some(s) => Some(s@),
        None => None,
    }
}

/// Every byte is zero (so also when there is none).
pub open spec fn all_zero(d: Seq<u8>) -> bool {
    forall|i: int| 0 <= i < d.len() ==> d[i] == 0
}

/// Number of printable ASCII bytes (32 to 126).
pub open spec fn printable_count(d: Seq<u8>) -> nat
    decreases d.len(),
{
    if d.len() == 0 {
        0
    } else {
        printable_count(d.drop_last()) + if 32 <= d.last() && d.last() <= 126 {
            1nat
        } else {
            0nat
        }
    }
}

/// A control character other than newline, carriage return and tab occurs.
pub open spec fn has_bad_control(x: Seq<char>) -> bool {
    exists|i: int|
        0 <= i < x.len() && is_control_char(#[trigger] x[i]) && x[i] != '\n' && x[i] != '\r'
            && x[i] != '\t'
}

pub open spec fn flag(b: bool) -> nat {
    if b {
        1
    } else {
        0
    }
}

/// The text between the first `open` and the next `close` after it.
pub open spec fn between(x: Seq<char>, open: Seq<char>, close: Seq<char>) -> Option<Seq<char>> {
    let i = first_index(x, open, 0);
    if i < 0 {
        None
    } else {
        let start = i + open.len();
        let j = first_index(x, close, start);
        if j < 0 {
            None
        } else {
            Some(x.subrange(start, j))
        }
    }
}

/// The value of the first `version="..."` attribute.
pub open spec fn ltfs_version_of(x: Seq<char>) -> Option<Seq<char>> {
    between(x, "version=\""@, "\""@)
}

pub open spec fn volume_uuid_of(x: Seq<char>) -> Option<Seq<char>> {
    between(x, "<volumeuuid>"@, "</volumeuuid>"@)
}

pub open spec fn generation_number_of(x: Seq<char>) -> Option<nat> {
    match between(x, "<generationnumber>"@, "</generationnumber>"@) {
        Some(g) => parse_unsigned(g, u64::MAX as nat),
        None => None,
    }
}

pub open spec fn file_count_of(x: Seq<char>) -> Option<nat> {
    if count_matches(x, "<file>"@) > 0 {
        Some(count_matches(x, "<file>"@))
    } else {
        None
    }
}

/// Error checks on the raw bytes: no data, all zero.
pub open spec fn basic_errors(d: Seq<u8>) -> nat {
    flag(d.len() == 0) + flag(all_zero(d))
}

/// Warnings on the raw bytes: a size under 100 or over 100 000 000 bytes,
/// fewer than half of the bytes printable.
pub open spec fn basic_warnings(d: Seq<u8>) -> nat {
    flag(d.len() < 100 || d.len() > 100_000_000) + flag(printable_count(d) * 2 < d.len())
}

/// Error checks on the XML form: as many `<` as `>`, balanced tags.
pub open spec fn xml_errors(x: Seq<char>) -> nat {
    flag(count_matches(x, seq!['<']) != count_matches(x, seq!['>'])) + flag(!xml_balanced(x))
}

pub open spec fn xml_warnings(x: Seq<char>) -> nat {
    flag(!starts_with(trim_start(x), "<?xml"@)) + flag(has_bad_control(x))
}

pub open spec fn identifier_errors(x: Seq<char>) -> nat {
    flag(!contains(x, "<ltfsindex"@)) + flag(!contains(x, "</ltfsindex>"@))
}

pub open spec fn identifier_warnings(x: Seq<char>) -> nat {
    match ltfs_version_of(x) {
        Some(v) => flag(!starts_with(v, "2."@)),
        None => 1,
    }
}

/// An element occurs as `<name>` or as `<name ` (with attributes).
pub open spec fn has_element(x: Seq<char>, open_plain: Seq<char>, open_attr: Seq<char>) -> bool {
    contains(x, open_plain) || contains(x, open_attr)
}

pub open spec fn structure_complete(x: Seq<char>) -> bool {
    &&& has_element(x, "<volumeuuid>"@, "<volumeuuid "@)
    &&& has_element(x, "<generationnumber>"@, "<generationnumber "@)
    &&& has_element(x, "<updatetime>"@, "<updatetime "@)
    &&& has_element(x, "<directory>"@, "<directory "@)
}

pub open spec fn content_errors(x: Seq<char>) -> nat {
    flag(!ends_with(trim_end(x), "</ltfsindex>"@))
}

/// Warnings on the content: neither files nor directories, a NUL
/// character, fewer than 500 bytes of text.
pub open spec fn content_warnings(x: Seq<char>) -> nat {
    flag(!contains(x, "<file>"@) && !contains(x, "<directory>"@)) + flag(contains(x, seq!['\0']))
        + flag((vstd::utf8::encode_utf8(x).len() as usize) < 500)
}

/// Number of failed error checks over index data `d`.
pub open spec fn total_errors(d: Seq<u8>) -> nat {
    let x = utf8_lossy(d);
    basic_errors(d) + xml_errors(x) + identifier_errors(x) + flag(!structure_complete(x))
        + content_errors(x)
}

/// Number of warnings over index data `d`.
pub open spec fn total_warnings(d: Seq<u8>) -> nat {
    let x = utf8_lossy(d);
    basic_warnings(d) + xml_warnings(x) + identifier_warnings(x) + content_warnings(x)
}

/// `b` and `a` agree except on the two message lists.
pub open spec fn same_findings(a: ValidationResult, b: ValidationResult) -> bool {
    &&& a.is_valid == b.is_valid
    &&& a.data_size == b.data_size
    &&& a.has_ltfs_identifier == b.has_ltfs_identifier
    &&& a.xml_well_formed == b.xml_well_formed
    &&& a.ltfs_version == b.ltfs_version
    &&& a.volume_uuid == b.volume_uuid
    &&& a.generation_number == b.generation_number
    &&& a.file_count_estimate == b.file_count_estimate
}

fn message(s: &str) -> (r: String)
    ensures
        r@ == s@,
{
    s.to_owned()
}


/// Why index data was refused.
#[derive(Debug)]
pub enum IndexValidationError {
    EmptyData,
    AllZeroData { size: usize },
    InvalidXmlFormat { reason: String },
    MissingLtfsIdentifier { details: String },
    IncompleteStructure { missing_elements: String },
    ContentValidationFailed { reason: String },
    UnsupportedVersion { version: String },
}

/// The text of an index validation error.
pub open spec fn index_validation_message(e: IndexValidationError) -> Seq<char> {
    match e {
        IndexValidationError::EmptyData => "索引数据为空"@,
        IndexValidationError::AllZeroData { size } => "索引数据全为零 (读取了 "@ + decimal(size as nat)
            + " 字节的零数据)"@,
        IndexValidationError::InvalidXmlFormat { reason } => "XML格式无效: "@ + reason@,
        IndexValidationError::MissingLtfsIdentifier { details } => "LTFS索引标识缺失: "@ + details@,
        IndexValidationError::IncompleteStructure { missing_elements } => "LTFS索引结构不完整: "@
            + missing_elements@,
        IndexValidationError::ContentValidationFailed { reason } => "索引内容验证失败: "@ + reason@,
        IndexValidationError::UnsupportedVersion { version } => "索引版本不支持: "@ + version@,
    }
}

impl IndexValidationError {
    /// The text of the error.
    pub fn message(&self) -> (r: String)
        ensures
            r@ == index_validation_message(*self),
    {
        let mut m: Vec<char> = Vec::new();
        match self {
            IndexValidationError::EmptyData => {
                push_str(&mut m, "索引数据为空");
            },
            IndexValidationError::AllZeroData { size } => {
                push_str(&mut m, "索引数据全为零 (读取了 ");
                let digits = decimal_exec(*size as u64);
                push_chars(&mut m, &digits);
                push_str(&mut m, " 字节的零数据)");
            },
            IndexValidationError::InvalidXmlFormat { reason } => {
                push_str(&mut m, "XML格式无效: ");
                push_str(&mut m, reason.as_str());
            },
            IndexValidationError::MissingLtfsIdentifier { details } => {
                push_str(&mut m, "LTFS索引标识缺失: ");
                push_str(&mut m, details.as_str());
            },
            IndexValidationError::IncompleteStructure { missing_elements } => {
                push_str(&mut m, "LTFS索引结构不完整: ");
                push_str(&mut m, missing_elements.as_str());
            },
            IndexValidationError::ContentValidationFailed { reason } => {
                push_str(&mut m, "索引内容验证失败: ");
                push_str(&mut m, reason.as_str());
            },
            IndexValidationError::UnsupportedVersion { version } => {
                push_str(&mut m, "索引版本不支持: ");
                push_str(&mut m, version.as_str());
            },
        }
        chars_to_string(&m)
    }

    /// The library error that carries this one: an index error with its text.
    pub fn into_ltfs_error(self) -> (r: RustLtfsError)
        ensures
            r matches RustLtfsError::LtfsIndex(m) && m@ == index_validation_message(self),
    {
        RustLtfsError::LtfsIndex(self.message())
    }
}

fn all_zero_bytes(d: &[u8]) -> (r: bool)
    ensures
        r == all_zero(d@),
{
    let mut i: usize = 0;
    while i < d.len()
        invariant
            i <= d@.len(),
            forall|j: int| 0 <= j < i ==> d@[j] == 0,
        decreases d@.len() - i,
    {
        if d[i] != 0 {
            return false;
        }
        i = i + 1;
    }
    true
}

fn count_printable(d: &[u8]) -> (n: usize)
    ensures
        n == printable_count(d@),
        n <= d@.len(),
{
    let mut n: usize = 0;
    let mut i: usize = 0;
    while i < d.len()
        invariant
            i <= d@.len(),
            n == printable_count(d@.take(i as int)),
            n <= i,
        decreases d@.len() - i,
    {
        assert(d@.take(i + 1).drop_last() =~= d@.take(i as int));
        if d[i] >= 32 && d[i] <= 126 {
            n = n + 1;
        }
        i = i + 1;
    }
    assert(d@.take(d@.len() as int) =~= d@);
    n
}

fn has_bad_control_exec(x: &[char]) -> (r: bool)
    ensures
        r == has_bad_control(x@),
{
    let mut i: usize = 0;
    while i < x.len()
        invariant
            i <= x@.len(),
            forall|j: int|
                0 <= j < i ==> !(is_control_char(#[trigger] x@[j]) && x@[j] != '\n' && x@[j] != '\r'
                    && x@[j] != '\t'),
        decreases x@.len() - i,
    {
        let c = x[i];
        if is_control(c) && c != '\n' && c != '\r' && c != '\t' {
            assert(is_control_char(x@[i as int]));
            return true;
        }
        i = i + 1;
    }
    false
}

/// The text between the first `open` and the next `close`.
fn extract_between(x: &[char], open: &str, close: &str) -> (r: Option<Vec<char>>)
    ensures
        match r {
            Some(v) => between(x@, open@, close@) == Some(v@),
            None => between(x@, open@, close@) is None,
        },
{
    let o = str_to_chars(open);
    let c = str_to_chars(close);
    match index_of(x, &o, 0) {
        None => None,
        Some(i) => {
            assert(x@.len() == x.len());
            let start = i + o.len();
            match index_of(x, &c, start) {
                None => None,
                Some(j) => {
                    let mut v: Vec<char> = Vec::new();
                    let mut k = start;
                    while k < j
                        invariant
                            start <= k <= j <= x@.len(),
                            v@ == x@.subrange(start as int, k as int),
                        decreases j - k,
                    {
                        v.push(x[k]);
                        assert(x@.subrange(start as int, k + 1) =~= x@.subrange(start as int, k as int).push(x@[k as int]));
                        k = k + 1;
                    }
                    Some(v)
                },
            }
        },
    }
}

impl IndexValidator {
    /// The value of the first `version="..."` attribute.
    pub fn extract_ltfs_version(&self, xml: &[char]) -> (r: Option<String>)
        ensures
            opt_view(r) == ltfs_version_of(xml@),
    {
        match extract_between(xml, "version=\"", "\"") {
            Some(v) => Some(chars_to_string(&v)),
            None => None,
        }
    }

    /// The text of the first `<volumeuuid>` element.
    pub fn extract_volume_uuid(&self, xml: &[char]) -> (r: Option<String>)
        ensures
            opt_view(r) == volume_uuid_of(xml@),
    {
        match extract_between(xml, "<volumeuuid>", "</volumeuuid>") {
            Some(v) => Some(chars_to_string(&v)),
            None => None,
        }
    }

    /// The first `<generationnumber>` element read as a `u64`.
    pub fn extract_generation_number(&self, xml: &[char]) -> (r: Option<u64>)
        ensures
            match r {
                Some(g) => generation_number_of(xml@) == Some(g as nat),
                None => generation_number_of(xml@) is None,
            },
    {
        match extract_between(xml, "<generationnumber>", "</generationnumber>") {
            Some(v) => parse_unsigned_exec(&v, u64::MAX),
            None => None,
        }
    }

    /// The number of `<file>` elements, when there is any.
    pub fn estimate_file_count(&self, xml: &[char]) -> (r: Option<usize>)
        ensures
            match r {
                Some(n) => file_count_of(xml@) == Some(n as nat),
                None => file_count_of(xml@) is None,
            },
    {
        let p = str_to_chars("<file>");
        let n = count_matches_exec(xml, &p);
        if n > 0 {
            Some(n)
        } else {
            None
        }
    }
}


/// The error a strict validation gives for raw bytes that fail the basic
/// checks: empty data, or data that is all zero.
pub open spec fn basic_error_is(d: Seq<u8>, e: RustLtfsError) -> bool {
    e matches RustLtfsError::LtfsIndex(m) && m@ == if d.len() == 0 {
        index_validation_message(IndexValidationError::EmptyData)
    } else {
        index_validation_message(IndexValidationError::AllZeroData { size: d.len() as usize })
    }
}

impl IndexValidator {
    /// Checks the raw bytes: not empty, not all zero; warns on an unusual
    /// size or a low share of printable bytes.
    pub fn validate_basic_data(&self, data: &[u8], result: &mut ValidationResult) -> (r: Result<(), RustLtfsError>)
        ensures
            match r {
                Ok(_) => {
                    &&& self.strict_mode ==> basic_errors(data@) == 0
                    &&& final(result).errors@.len() == old(result).errors@.len() + basic_errors(data@)
                    &&& final(result).warnings@.len() == old(result).warnings@.len() + basic_warnings(data@)
                    &&& same_findings(*final(result), *old(result))
                },
                Err(e) => self.strict_mode && basic_errors(data@) > 0 && basic_error_is(data@, e),
            },
    {
        if data.len() == 0 {
            result.errors.push(message("索引数据为空"));
            if self.strict_mode {
                return Err(IndexValidationError::EmptyData.into_ltfs_error());
            }
        }
        if all_zero_bytes(data) {
            let mut m: Vec<char> = Vec::new();
            push_str(&mut m, "索引数据全为零 (");
            let digits = decimal_exec(data.len() as u64);
            push_chars(&mut m, &digits);
            push_str(&mut m, " 字节)");
            result.errors.push(chars_to_string(&m));
            if self.strict_mode {
                return Err(IndexValidationError::AllZeroData { size: data.len() }.into_ltfs_error());
            }
        }
        if data.len() < 100 {
            result.warnings.push(message("索引数据过小，可能不完整"));
        } else if data.len() > 100_000_000 {
            result.warnings.push(message("索引数据过大，可能包含非索引内容"));
        }
        let printable = count_printable(data);
        if printable < data.len() - printable {
            let tenths: u128 = ((printable as u128) * 2000 + (data.len() as u128)) / (2 * (data.len() as u128));
            let mut m: Vec<char> = Vec::new();
            push_str(&mut m, "可打印字符比例较低 (");
            let whole = decimal_exec((tenths / 10) as u64);
            push_chars(&mut m, &whole);
            push_str(&mut m, ".");
            let frac = decimal_exec((tenths % 10) as u64);
            push_chars(&mut m, &frac);
            push_str(&mut m, "%)，可能不是文本数据");
            result.warnings.push(chars_to_string(&m));
        }
        Ok(())
    }

    /// Checks the XML form: as many `<` as `>` and balanced tags; warns on a
    /// missing XML declaration and on control characters.
    pub fn validate_xml_format(&self, xml: &[char], result: &mut ValidationResult) -> (r: Result<(), RustLtfsError>)
        ensures
            match r {
                Ok(_) => {
                    &&& self.strict_mode ==> xml_errors(xml@) == 0
                    &&& final(result).errors@.len() == old(result).errors@.len() + xml_errors(xml@)
                    &&& final(result).warnings@.len() == old(result).warnings@.len() + xml_warnings(xml@)
                    &&& final(result).xml_well_formed == (xml_balanced(xml@) || old(result).xml_well_formed)
                    &&& final(result).is_valid == old(result).is_valid
                    &&& final(result).data_size == old(result).data_size
                    &&& final(result).has_ltfs_identifier == old(result).has_ltfs_identifier
                    &&& final(result).ltfs_version == old(result).ltfs_version
                    &&& final(result).volume_uuid == old(result).volume_uuid
                    &&& final(result).generation_number == old(result).generation_number
                    &&& final(result).file_count_estimate == old(result).file_count_estimate
                },
                Err(e) => self.strict_mode && xml_errors(xml@) > 0 && e is LtfsIndex,
            },
    {
        let trimmed = trim_start_chars(xml);
        let decl = str_to_chars("<?xml");
        if !starts_with_chars(&trimmed, &decl) {
            result.warnings.push(message("缺少XML声明"));
        }
        let lt: Vec<char> = vec!['<'];
        let gt: Vec<char> = vec!['>'];
        assert(lt@ =~= seq!['<']);
        assert(gt@ =~= seq!['>']);
        let open_tags = count_matches_exec(xml, &lt);
        let close_tags = count_matches_exec(xml, &gt);
        if open_tags != close_tags {
            let mut m: Vec<char> = Vec::new();
            push_str(&mut m, "XML标签不匹配: ");
            push_chars(&mut m, &decimal_exec(open_tags as u64));
            push_str(&mut m, " 个开标签, ");
            push_chars(&mut m, &decimal_exec(close_tags as u64));
            push_str(&mut m, " 个闭标签");
            result.errors.push(chars_to_string(&m));
            if self.strict_mode {
                return Err(IndexValidationError::InvalidXmlFormat { reason: message("标签不匹配") }.into_ltfs_error());
            }
        }
        if has_bad_control_exec(xml) {
            result.warnings.push(message("XML包含控制字符"));
        }
        match self.basic_xml_parse_check(xml) {
            Ok(_) => {
                result.xml_well_formed = true;
            },
            Err(e) => {
                let text = match e {
                    RustLtfsError::Parse(t) => t,
                    RustLtfsError::LtfsIndex(t) => t,
                    RustLtfsError::Scsi(t) => t,
                    RustLtfsError::TapeDevice(t) => t,
                    RustLtfsError::ParameterValidation(t) => t,
                    RustLtfsError::Unsupported(t) => t,
                    RustLtfsError::FileOperation(t) => t,
                    RustLtfsError::OperationCancelled(t) => t,
                };
                let mut m: Vec<char> = Vec::new();
                push_str(&mut m, "XML解析失败: ");
                push_str(&mut m, text.as_str());
                result.errors.push(chars_to_string(&m));
                if self.strict_mode {
                    return Err(IndexValidationError::InvalidXmlFormat { reason: text }.into_ltfs_error());
                }
            },
        }
        Ok(())
    }

    /// Checks the `<ltfsindex` root and its closing tag and reads the
    /// version; warns when it is missing or not 2.x.
    pub fn validate_ltfs_identifier(&self, xml: &[char], result: &mut ValidationResult) -> (r: Result<(), RustLtfsError>)
        ensures
            match r {
                Ok(_) => {
                    &&& self.strict_mode ==> identifier_errors(xml@) == 0
                    &&& final(result).errors@.len() == old(result).errors@.len() + identifier_errors(xml@)
                    &&& final(result).warnings@.len() == old(result).warnings@.len() + identifier_warnings(xml@)
                    &&& final(result).has_ltfs_identifier == (contains(xml@, "<ltfsindex"@) || old(result).has_ltfs_identifier)
                    &&& opt_view(final(result).ltfs_version) == match ltfs_version_of(xml@) {
                        Some(v) => Some(v),
                        None => opt_view(old(result).ltfs_version),
                    }
                    &&& final(result).is_valid == old(result).is_valid
                    &&& final(result).data_size == old(result).data_size
                    &&& final(result).xml_well_formed == old(result).xml_well_formed
                    &&& final(result).volume_uuid == old(result).volume_uuid
                    &&& final(result).generation_number == old(result).generation_number
                    &&& final(result).file_count_estimate == old(result).file_count_estimate
                },
                Err(e) => self.strict_mode && identifier_errors(xml@) > 0 && e is LtfsIndex,
            },
    {
        if contains_str(xml, "<ltfsindex") {
            result.has_ltfs_identifier = true;
        } else {
            result.errors.push(message("缺少LTFS索引根元素 <ltfsindex>"));
            if self.strict_mode {
                return Err(IndexValidationError::MissingLtfsIdentifier { details: message("未找到 <ltfsindex> 元素") }.into_ltfs_error());
            }
        }
        if !contains_str(xml, "</ltfsindex>") {
            result.errors.push(message("缺少LTFS索引结束标签 </ltfsindex>"));
            if self.strict_mode {
                return Err(IndexValidationError::MissingLtfsIdentifier { details: message("未找到 </ltfsindex> 结束标签") }.into_ltfs_error());
            }
        }
        match self.extract_ltfs_version(xml) {
            Some(version) => {
                let vc = str_to_chars(version.as_str());
                let two = str_to_chars("2.");
                if !starts_with_chars(&vc, &two) {
                    let mut m: Vec<char> = Vec::new();
                    push_str(&mut m, "LTFS版本 ");
                    push_chars(&mut m, &vc);
                    push_str(&mut m, " 可能不完全兼容");
                    result.warnings.push(chars_to_string(&m));
                }
                result.ltfs_version = Some(version);
            },
            None => {
                result.warnings.push(message("无法提取LTFS版本信息"));
            },
        }
        Ok(())
    }
}


fn check_element(xml: &[char], plain: &str, attr: &str, description: &str, missing: &mut Vec<char>, any: &mut bool) -> (present: bool)
    ensures
        present == has_element(xml@, plain@, attr@),
        *final(any) == (*old(any) || !present),
{
    let present = contains_str(xml, plain) || contains_str(xml, attr);
    if !present {
        if *any {
            push_str(missing, ", ");
        }
        push_str(missing, description);
        *any = true;
    }
    present
}

impl IndexValidator {
    /// Checks that the volume UUID, generation number, update time and root
    /// directory elements are present, then reads the UUID, the generation
    /// number and the number of files.
    pub fn validate_ltfs_structure(&self, xml: &[char], result: &mut ValidationResult) -> (r: Result<(), RustLtfsError>)
        ensures
            match r {
                Ok(_) => {
                    &&& self.strict_mode ==> structure_complete(xml@)
                    &&& final(result).errors@.len() == old(result).errors@.len() + flag(!structure_complete(xml@))
                    &&& final(result).warnings@.len() == old(result).warnings@.len()
                    &&& opt_view(final(result).volume_uuid) == volume_uuid_of(xml@)
                    &&& match final(result).generation_number {
                        Some(g) => generation_number_of(xml@) == Some(g as nat),
                        None => generation_number_of(xml@) is None,
                    }
                    &&& match final(result).file_count_estimate {
                        Some(n) => file_count_of(xml@) == Some(n as nat),
                        None => file_count_of(xml@) is None,
                    }
                    &&& final(result).is_valid == old(result).is_valid
                    &&& final(result).data_size == old(result).data_size
                    &&& final(result).xml_well_formed == old(result).xml_well_formed
                    &&& final(result).has_ltfs_identifier == old(result).has_ltfs_identifier
                    &&& final(result).ltfs_version == old(result).ltfs_version
                },
                Err(e) => self.strict_mode && !structure_complete(xml@) && e is LtfsIndex,
            },
    {
        let mut missing: Vec<char> = Vec::new();
        let mut any = false;
        check_element(xml, "<volumeuuid>", "<volumeuuid ", "卷UUID", &mut missing, &mut any);
        check_element(xml, "<generationnumber>", "<generationnumber ", "生成号", &mut missing, &mut any);
        check_element(xml, "<updatetime>", "<updatetime ", "更新时间", &mut missing, &mut any);
        check_element(xml, "<directory>", "<directory ", "根目录", &mut missing, &mut any);
        if any {
            let mut m: Vec<char> = Vec::new();
            push_str(&mut m, "缺少必需元素: ");
            push_chars(&mut m, &missing);
            result.errors.push(chars_to_string(&m));
            if self.strict_mode {
                return Err(IndexValidationError::IncompleteStructure { missing_elements: chars_to_string(&missing) }.into_ltfs_error());
            }
        }
        result.volume_uuid = self.extract_volume_uuid(xml);
        result.generation_number = self.extract_generation_number(xml);
        result.file_count_estimate = self.estimate_file_count(xml);
        Ok(())
    }

    /// Checks that the text ends with `</ltfsindex>`; warns when it holds
    /// neither files nor directories, holds a NUL, or is under 500 bytes.
    pub fn validate_content_integrity(&self, xml: &[char], byte_len: usize, result: &mut ValidationResult) -> (r: Result<(), RustLtfsError>)
        requires
            byte_len == vstd::utf8::encode_utf8(xml@).len() as usize,
        ensures
            match r {
                Ok(_) => {
                    &&& self.strict_mode ==> content_errors(xml@) == 0
                    &&& final(result).errors@.len() == old(result).errors@.len() + content_errors(xml@)
                    &&& final(result).warnings@.len() == old(result).warnings@.len() + content_warnings(xml@)
                    &&& same_findings(*final(result), *old(result))
                },
                Err(e) => self.strict_mode && content_errors(xml@) > 0 && e is LtfsIndex,
            },
    {
        let trimmed = trim_end_chars(xml);
        let close = str_to_chars("</ltfsindex>");
        if !ends_with_chars(&trimmed, &close) {
            result.errors.push(message("LTFS索引可能被截断"));
            if self.strict_mode {
                return Err(IndexValidationError::ContentValidationFailed { reason: message("索引内容不完整") }.into_ltfs_error());
            }
        }
        let has_files = contains_str(xml, "<file>");
        let has_directories = contains_str(xml, "<directory>");
        if !has_files && !has_directories {
            result.warnings.push(message("索引中未发现文件或目录信息"));
        }
        let nul: Vec<char> = vec!['\0'];
        assert(nul@ =~= seq!['\0']);
        if crate::text::contains_chars(xml, &nul) {
            result.warnings.push(message("索引包含空字符，可能存在编码问题"));
        }
        if byte_len < 500 {
            result.warnings.push(message("索引内容过短，可能不完整"));
        }
        Ok(())
    }

    /// Validates index data read from tape.  The text is the lossy UTF-8
    /// decoding of the bytes.  A strict validator fails on the first failed
    /// check; otherwise every failure is listed and the data is valid when
    /// nothing failed, the `<ltfsindex` root is present and the tags balance.
    pub fn validate_index_data(&self, data: &[u8]) -> (r: Result<ValidationResult, RustLtfsError>)
        ensures
            match r {
                Ok(res) => {
                    let x = utf8_lossy(data@);
                    &&& self.strict_mode ==> total_errors(data@) == 0
                    &&& res.data_size == data@.len()
                    &&& res.errors@.len() == total_errors(data@)
                    &&& res.warnings@.len() == total_warnings(data@)
                    &&& res.has_ltfs_identifier == contains(x, "<ltfsindex"@)
                    &&& res.xml_well_formed == xml_balanced(x)
                    &&& opt_view(res.ltfs_version) == ltfs_version_of(x)
                    &&& opt_view(res.volume_uuid) == volume_uuid_of(x)
                    &&& (match res.generation_number {
                        Some(g) => generation_number_of(x) == Some(g as nat),
                        None => generation_number_of(x) is None,
                    })
                    &&& (match res.file_count_estimate {
                        Some(n) => file_count_of(x) == Some(n as nat),
                        None => file_count_of(x) is None,
                    })
                    &&& res.is_valid == (total_errors(data@) == 0 && contains(x, "<ltfsindex"@)
                        && xml_balanced(x))
                },
                Err(e) => self.strict_mode && total_errors(data@) > 0 && e is LtfsIndex && (basic_errors(data@)
                    > 0 ==> basic_error_is(data@, e)),
            },
    {
        let mut result = ValidationResult {
            is_valid: false,
            data_size: data.len(),
            has_ltfs_identifier: false,
            xml_well_formed: false,
            ltfs_version: None,
            volume_uuid: None,
            generation_number: None,
            file_count_estimate: None,
            warnings: Vec::new(),
            errors: Vec::new(),
        };
        let r = self.validate_basic_data(data, &mut result);
        if r.is_err() {
            return Err(r.unwrap_err());
        }
        let text = from_utf8_lossy(data);
        let st = text.as_str();
        let byte_len = st.len();
        let xml = str_to_chars(st);
        let r = self.validate_xml_format(&xml, &mut result);
        if r.is_err() {
            return Err(r.unwrap_err());
        }
        let r = self.validate_ltfs_identifier(&xml, &mut result);
        if r.is_err() {
            return Err(r.unwrap_err());
        }
        let r = self.validate_ltfs_structure(&xml, &mut result);
        if r.is_err() {
            return Err(r.unwrap_err());
        }
        let r = self.validate_content_integrity(&xml, byte_len, &mut result);
        if r.is_err() {
            return Err(r.unwrap_err());
        }
        result.is_valid = result.errors.len() == 0 && result.has_ltfs_identifier && result.xml_well_formed;
        Ok(result)
    }
}

impl Default for IndexValidator {
    fn default() -> (v: Self)
        ensures
            v.strict_mode,
            !v.debug_mode,
    {
        IndexValidator::new()
    }
}

/// Validates index data with a strict validator.
pub fn validate_index_data(data: &[u8]) -> (r: Result<ValidationResult, RustLtfsError>)
    ensures
        match r {
            Ok(res) => total_errors(data@) == 0 && res.errors@.len() == 0
                && res.warnings@.len() == total_warnings(data@)
                && res.is_valid == (contains(utf8_lossy(data@), "<ltfsindex"@) && xml_balanced(utf8_lossy(data@))),
            Err(e) => total_errors(data@) > 0 && e is LtfsIndex && (basic_errors(data@) > 0 ==> basic_error_is(
                data@,
                e,
            )),
        },
{
    let validator = IndexValidator::new();
    validator.validate_index_data(data)
}

/// Validates index data with a lenient validator: it always succeeds and
/// lists every failed check.
pub fn validate_index_data_lenient(data: &[u8]) -> (r: Result<ValidationResult, RustLtfsError>)
    ensures
        r matches Ok(res) && {
            &&& res.data_size == data@.len()
            &&& res.has_ltfs_identifier == contains(utf8_lossy(data@), "<ltfsindex"@)
            &&& res.xml_well_formed == xml_balanced(utf8_lossy(data@))
            &&& res.errors@.len() == total_errors(data@)
            &&& res.warnings@.len() == total_warnings(data@)
            &&& res.is_valid == (total_errors(data@) == 0 && contains(utf8_lossy(data@), "<ltfsindex"@)
                && xml_balanced(utf8_lossy(data@)))
        },
{
    let validator = IndexValidator::new_lenient();
    validator.validate_index_data(data)
}

/// Whether a strict validation accepts `data` as a valid index.
pub fn is_valid_index_data(data: &[u8]) -> (b: bool)
    ensures
        b == (total_errors(data@) == 0 && contains(utf8_lossy(data@), "<ltfsindex"@) && xml_balanced(
            utf8_lossy(data@),
        )),
{
    match validate_index_data(data) {
        Ok(result) => result.is_valid,
        Err(_) => false,
    }
}

} // verus!
