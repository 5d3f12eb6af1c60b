use vstd::prelude::*;
use crate::error::RustLtfsError;
use crate::index::FileExtent;
use crate::text::{chars_to_string, decimal, decimal_exec, push_chars, push_str};

verus! {

/// Where a file's data lies on tape.
#[derive(Debug, Clone)]
pub struct TapeFileLocation {
    pub file_name: String,
    pub file_uid: u64,
    pub file_size: u64,
    pub extents: Vec<FileExtent>,
}

/// The formats a file list is exported in.
#[derive(Debug, Clone, Copy, PartialEq, Eq, Structural)]
pub enum ExportFormat {
    Tsv,
    Json,
    Xml,
    Batch,
}

/// Listing of the files of an index.
pub struct IndexViewer;

pub open spec fn dec(n: u64) -> Seq<char> {
    decimal(n as nat)
}

/// One TSV line per extent: partition, start block, length, file name.
pub open spec fn tsv_extent_lines(name: Seq<char>, es: Seq<FileExtent>) -> Seq<char>
    decreases es.len(),
{
    if es.len() == 0 {
        seq![]
    } else {
        let e = es.last();
        tsv_extent_lines(name, es.drop_last()) + e.partition@ + "\t"@ + dec(e.start_block) + "\t"@ + dec(
            e.byte_count,
        ) + "\t"@ + name + "\n"@
    }
}

pub open spec fn tsv_body(ls: Seq<TapeFileLocation>) -> Seq<char>
    decreases ls.len(),
{
    if ls.len() == 0 {
        seq![]
    } else {
        tsv_body(ls.drop_last()) + tsv_extent_lines(ls.last().file_name@, ls.last().extents@)
    }
}

pub open spec fn xml_line(l: TapeFileLocation) -> Seq<char> {
    "  <file name=\""@ + l.file_name@ + "\" uid=\""@ + dec(l.file_uid) + "\" size=\""@ + dec(l.file_size)
        + "\"/>\n"@
}

pub open spec fn xml_body(ls: Seq<TapeFileLocation>) -> Seq<char>
    decreases ls.len(),
{
    if ls.len() == 0 {
        seq![]
    } else {
        xml_body(ls.drop_last()) + xml_line(ls.last())
    }
}

pub open spec fn batch_lines(l: TapeFileLocation) -> Seq<char> {
    "echo Writing: "@ + l.file_name@ + "\n"@ + "rem File UID: "@ + dec(l.file_uid) + ", Size: "@ + dec(
        l.file_size,
    ) + " bytes\n"@
}

pub open spec fn batch_body(ls: Seq<TapeFileLocation>) -> Seq<char>
    decreases ls.len(),
{
    if ls.len() == 0 {
        seq![]
    } else {
        batch_body(ls.drop_last()) + batch_lines(ls.last())
    }
}

/// The exported text of a file list.
pub open spec fn export_text(ls: Seq<TapeFileLocation>, f: ExportFormat) -> Seq<char> {
    match f {
        ExportFormat::Tsv => "Partition\tStartblock\tLength\tPath\n"@ + tsv_body(ls),
        ExportFormat::Json => "{\"files\": "@ + decimal(ls.len()) + "}"@,
        ExportFormat::Xml => "<?xml version=\"1.0\" encoding=\"UTF-8\"?>\n<files>\n"@ + xml_body(ls) + "</files>\n"@,
        ExportFormat::Batch => "chcp 65001\n"@ + batch_body(ls),
    }
}

fn push_decimal(v: &mut Vec<char>, n: u64)
    ensures
        final(v)@ == old(v)@ + dec(n),
{
    let d = decimal_exec(n);
    push_chars(v, &d);
}

impl IndexViewer {
    /// The file list in `format` (see `export_text`).
    pub fn export_file_list(file_locations: &[TapeFileLocation], format: ExportFormat) -> (r: Result<String, RustLtfsError>)
        ensures
            r matches Ok(s) && s@ == export_text(file_locations@, format),
    {
        let ghost ls = file_locations@;
        let mut out: Vec<char> = Vec::new();
        match format {
            ExportFormat::Tsv => {
                push_str(&mut out, "Partition\tStartblock\tLength\tPath\n");
                let ghost head = out@;
                assert(head =~= "Partition\tStartblock\tLength\tPath\n"@);
                assert(ls.take(0) =~= Seq::<TapeFileLocation>::empty());
                let mut i: usize = 0;
                while i < file_locations.len()
                    invariant
                        i <= ls.len(),
                        ls == file_locations@,
                        out@ == head + tsv_body(ls.take(i as int)),
                    decreases ls.len() - i,
                {
                    assert(ls.take(i + 1).drop_last() =~= ls.take(i as int));
                    let loc = &file_locations[i];
                    let ghost before = out@;
                    assert(loc.extents@.take(0) =~= Seq::<FileExtent>::empty());
                    let mut k: usize = 0;
                    while k < loc.extents.len()
                        invariant
                            k <= loc.extents@.len(),
                            out@ == before + tsv_extent_lines(loc.file_name@, loc.extents@.take(k as int)),
                        decreases loc.extents@.len() - k,
                    {
                        assert(loc.extents@.take(k + 1).drop_last() =~= loc.extents@.take(k as int));
                        let e = &loc.extents[k];
                        push_str(&mut out, e.partition.as_str());
                        push_str(&mut out, "\t");
                        push_decimal(&mut out, e.start_block);
                        push_str(&mut out, "\t");
                        push_decimal(&mut out, e.byte_count);
                        push_str(&mut out, "\t");
                        push_str(&mut out, loc.file_name.as_str());
                        push_str(&mut out, "\n");
                        assert(out@ =~= before + tsv_extent_lines(loc.file_name@, loc.extents@.take(k + 1)));
                        k = k + 1;
                    }
                    assert(loc.extents@.take(loc.extents@.len() as int) =~= loc.extents@);
                    assert(out@ =~= head + tsv_body(ls.take(i + 1)));
                    i = i + 1;
                }
                assert(ls.take(ls.len() as int) =~= ls);
            },
            ExportFormat::Json => {
                push_str(&mut out, "{\"files\": ");
                push_decimal(&mut out, file_locations.len() as u64);
                push_str(&mut out, "}");
            },
            ExportFormat::Xml => {
                push_str(&mut out, "<?xml version=\"1.0\" encoding=\"UTF-8\"?>\n<files>\n");
                let ghost head = out@;
                assert(head =~= "<?xml version=\"1.0\" encoding=\"UTF-8\"?>\n<files>\n"@);
                assert(ls.take(0) =~= Seq::<TapeFileLocation>::empty());
                let mut i: usize = 0;
                while i < file_locations.len()
                    invariant
                        i <= ls.len(),
                        ls == file_locations@,
                        out@ == head + xml_body(ls.take(i as int)),
                    decreases ls.len() - i,
                {
                    assert(ls.take(i + 1).drop_last() =~= ls.take(i as int));
                    let loc = &file_locations[i];
                    let ghost before = out@;
                    push_str(&mut out, "  <file name=\"");
                    push_str(&mut out, loc.file_name.as_str());
                    push_str(&mut out, "\" uid=\"");
                    push_decimal(&mut out, loc.file_uid);
                    push_str(&mut out, "\" size=\"");
                    push_decimal(&mut out, loc.file_size);
                    push_str(&mut out, "\"/>\n");
                    assert(out@ =~= before + xml_line(*loc));
                    assert(out@ =~= head + xml_body(ls.take(i + 1)));
                    i = i + 1;
                }
                assert(ls.take(ls.len() as int) =~= ls);
                push_str(&mut out, "</files>\n");
            },
            ExportFormat::Batch => {
                push_str(&mut out, "chcp 65001\n");
                let ghost head = out@;
                assert(head =~= "chcp 65001\n"@);
                assert(ls.take(0) =~= Seq::<TapeFileLocation>::empty());
                let mut i: usize = 0;
                while i < file_locations.len()
                    invariant
                        i <= ls.len(),
                        ls == file_locations@,
                        out@ == head + batch_body(ls.take(i as int)),
                    decreases ls.len() - i,
                {
                    assert(ls.take(i + 1).drop_last() =~= ls.take(i as int));
                    let loc = &file_locations[i];
                    let ghost before = out@;
                    push_str(&mut out, "echo Writing: ");
                    push_str(&mut out, loc.file_name.as_str());
                    push_str(&mut out, "\n");
                    push_str(&mut out, "rem File UID: ");
                    push_decimal(&mut out, loc.file_uid);
                    push_str(&mut out, ", Size: ");
                    push_decimal(&mut out, loc.file_size);
                    push_str(&mut out, " bytes\n");
                    assert(out@ =~= before + batch_lines(*loc));
                    assert(out@ =~= head + batch_body(ls.take(i + 1)));
                    i = i + 1;
                }
                assert(ls.take(ls.len() as int) =~= ls);
            },
        }
        Ok(chars_to_string(&out))
    }
}

} // verus!
