# rustltfs

Verified core of an LTFS (Linear Tape File System) tool for LTO drives,
written in Verus.

- `src/` is the library. Its logic is verified by Verus against
  `requires`/`ensures` contracts stated over spec models of the index, the
  labels and the drive's replies. The SCSI drive itself is not driven here:
  the long tape operations (index reads, index updates, file and directory
  writes, formatting) are step machines that name the next command and take
  its outcome back; each step's contract says which command, parse or error
  follows each reply.
- What the library takes from outside crates (hash digests, the clock,
  date formatting, UUIDs, RFC 3339 parsing) and a few std conversions go
  through small wrappers marked `#[verifier::external_body]`. Verus believes their
  contracts without proof; each one's doc comment says what it claims of
  the outside function and what it leaves unsaid.
- `app/` is ordinary Rust around the library: a `ScsiDevice` and an
  `IndexCodec` trait stand for the drive and the XML form of the index, and
  the drivers run the step machines against them, doing the file I/O.
- `tests/` runs the library on concrete values.
