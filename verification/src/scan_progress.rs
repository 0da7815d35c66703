//! The scan-and-hash progress counters of the first command-line scanner,
//! and the status messages that advance them.
use vstd::prelude::*;
use crate::cursor::push_str;
use crate::text::{decimal_nat, string_of, u64_to_decimal};

verus! {

/// Running totals of a scan.
#[derive(Debug, Default, Clone, Copy)]
pub struct ProcessStats {
    pub scan_file_count: usize,
    pub scan_file_size: u64,
    pub scan_dupe_file_count: usize,
    pub scan_dupe_file_size: u64,
    pub hash_file_count: usize,
    pub hash_file_size: u64,
}

#[derive(Debug, Clone)]
pub struct ScanAddRawStatusMessage {
    pub file_path: String,
    pub file_size: u64,
}

#[derive(Debug, Default, Clone)]
pub struct ScanAddDupeStatusMessage {
    pub count: usize,
    pub file_size: u64,
}

#[derive(Debug, Default, Clone)]
pub struct HashProcScanFilesStatusMessage {
    pub count: usize,
    pub file_size: u64,
}

#[derive(Clone, Debug)]
pub enum StatusMessage {
    ProcessBegin,
    ScanBegin,
    ScanAddRaw(ScanAddRawStatusMessage),
    ScanAddDupe(ScanAddDupeStatusMessage),
    ScanEnd,
    HashBegin,
    HashProcScanFiles(HashProcScanFilesStatusMessage),
    HashEnd,
    ProcessEnd,
}

/// The totals can take the message without overflowing.
pub open spec fn can_take(s: ProcessStats, m: StatusMessage) -> bool {
    match m {
        StatusMessage::ScanAddRaw(msg) => s.scan_file_count + 1 <= usize::MAX && s.scan_file_size + msg.file_size
            <= u64::MAX,
        StatusMessage::ScanAddDupe(msg) => s.scan_dupe_file_count + msg.count <= usize::MAX && msg.count
            * msg.file_size <= u64::MAX && s.scan_dupe_file_size + msg.count * msg.file_size <= u64::MAX,
        StatusMessage::HashProcScanFiles(msg) => s.hash_file_count + msg.count <= usize::MAX && msg.count
            * msg.file_size <= u64::MAX && s.hash_file_size + msg.count * msg.file_size <= u64::MAX,
        _ => true,
    }
}

/// The totals after a message: a raw file adds one file and its size,
/// duplicates and hashed files add `count` files of `file_size` bytes each;
/// the other messages leave the totals alone.
pub open spec fn taken(s: ProcessStats, m: StatusMessage) -> ProcessStats {
    match m {
        StatusMessage::ScanAddRaw(msg) => ProcessStats {
            scan_file_count: (s.scan_file_count + 1) as usize,
            scan_file_size: (s.scan_file_size + msg.file_size) as u64,
            ..s
        },
        StatusMessage::ScanAddDupe(msg) => ProcessStats {
            scan_dupe_file_count: (s.scan_dupe_file_count + msg.count) as usize,
            scan_dupe_file_size: (s.scan_dupe_file_size + msg.count * msg.file_size) as u64,
            ..s
        },
        StatusMessage::HashProcScanFiles(msg) => ProcessStats {
            hash_file_count: (s.hash_file_count + msg.count) as usize,
            hash_file_size: (s.hash_file_size + msg.count * msg.file_size) as u64,
            ..s
        },
        _ => s,
    }
}

impl ProcessStats {
    /// Adds a status message to the totals.
    pub fn record(&mut self, message: &StatusMessage)
        requires
            can_take(*old(self), *message),
        ensures
            *final(self) == taken(*old(self), *message),
    {
        match message {
            StatusMessage::ScanAddRaw(msg) => {
                self.scan_file_count = self.scan_file_count + 1;
                self.scan_file_size = self.scan_file_size + msg.file_size;
            },
            StatusMessage::ScanAddDupe(msg) => {
                self.scan_dupe_file_count = self.scan_dupe_file_count + msg.count;
                self.scan_dupe_file_size = self.scan_dupe_file_size + (msg.count as u64) * msg.file_size;
            },
            StatusMessage::HashProcScanFiles(msg) => {
                self.hash_file_count = self.hash_file_count + msg.count;
                self.hash_file_size = self.hash_file_size + (msg.count as u64) * msg.file_size;
            },
            _ => {},
        }
    }
}

/// The one-line summary of the totals.
pub open spec fn totals_line(s: ProcessStats) -> Seq<char> {
    "Scanned Files: "@ + decimal_nat(s.scan_file_count as nat) + ", Scanned File Size: "@ + decimal_nat(
        s.scan_file_size as nat,
    ) + ", Scan Dupe Count: "@ + decimal_nat(s.scan_dupe_file_count as nat) + ", Scan Dupe Size: "@ + decimal_nat(
        s.scan_dupe_file_size as nat,
    ) + ", Hashed Files: "@ + decimal_nat(s.hash_file_count as nat) + ", Hashed File Size: "@ + decimal_nat(
        s.hash_file_size as nat,
    )
}

fn push_number(out: &mut Vec<char>, n: u64)
    ensures
        final(out)@ == old(out)@ + decimal_nat(n as nat),
{
    let d = u64_to_decimal(n);
    push_str(out, d.as_str());
}

/// The status line that shows the totals.
pub fn totals_message(s: &ProcessStats) -> (r: String)
    ensures
        r@ == totals_line(*s),
{
    let mut out: Vec<char> = Vec::new();
    push_str(&mut out, "Scanned Files: ");
    push_number(&mut out, s.scan_file_count as u64);
    push_str(&mut out, ", Scanned File Size: ");
    push_number(&mut out, s.scan_file_size);
    push_str(&mut out, ", Scan Dupe Count: ");
    push_number(&mut out, s.scan_dupe_file_count as u64);
    push_str(&mut out, ", Scan Dupe Size: ");
    push_number(&mut out, s.scan_dupe_file_size);
    push_str(&mut out, ", Hashed Files: ");
    push_number(&mut out, s.hash_file_count as u64);
    push_str(&mut out, ", Hashed File Size: ");
    push_number(&mut out, s.hash_file_size);
    assert(out@ =~= totals_line(*s));
    string_of(&out)
}

} // verus!
