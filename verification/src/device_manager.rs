use vstd::prelude::*;
use crate::device::{DeviceHealth, DeviceIssue, IssueSeverity, TapeMediaInfo};
use crate::text::{chars_to_string, push_str, str_to_chars, trim, trim_chars};
use crate::validator::{from_utf8_lossy, utf8_lossy};

verus! {

/// What is known of one tape drive: its identity, health, medium and the
/// problems recorded for it (the most recent ten).
pub struct DeviceStatusInfo {
    pub path: String,
    pub vendor: String,
    pub model: String,
    pub serial: String,
    pub health_status: DeviceHealth,
    pub media_info: Option<TapeMediaInfo>,
    pub recent_issues: Vec<DeviceIssue>,
    pub last_updated: String,
    pub is_online: bool,
    pub is_ready: bool,
}

/// The drives found, each under its own path, and the monitoring settings.
pub struct DeviceManager {
    pub devices: Vec<DeviceStatusInfo>,
    /// Monitoring interval, in milliseconds.
    pub monitoring_interval_ms: u64,
    pub auto_monitoring_enabled: bool,
}

/// Vendor, model and serial number from a standard INQUIRY reply: bytes
/// 8..16, 16..32 and 32..36, decoded and trimmed; without 36 bytes, the
/// unknown identity.
pub open spec fn inquiry_identity(d: Seq<u8>) -> (Seq<char>, Seq<char>, Seq<char>) {
    if d.len() >= 36 {
        (
            trim(utf8_lossy(d.subrange(8, 16))),
            trim(utf8_lossy(d.subrange(16, 32))),
            trim(utf8_lossy(d.subrange(32, 36))),
        )
    } else {
        ("Unknown"@, "Unknown"@, "N/A"@)
    }
}

/// The position of the first device with path `p`, or -1.
pub open spec fn device_index(s: Seq<DeviceStatusInfo>, p: Seq<char>, i: int) -> int
    decreases s.len() - i,
{
    if i < 0 || i >= s.len() {
        -1
    } else if s[i].path@ == p {
        i
    } else {
        device_index(s, p, i + 1)
    }
}

/// The issue list after `issue` is recorded: appended, the oldest dropped
/// beyond ten.
pub open spec fn issues_after(s: Seq<DeviceIssue>, issue: DeviceIssue) -> Seq<DeviceIssue> {
    if s.push(issue).len() > 10 {
        s.push(issue).drop_first()
    } else {
        s.push(issue)
    }
}

pub open spec fn needs_attention_spec(h: DeviceHealth) -> bool {
    h == DeviceHealth::Fair || h == DeviceHealth::Poor || h == DeviceHealth::Critical
}

/// A device is in a critical state or has a critical issue on record.
pub open spec fn device_critical(d: DeviceStatusInfo) -> bool {
    d.health_status == DeviceHealth::Critical || exists|j: int|
        0 <= j < d.recent_issues@.len() && (#[trigger] d.recent_issues@[j]).severity == IssueSeverity::Critical
}

/// The paths of the devices that need attention, in order.
pub open spec fn attention_paths(s: Seq<DeviceStatusInfo>) -> Seq<Seq<char>>
    decreases s.len(),
{
    if s.len() == 0 {
        seq![]
    } else if needs_attention_spec(s.last().health_status) {
        attention_paths(s.drop_last()).push(s.last().path@)
    } else {
        attention_paths(s.drop_last())
    }
}

proof fn lemma_device_index_range(s: Seq<DeviceStatusInfo>, p: Seq<char>, i: int)
    requires
        0 <= i,
    ensures
        device_index(s, p, i) == -1 || (i <= device_index(s, p, i) < s.len() && s[device_index(s, p, i)].path@
            == p),
    decreases s.len() - i,
{
    if i < s.len() && s[i].path@ != p {
        lemma_device_index_range(s, p, i + 1);
    }
}

fn lossy_trimmed(d: &[u8], from: usize, to: usize) -> (s: String)
    requires
        from <= to <= d@.len(),
    ensures
        s@ == trim(utf8_lossy(d@.subrange(from as int, to as int))),
{
    let mut part: Vec<u8> = Vec::new();
    let mut i = from;
    while i < to
        invariant
            from <= i <= to <= d@.len(),
            part@ == d@.subrange(from as int, i as int),
        decreases to - i,
    {
        part.push(d[i]);
        assert(d@.subrange(from as int, i + 1) =~= d@.subrange(from as int, i as int).push(d@[i as int]));
        i = i + 1;
    }
    let text = from_utf8_lossy(part.as_slice());
    let cs = str_to_chars(text.as_str());
    chars_to_string(&trim_chars(&cs))
}

impl DeviceManager {
    /// No devices; monitoring off, every 30 seconds when turned on.
    pub fn new() -> (m: Self)
        ensures
            m.devices@.len() == 0,
            m.monitoring_interval_ms == 30_000,
            !m.auto_monitoring_enabled,
    {
        DeviceManager { devices: Vec::new(), monitoring_interval_ms: 30_000, auto_monitoring_enabled: false }
    }

    pub fn enable_auto_monitoring(&mut self, interval_ms: u64)
        ensures
            final(self).monitoring_interval_ms == interval_ms,
            final(self).auto_monitoring_enabled,
            final(self).devices@ == old(self).devices@,
    {
        self.monitoring_interval_ms = interval_ms;
        self.auto_monitoring_enabled = true;
    }

    pub fn disable_auto_monitoring(&mut self)
        ensures
            !final(self).auto_monitoring_enabled,
            final(self).monitoring_interval_ms == old(self).monitoring_interval_ms,
            final(self).devices@ == old(self).devices@,
    {
        self.auto_monitoring_enabled = false;
    }

    /// The identity a drive reports in its INQUIRY reply (see
    /// `inquiry_identity`).
    pub fn get_device_basic_info(&self, inquiry: &[u8]) -> (r: (String, String, String))
        ensures
            (r.0@, r.1@, r.2@) == inquiry_identity(inquiry@),
    {
        if inquiry.len() >= 36 {
            (lossy_trimmed(inquiry, 8, 16), lossy_trimmed(inquiry, 16, 32), lossy_trimmed(inquiry, 32, 36))
        } else {
            ("Unknown".to_owned(), "Unknown".to_owned(), "N/A".to_owned())
        }
    }

    fn find_device(&self, path: &str) -> (r: Option<usize>)
        ensures
            match r {
                Some(k) => k as int == device_index(self.devices@, path@, 0) && k < self.devices@.len(),
                None => device_index(self.devices@, path@, 0) == -1,
            },
    {
        let wanted = path.to_owned();
        let mut i: usize = 0;
        while i < self.devices.len()
            invariant
                i <= self.devices@.len(),
                wanted@ == path@,
                device_index(self.devices@, path@, 0) == device_index(self.devices@, path@, i as int),
            decreases self.devices@.len() - i,
        {
            if self.devices[i].path == wanted {
                proof {
                    lemma_device_index_range(self.devices@, path@, i as int);
                }
                return Some(i);
            }
            i = i + 1;
        }
        None
    }

    /// Records the status of a drive: it replaces the status held under the
    /// same path, or is added after the others.
    pub fn initialize_device_status(&mut self, status: DeviceStatusInfo)
        ensures
            device_index(old(self).devices@, status.path@, 0) >= 0 ==> final(self).devices@ == old(
                self,
            ).devices@.update(device_index(old(self).devices@, status.path@, 0), status),
            device_index(old(self).devices@, status.path@, 0) < 0 ==> final(self).devices@ == old(
                self,
            ).devices@.push(status),
            final(self).monitoring_interval_ms == old(self).monitoring_interval_ms,
            final(self).auto_monitoring_enabled == old(self).auto_monitoring_enabled,
    {
        match self.find_device(status.path.as_str()) {
            Some(k) => {
                self.devices.set(k, status);
            },
            None => {
                self.devices.push(status);
            },
        }
    }

    /// Records a problem of the drive at `path` (if it is known), keeping
    /// the ten most recent.
    pub fn add_device_issue(&mut self, path: &str, issue: DeviceIssue)
        ensures
            final(self).devices@.len() == old(self).devices@.len(),
            forall|k: int|
                0 <= k < old(self).devices@.len() && k != device_index(old(self).devices@, path@, 0)
                    ==> #[trigger] final(self).devices@[k] == old(self).devices@[k],
            device_index(old(self).devices@, path@, 0) >= 0 ==> {
                let k = device_index(old(self).devices@, path@, 0);
                let (o, n) = (old(self).devices@[k], final(self).devices@[k]);
                &&& n.recent_issues@ == issues_after(o.recent_issues@, issue)
                &&& n.path == o.path && n.health_status == o.health_status && n.is_online == o.is_online
                    && n.is_ready == o.is_ready
            },
    {
        match self.find_device(path) {
            Some(k) => {
                let mut d = self.devices.remove(k);
                let ghost before = d.recent_issues@;
                d.recent_issues.push(issue);
                if d.recent_issues.len() > 10 {
                    d.recent_issues.remove(0);
                }
                assert(d.recent_issues@ =~= issues_after(before, issue));
                self.devices.insert(k, d);
                assert(self.devices@ =~= old(self).devices@.update(k as int, d));
            },
            None => {},
        }
    }

    /// Forgets the problems recorded for the drive at `path`.
    pub fn clear_device_issues(&mut self, path: &str)
        ensures
            final(self).devices@.len() == old(self).devices@.len(),
            forall|k: int|
                0 <= k < old(self).devices@.len() && k != device_index(old(self).devices@, path@, 0)
                    ==> #[trigger] final(self).devices@[k] == old(self).devices@[k],
            device_index(old(self).devices@, path@, 0) >= 0 ==> {
                let k = device_index(old(self).devices@, path@, 0);
                &&& final(self).devices@[k].recent_issues@.len() == 0
                &&& final(self).devices@[k].path == old(self).devices@[k].path
                &&& final(self).devices@[k].health_status == old(self).devices@[k].health_status
            },
    {
        match self.find_device(path) {
            Some(k) => {
                let mut d = self.devices.remove(k);
                d.recent_issues.clear();
                self.devices.insert(k, d);
                assert(self.devices@ =~= old(self).devices@.update(k as int, d));
            },
            None => {},
        }
    }

    /// Whether some drive is critical or has a critical problem on record.
    pub fn has_critical_issues(&self) -> (b: bool)
        ensures
            b == exists|k: int| 0 <= k < self.devices@.len() && device_critical(#[trigger] self.devices@[k]),
    {
        let mut i: usize = 0;
        while i < self.devices.len()
            invariant
                i <= self.devices@.len(),
                forall|k: int| 0 <= k < i ==> !device_critical(#[trigger] self.devices@[k]),
            decreases self.devices@.len() - i,
        {
            let d = &self.devices[i];
            if d.health_status == DeviceHealth::Critical {
                assert(device_critical(self.devices@[i as int]));
                return true;
            }
            let mut j: usize = 0;
            while j < d.recent_issues.len()
                invariant
                    j <= d.recent_issues@.len(),
                    i < self.devices@.len(),
                    self.devices@[i as int] == *d,
                    d.health_status != DeviceHealth::Critical,
                    forall|m: int| 0 <= m < j ==> (#[trigger] d.recent_issues@[m]).severity != IssueSeverity::Critical,
                decreases d.recent_issues@.len() - j,
            {
                if d.recent_issues[j].severity == IssueSeverity::Critical {
                    assert(d.recent_issues@[j as int].severity == IssueSeverity::Critical);
                    assert(device_critical(self.devices@[i as int]));
                    return true;
                }
                j = j + 1;
            }
            assert(!device_critical(*d));
            i = i + 1;
        }
        false
    }

    /// The paths of the drives whose health is fair, poor or critical.
    pub fn get_devices_needing_attention(&self) -> (r: Vec<String>)
        ensures
            r.deep_view() == attention_paths(self.devices@),
    {
        let mut r: Vec<String> = Vec::new();
        let mut i: usize = 0;
        while i < self.devices.len()
            invariant
                i <= self.devices@.len(),
                r.deep_view() == attention_paths(self.devices@.take(i as int)),
            decreases self.devices@.len() - i,
        {
            proof {
                assert(self.devices@.take(i + 1).drop_last() =~= self.devices@.take(i as int));
            }
            let d = &self.devices[i];
            if crate::device::needs_attention(d.health_status) {
                let ghost before = r.deep_view();
                r.push(d.path.clone());
                assert(r.deep_view() =~= before.push(d.path@));
            }
            i = i + 1;
        }
        assert(self.devices@.take(self.devices@.len() as int) =~= self.devices@);
        r
    }

    /// The status held for the drive at `path`.
    pub fn get_device_status(&self, path: &str) -> (r: Option<&DeviceStatusInfo>)
        ensures
            match r {
                Some(d) => device_index(self.devices@, path@, 0) >= 0 && *d == self.devices@[device_index(
                    self.devices@,
                    path@,
                    0,
                )],
                None => device_index(self.devices@, path@, 0) == -1,
            },
    {
        match self.find_device(path) {
            Some(k) => Some(&self.devices[k]),
            None => None,
        }
    }
}


/// The name of a health grade, as its `Debug` form writes it.
pub open spec fn health_name(h: DeviceHealth) -> Seq<char> {
    match h {
        DeviceHealth::Excellent => "Excellent"@,
        DeviceHealth::Good => "Good"@,
        DeviceHealth::Fair => "Fair"@,
        DeviceHealth::Poor => "Poor"@,
        DeviceHealth::Critical => "Critical"@,
        DeviceHealth::Unknown => "Unknown"@,
    }
}

fn health_name_exec(h: DeviceHealth) -> (s: &'static str)
    ensures
        s@ == health_name(h),
{
    match h {
        DeviceHealth::Excellent => "Excellent",
        DeviceHealth::Good => "Good",
        DeviceHealth::Fair => "Fair",
        DeviceHealth::Poor => "Poor",
        DeviceHealth::Critical => "Critical",
        DeviceHealth::Unknown => "Unknown",
    }
}

/// One line of the inventory: path, vendor, model, serial number, health,
/// online state and last update, separated by commas.
pub open spec fn inventory_row(d: DeviceStatusInfo) -> Seq<char> {
    d.path@ + ","@ + d.vendor@ + ","@ + d.model@ + ","@ + d.serial@ + ","@ + health_name(d.health_status) + ","@
        + (if d.is_online { "在线"@ } else { "离线"@ }) + ","@ + d.last_updated@ + "\n"@
}

pub open spec fn inventory_rows(s: Seq<DeviceStatusInfo>) -> Seq<char>
    decreases s.len(),
{
    if s.len() == 0 {
        seq![]
    } else {
        inventory_rows(s.drop_last()) + inventory_row(s.last())
    }
}

pub open spec fn inventory_header() -> Seq<char> {
    "设备路径,厂商,型号,序列号,健康状态,在线状态,最后更新时间\n"@
}

/// Reports on the drives a device manager knows.
pub struct DeviceReportGenerator {
    pub device_manager: DeviceManager,
}

impl DeviceReportGenerator {
    pub fn new(device_manager: DeviceManager) -> (g: Self)
        ensures
            g.device_manager == device_manager,
    {
        DeviceReportGenerator { device_manager }
    }

    /// The drives as CSV: a header line, then one line per drive (see
    /// `inventory_row`).
    pub fn generate_device_inventory_csv(&self) -> (s: String)
        ensures
            s@ == inventory_header() + inventory_rows(self.device_manager.devices@),
    {
        let devices = &self.device_manager.devices;
        let mut v: Vec<char> = Vec::new();
        push_str(&mut v, "设备路径,厂商,型号,序列号,健康状态,在线状态,最后更新时间\n");
        let mut i: usize = 0;
        while i < devices.len()
            invariant
                i <= devices@.len(),
                v@ == inventory_header() + inventory_rows(devices@.take(i as int)),
            decreases devices@.len() - i,
        {
            proof {
                assert(devices@.take(i + 1).drop_last() =~= devices@.take(i as int));
            }
            let d = &devices[i];
            let ghost before = v@;
            push_str(&mut v, d.path.as_str());
            push_str(&mut v, ",");
            push_str(&mut v, d.vendor.as_str());
            push_str(&mut v, ",");
            push_str(&mut v, d.model.as_str());
            push_str(&mut v, ",");
            push_str(&mut v, d.serial.as_str());
            push_str(&mut v, ",");
            push_str(&mut v, health_name_exec(d.health_status));
            push_str(&mut v, ",");
            if d.is_online {
                push_str(&mut v, "在线");
            } else {
                push_str(&mut v, "离线");
            }
            push_str(&mut v, ",");
            push_str(&mut v, d.last_updated.as_str());
            push_str(&mut v, "\n");
            assert(v@ =~= before + inventory_row(*d));
            i = i + 1;
        }
        assert(devices@.take(devices@.len() as int) =~= devices@);
        chars_to_string(&v)
    }
}

} // verus!
