use vstd::prelude::*;

verus! {

/// Health grade of a tape drive.
#[derive(Debug, Clone, Copy, PartialEq, Eq, Hash, Structural)]
pub enum DeviceHealth {
    Excellent,
    Good,
    Fair,
    Poor,
    Critical,
    Unknown,
}

/// Identity and usage of a loaded medium.
pub struct TapeMediaInfo {
    pub media_type: String,
    pub serial_number: String,
    pub barcode: Option<String>,
    pub total_capacity: u64,
    pub used_capacity: u64,
    pub remaining_capacity: u64,
    pub write_protected: bool,
    pub manufacture_date: Option<String>,
    pub first_mount_date: Option<String>,
    pub last_mount_date: String,
    pub mount_count: u32,
}

#[derive(Debug, Clone, Copy, PartialEq, Eq, Structural)]
pub enum IssueType {
    Hardware,
    Media,
    Communication,
    Performance,
    Maintenance,
    Configuration,
}

#[derive(Debug, Clone, Copy, PartialEq, Eq, Structural)]
pub enum IssueSeverity {
    Info,
    Warning,
    Error,
    Critical,
}

/// A problem recorded for a drive.
pub struct DeviceIssue {
    pub issue_type: IssueType,
    pub severity: IssueSeverity,
    pub description: String,
    pub timestamp: String,
    pub error_code: Option<String>,
    pub recommended_action: Option<String>,
}

/// How the error rate (errors per million operations) compares with the
/// thresholds of the health check.
#[derive(Debug, Clone, Copy, PartialEq, Eq, Structural)]
pub enum ErrorRateBand {
    /// At most 10 ppm.
    Low,
    /// Above 10 and at most 100 ppm.
    Elevated,
    /// Above 100 ppm.
    High,
}

/// The results of the health checks of a drive.
#[derive(Debug, Clone, Copy, PartialEq, Eq)]
pub struct HealthChecks {
    /// TEST UNIT READY answered.
    pub responsive: bool,
    pub error_rate: ErrorRateBand,
    /// Temperature check result, when the drive reports one.
    pub temperature_ok: Option<bool>,
    /// Head check result, when the drive reports one.
    pub head_ok: Option<bool>,
}

/// The health score: 100, less 30 for no response, 25 or 10 for a high or
/// elevated error rate, 15 for a bad temperature and 20 for a bad head.
pub open spec fn health_score_of(c: HealthChecks) -> int {
    100 - (if c.responsive { 0int } else { 30 }) - (match c.error_rate {
        ErrorRateBand::High => 25int,
        ErrorRateBand::Elevated => 10,
        ErrorRateBand::Low => 0,
    }) - (if c.temperature_ok == Some(false) { 15int } else { 0 }) - (if c.head_ok == Some(false) {
        20int
    } else {
        0
    })
}

/// The grade of a score: 90 and up excellent, 75 good, 60 fair, 40 poor,
/// 0 critical, unknown below.
pub open spec fn health_of_score(s: int) -> DeviceHealth {
    if s >= 90 {
        DeviceHealth::Excellent
    } else if s >= 75 {
        DeviceHealth::Good
    } else if s >= 60 {
        DeviceHealth::Fair
    } else if s >= 40 {
        DeviceHealth::Poor
    } else if s >= 0 {
        DeviceHealth::Critical
    } else {
        DeviceHealth::Unknown
    }
}

/// The health score of a drive from its check results.
pub fn health_score(checks: &HealthChecks) -> (s: i32)
    ensures
        s == health_score_of(*checks),
        10 <= s <= 100,
{
    let mut score: i32 = 100;
    if !checks.responsive {
        score = score - 30;
    }
    match checks.error_rate {
        ErrorRateBand::High => {
            score = score - 25;
        },
        ErrorRateBand::Elevated => {
            score = score - 10;
        },
        ErrorRateBand::Low => {},
    }
    if let Some(false) = checks.temperature_ok {
        score = score - 15;
    }
    if let Some(false) = checks.head_ok {
        score = score - 20;
    }
    score
}

/// The grade of a drive from its check results.
pub fn assess_device_health(checks: &HealthChecks) -> (h: DeviceHealth)
    ensures
        h == health_of_score(health_score_of(*checks)),
{
    let s = health_score(checks);
    if s >= 90 {
        DeviceHealth::Excellent
    } else if s >= 75 {
        DeviceHealth::Good
    } else if s >= 60 {
        DeviceHealth::Fair
    } else if s >= 40 {
        DeviceHealth::Poor
    } else if s >= 0 {
        DeviceHealth::Critical
    } else {
        DeviceHealth::Unknown
    }
}

/// A drive with every check passed is graded excellent, and no drive is
/// graded unknown: the score never falls below 10.
pub proof fn law_health_grades(c: HealthChecks)
    ensures
        c.responsive && c.error_rate == ErrorRateBand::Low && c.temperature_ok != Some(false)
            && c.head_ok != Some(false) ==> health_of_score(health_score_of(c)) == DeviceHealth::Excellent,
        health_of_score(health_score_of(c)) != DeviceHealth::Unknown,
{
}

/// A grade that needs attention: fair, poor or critical.
pub fn needs_attention(h: DeviceHealth) -> (b: bool)
    ensures
        b == (h == DeviceHealth::Fair || h == DeviceHealth::Poor || h == DeviceHealth::Critical),
{
    match h {
        DeviceHealth::Fair | DeviceHealth::Poor | DeviceHealth::Critical => true,
        _ => false,
    }
}

} // verus!
