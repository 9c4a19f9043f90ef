//! Error reports as they travel on the bus: an eight-byte payload naming
//! the component, an error code, a severity, a component-local code and
//! four detail bytes. The transport — sending the frame and rate-limiting
//! repeats — lives with the hardware layer; here are the payload codec and
//! the rate-limit decision itself.

use vstd::prelude::*;

verus! {

/// Interval below which a repeated report of the same error is suppressed.
pub const ERROR_REPEAT_INTERVAL_MS: u64 = 1000;

/// Kind of error a report carries.
#[derive(Debug, Copy, Clone, PartialEq, Eq, Hash, Structural)]
pub enum ErrorCode {
    Unknown,
    InvalidData,
}

impl ErrorCode {
    /// The wire code of an error code.
    pub open spec fn spec_code(self) -> u8 {
        match self {
            ErrorCode::Unknown => 0,
            ErrorCode::InvalidData => 1,
        }
    }

    /// The error code a wire byte decodes to; unrecognised bytes decode to
    /// `Unknown`.
    pub open spec fn spec_from_code(code: u8) -> ErrorCode {
        match code {
            1u8 => ErrorCode::InvalidData,
            _ => ErrorCode::Unknown,
        }
    }

    #[verifier::when_used_as_spec(spec_code)]
    pub fn code(self) -> (code: u8)
        ensures
            code == self.spec_code(),
    {
        match self {
            ErrorCode::Unknown => 0,
            ErrorCode::InvalidData => 1,
        }
    }

    #[verifier::when_used_as_spec(spec_from_code)]
    pub fn from_code(code: u8) -> (r: ErrorCode)
        ensures
            r == Self::spec_from_code(code),
    {
        match code {
            1u8 => ErrorCode::InvalidData,
            _ => ErrorCode::Unknown,
        }
    }
}

/// How grave a report is.
#[derive(Debug, Copy, Clone, PartialEq, Eq, Structural)]
pub enum Severity {
    Unknown,
    Warning,
    RecoverableError,
    RepeatingError,
    Error,
    CriticalError,
}

impl Severity {
    /// The wire code of a severity.
    pub open spec fn spec_code(self) -> u8 {
        match self {
            Severity::Unknown => 0,
            Severity::Warning => 1,
            Severity::RecoverableError => 2,
            Severity::RepeatingError => 3,
            Severity::Error => 4,
            Severity::CriticalError => 5,
        }
    }

    /// The severity a wire byte decodes to; unrecognised bytes decode to
    /// `Unknown`. Inbound codes two and three trade places against
    /// `spec_code`: receivers of this protocol read a recoverable error
    /// where senders write a repeating one and the other way round.
    pub open spec fn spec_from_code(code: u8) -> Severity {
        match code {
            1u8 => Severity::Warning,
            2u8 => Severity::RepeatingError,
            3u8 => Severity::RecoverableError,
            4u8 => Severity::Error,
            5u8 => Severity::CriticalError,
            _ => Severity::Unknown,
        }
    }

    #[verifier::when_used_as_spec(spec_code)]
    pub fn code(self) -> (code: u8)
        ensures
            code == self.spec_code(),
    {
        match self {
            Severity::Unknown => 0,
            Severity::Warning => 1,
            Severity::RecoverableError => 2,
            Severity::RepeatingError => 3,
            Severity::Error => 4,
            Severity::CriticalError => 5,
        }
    }

    #[verifier::when_used_as_spec(spec_from_code)]
    pub fn from_code(code: u8) -> (r: Severity)
        ensures
            r == Self::spec_from_code(code),
    {
        match code {
            1u8 => Severity::Warning,
            2u8 => Severity::RepeatingError,
            3u8 => Severity::RecoverableError,
            4u8 => Severity::Error,
            5u8 => Severity::CriticalError,
            _ => Severity::Unknown,
        }
    }
}

/// Which subsystem reports.
#[derive(Debug, Copy, Clone, PartialEq, Eq, Hash, Structural)]
pub enum Component {
    Unknown,
    Can,
    Device,
    Update,
    Storage,
    Ota,
    Relais,
}

impl Component {
    /// The wire code of a component.
    pub open spec fn spec_code(self) -> u8 {
        match self {
            Component::Unknown => 0,
            Component::Can => 1,
            Component::Device => 2,
            Component::Update => 3,
            Component::Storage => 4,
            Component::Ota => 5,
            Component::Relais => 6,
        }
    }

    /// The component a wire byte decodes to; unrecognised bytes decode to
    /// `Unknown`.
    pub open spec fn spec_from_code(code: u8) -> Component {
        match code {
            1u8 => Component::Can,
            2u8 => Component::Device,
            3u8 => Component::Update,
            4u8 => Component::Storage,
            5u8 => Component::Ota,
            6u8 => Component::Relais,
            _ => Component::Unknown,
        }
    }

    #[verifier::when_used_as_spec(spec_code)]
    pub fn code(self) -> (code: u8)
        ensures
            code == self.spec_code(),
    {
        match self {
            Component::Unknown => 0,
            Component::Can => 1,
            Component::Device => 2,
            Component::Update => 3,
            Component::Storage => 4,
            Component::Ota => 5,
            Component::Relais => 6,
        }
    }

    #[verifier::when_used_as_spec(spec_from_code)]
    pub fn from_code(code: u8) -> (r: Component)
        ensures
            r == Self::spec_from_code(code),
    {
        match code {
            1u8 => Component::Can,
            2u8 => Component::Device,
            3u8 => Component::Update,
            4u8 => Component::Storage,
            5u8 => Component::Ota,
            6u8 => Component::Relais,
            _ => Component::Unknown,
        }
    }
}

/// One error report.
#[derive(Debug, Clone, Copy, PartialEq, Eq)]
pub struct ErrorReport {
    pub component: Component,
    pub code: ErrorCode,
    pub severity: Severity,
    /// A code private to the reporting component.
    pub local_code: u8,
    /// Up to four bytes of context, zero-padded.
    pub details: [u8; 4],
}

impl ErrorReport {
    /// The eight payload bytes of a report.
    pub open spec fn spec_bytes(self) -> Seq<u8> {
        seq![
            self.component.spec_code(),
            self.code.spec_code(),
            self.severity.spec_code(),
            self.local_code,
            self.details@[0],
            self.details@[1],
            self.details@[2],
            self.details@[3],
        ]
    }

    /// A report with the given detail bytes: up to the first four are
    /// taken, missing ones are zero.
    pub fn new(
        component: Component,
        code: ErrorCode,
        severity: Severity,
        local_code: u8,
        details: &[u8],
    ) -> (r: ErrorReport)
        ensures
            r.component == component,
            r.code == code,
            r.severity == severity,
            r.local_code == local_code,
            forall|i: int|
                0 <= i < 4 ==> r.details@[i] == (if i < details@.len() {
                    details@[i]
                } else {
                    0u8
                }),
    {
        let mut d: [u8; 4] = [0u8, 0u8, 0u8, 0u8];
        d[0] = if details.len() > 0 { details[0] } else { 0 };
        d[1] = if details.len() > 1 { details[1] } else { 0 };
        d[2] = if details.len() > 2 { details[2] } else { 0 };
        d[3] = if details.len() > 3 { details[3] } else { 0 };
        ErrorReport { component, code, severity, local_code, details: d }
    }

    /// Encodes a report into its eight payload bytes.
    pub fn to_bytes(&self) -> (bytes: [u8; 8])
        ensures
            bytes@ == self.spec_bytes(),
    {
        let bytes: [u8; 8] = [
            self.component.code(),
            self.code.code(),
            self.severity.code(),
            self.local_code,
            self.details[0],
            self.details[1],
            self.details[2],
            self.details[3],
        ];
        proof {
            assert(bytes@ =~= self.spec_bytes());
        }
        bytes
    }

    /// Decodes a payload: exactly the eight-byte payloads are accepted;
    /// the three code fields decode totally, unknown bytes to `Unknown`.
    pub fn from_bytes(data: &[u8]) -> (r: Result<ErrorReport, ()>)
        ensures
            data@.len() == 8 ==> (r matches Ok(rep) && rep == (ErrorReport {
                component: Component::spec_from_code(data@[0]),
                code: ErrorCode::spec_from_code(data@[1]),
                severity: Severity::spec_from_code(data@[2]),
                local_code: data@[3],
                details: [data@[4], data@[5], data@[6], data@[7]],
            })),
            data@.len() != 8 ==> r is Err,
    {
        if data.len() != 8 {
            return Err(());
        }
        Ok(ErrorReport {
            component: Component::from_code(data[0]),
            code: ErrorCode::from_code(data[1]),
            severity: Severity::from_code(data[2]),
            local_code: data[3],
            details: [data[4], data[5], data[6], data[7]],
        })
    }
}

/// The rate-limit decision for a repeated report: a report goes out when
/// the same error — same component, code and local code — was never sent,
/// or was last sent at least the repeat interval ago.
pub fn rate_limit_allows(last_sent_ms: Option<u64>, now_ms: u64) -> (allowed: bool)
    ensures
        allowed == (last_sent_ms matches Some(last) ==> (now_ms >= last && now_ms - last
            >= ERROR_REPEAT_INTERVAL_MS)),
{
    match last_sent_ms {
        Some(last) => now_ms >= last && now_ms - last >= ERROR_REPEAT_INTERVAL_MS,
        None => true,
    }
}

} // verus!
