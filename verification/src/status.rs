use vstd::prelude::*;

verus! {

/// Outcome of a single dependency liveness probe, as shown on the
/// operator-facing status page.
#[derive(Clone, Copy, Debug, PartialEq, Eq, Structural)]
pub enum DependencyStatus {
    /// The dependency answered a liveness check successfully.
    Connected,
    /// The dependency's HTTP endpoint answered, but with a non-success status.
    Running,
    /// A client handle was opened, but no connection could be acquired.
    ConnectionFailed,
    /// The dependency could not be reached at all.
    NotAvailable,
    /// A connection was acquired, but the liveness command itself failed.
    Error,
}

/// The display string for each probe outcome.
pub open spec fn label_spec(s: DependencyStatus) -> Seq<char> {
    match s {
        DependencyStatus::Connected => "Connected"@,
        DependencyStatus::Running => "Running"@,
        DependencyStatus::ConnectionFailed => "Connection Failed"@,
        DependencyStatus::NotAvailable => "Not Available"@,
        DependencyStatus::Error => "Error"@,
    }
}

impl DependencyStatus {
    /// The status string that appears in JSON responses.
    pub fn label(&self) -> (r: String)
        ensures
            r@ == label_spec(*self),
    {
        match self {
            DependencyStatus::Connected => String::from_str("Connected"),
            DependencyStatus::Running => String::from_str("Running"),
            DependencyStatus::ConnectionFailed => String::from_str("Connection Failed"),
            DependencyStatus::NotAvailable => String::from_str("Not Available"),
            DependencyStatus::Error => String::from_str("Error"),
        }
    }
}

} // verus!
