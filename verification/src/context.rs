//! Write-runtime conversion policies and context.

use vstd::prelude::*;

verus! {

/// What to do with nanoseconds that a 100 ns tick cannot hold.
#[derive(Debug, Clone, Copy, PartialEq, Eq, Hash, Structural)]
pub enum NanosecondPolicy {
    /// Reject values that are not a whole number of 100 ns ticks.
    RejectNon100ns,
    /// Drop the part below one tick.
    TruncateTo100ns,
    /// Round to the nearest tick, half of one upwards.
    RoundTo100ns,
}

/// Conversion policies selected during planning.
#[derive(Debug, Clone, Copy, PartialEq, Eq, Hash, Structural)]
pub struct PlanOptions {
    /// Nanosecond conversion policy.
    pub nanosecond_policy: NanosecondPolicy,
}

impl Default for PlanOptions {
    fn default() -> (options: Self)
        ensures
            options.nanosecond_policy == NanosecondPolicy::RejectNon100ns,
    {
        PlanOptions { nanosecond_policy: NanosecondPolicy::RejectNon100ns }
    }
}

/// How SQL Server rounds `datetime` values.
#[derive(Debug, Clone, Copy, PartialEq, Eq, Hash, Structural)]
pub enum DateTimeRounding {
    /// Compatibility levels below 130.
    LegacyPre130,
    /// Compatibility level 130 and later.
    Compat130Plus,
}

/// SQL Server release and database compatibility level that a plan targets.
#[derive(Debug, Clone, Copy, PartialEq, Eq, Hash, Structural)]
pub struct MssqlProfile {
    /// Release year of the server.
    pub release: u16,
    /// Database compatibility level.
    pub compatibility_level: u16,
}

/// The rounding behavior at a compatibility level.
pub open spec fn datetime_rounding_at(compatibility_level: u16) -> DateTimeRounding {
    if compatibility_level < 130 {
        DateTimeRounding::LegacyPre130
    } else {
        DateTimeRounding::Compat130Plus
    }
}

impl MssqlProfile {
    /// SQL Server 2016 with a database at compatibility level 100.
    pub fn sql_server_2016_compat_100() -> (profile: Self)
        ensures
            profile == (MssqlProfile { release: 2016, compatibility_level: 100 }),
    {
        MssqlProfile { release: 2016, compatibility_level: 100 }
    }

    /// SQL Server 2017 with a database at compatibility level 140.
    pub fn sql_server_2017_compat_140() -> (profile: Self)
        ensures
            profile == (MssqlProfile { release: 2017, compatibility_level: 140 }),
    {
        MssqlProfile { release: 2017, compatibility_level: 140 }
    }

    /// Returns the `datetime` rounding behavior of the profile.
    pub fn datetime_rounding(self) -> (rounding: DateTimeRounding)
        ensures
            rounding == datetime_rounding_at(self.compatibility_level),
    {
        if self.compatibility_level < 130 {
            DateTimeRounding::LegacyPre130
        } else {
            DateTimeRounding::Compat130Plus
        }
    }
}

/// Runtime conversion context derived from a planned schema.
#[derive(Debug, Clone, Copy, PartialEq, Eq, Hash, Structural)]
pub struct RuntimeConversionContext {
    /// SQL Server profile selected during planning.
    pub profile: MssqlProfile,
    /// Conversion policies selected during planning.
    pub plan_options: PlanOptions,
}

impl RuntimeConversionContext {
    /// Creates a runtime conversion context.
    pub fn new(profile: MssqlProfile, plan_options: PlanOptions) -> (context: Self)
        ensures
            context == (RuntimeConversionContext { profile, plan_options }),
    {
        RuntimeConversionContext { profile, plan_options }
    }

    /// Returns the SQL Server profile selected during planning.
    pub fn profile(self) -> (profile: MssqlProfile)
        ensures
            profile == self.profile,
    {
        self.profile
    }

    /// Returns the conversion policies selected during planning.
    pub fn plan_options(self) -> (options: PlanOptions)
        ensures
            options == self.plan_options,
    {
        self.plan_options
    }

    /// Returns the nanosecond conversion policy.
    pub fn nanosecond_policy(self) -> (policy: NanosecondPolicy)
        ensures
            policy == self.plan_options.nanosecond_policy,
    {
        self.plan_options.nanosecond_policy
    }

    /// Returns the SQL Server datetime rounding behavior selected by the profile.
    pub fn datetime_rounding(self) -> (rounding: DateTimeRounding)
        ensures
            rounding == datetime_rounding_at(self.profile.compatibility_level),
    {
        self.profile.datetime_rounding()
    }
}

} // verus!
