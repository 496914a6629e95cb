//! Conversion contexts.

use arrow_tds::context::{DateTimeRounding, MssqlProfile, PlanOptions, RuntimeConversionContext};

#[test]
fn selects_datetime_rounding_from_profile() {
    let options = PlanOptions::default();

    assert_eq!(
        RuntimeConversionContext::new(MssqlProfile::sql_server_2016_compat_100(), options)
            .datetime_rounding(),
        DateTimeRounding::LegacyPre130
    );
    assert_eq!(
        RuntimeConversionContext::new(MssqlProfile::sql_server_2017_compat_140(), options)
            .datetime_rounding(),
        DateTimeRounding::Compat130Plus
    );
}
