use decency::check;
use decency::check_machine;
use decency::check_posix;
use decency::Error;

// A version and a model that a well-behaved host could report.
fn good_version() -> Result<String, String> {
    Ok("13.6.1".to_string())
}

fn good_model() -> Result<String, String> {
    Ok("MacBookPro17,1".to_string())
}

#[test]
fn test_decency() {
    assert!(check(good_version(), good_model()).is_ok())
}

#[test]
fn low_major_passes() {
    assert!(check_posix("0").is_ok());
    assert!(check_posix("1.2.3").is_ok());
    assert!(check_posix("12.99").is_ok());
    assert!(check_posix("13.6.1").is_ok());
    // only the major component is inspected when it is at most 13
    assert!(check_posix("13.x").is_ok());
}

#[test]
fn sonoma_minor_boundary() {
    assert!(check_posix("14.0").is_ok());
    assert!(check_posix("14.1").is_ok());
    assert!(check_posix("14.2").is_ok());
    assert!(check_posix("14.3").is_ok());
    assert!(check_posix("14.3.1").is_ok());
    assert_eq!(check_posix("14.4"), Err(Error::NotPosix));
    assert_eq!(check_posix("14.4.1"), Err(Error::NotPosix));
}

#[test]
fn minor_compared_numerically() {
    // 10 is larger than 3 as a number, though not letter by letter
    assert_eq!(check_posix("14.10"), Err(Error::NotPosix));
}

#[test]
fn newer_major_fails() {
    assert_eq!(check_posix("15.0"), Err(Error::NotPosix));
    assert_eq!(check_posix("15.x"), Err(Error::NotPosix));
    assert_eq!(check_posix("99"), Err(Error::NotPosix));
    assert_eq!(
        check_posix("99999999999999999999"),
        Err(Error::NotPosix)
    );
}

#[test]
fn empty_version_is_unparseable() {
    assert_eq!(check_posix(""), Err(Error::ParseOsVersion));
}

#[test]
fn non_numeric_components_are_unparseable() {
    assert_eq!(check_posix("14.x"), Err(Error::ParseOsVersion));
    assert_eq!(check_posix("x.4"), Err(Error::ParseOsVersion));
    assert_eq!(check_posix("14."), Err(Error::ParseOsVersion));
    assert_eq!(check_posix(".4"), Err(Error::ParseOsVersion));
    assert_eq!(check_posix("-1"), Err(Error::ParseOsVersion));
    assert_eq!(check_posix("14 .2"), Err(Error::ParseOsVersion));
}

#[test]
fn bare_sonoma_major_is_unparseable() {
    // a major component of 14 defers to a minor component that is not there
    assert_eq!(check_posix("14"), Err(Error::ParseOsVersion));
}

#[test]
fn denylisted_model_fails() {
    assert_eq!(check_machine("MacBookPro16,1"), Err(Error::BadMacModel));
}

#[test]
fn near_matches_pass() {
    assert!(check_machine("MacBookPro16.1").is_ok());
    assert!(check_machine("macbookpro16,1").is_ok());
    assert!(check_machine("MacBookPro16,1 ").is_ok());
    assert!(check_machine("MacBookPro16,2").is_ok());
    assert!(check_machine("").is_ok());
}

#[test]
fn lone_version_failure_comes_back_alone() {
    assert_eq!(
        check(Ok("15.0".to_string()), good_model()),
        Err(Error::NotPosix)
    );
}

#[test]
fn lone_machine_failure_comes_back_alone() {
    assert_eq!(
        check(good_version(), Ok("MacBookPro16,1".to_string())),
        Err(Error::BadMacModel)
    );
}

#[test]
fn two_failures_aggregate_in_check_order() {
    assert_eq!(
        check(Ok("14.4".to_string()), Ok("MacBookPro16,1".to_string())),
        Err(Error::Many(vec![Error::NotPosix, Error::BadMacModel]))
    );
}

#[test]
fn failed_query_wraps_the_system_message() {
    assert_eq!(
        check(Err("no such ctl".to_string()), good_model()),
        Err(Error::Sysctl("no such ctl".to_string()))
    );
    assert_eq!(
        check(good_version(), Err("permission denied".to_string())),
        Err(Error::Sysctl("permission denied".to_string()))
    );
    assert_eq!(
        check(
            Err("no such ctl".to_string()),
            Err("permission denied".to_string())
        ),
        Err(Error::Many(vec![
            Error::Sysctl("no such ctl".to_string()),
            Error::Sysctl("permission denied".to_string()),
        ]))
    );
}

#[test]
fn repeated_checks_agree() {
    let inputs: Vec<(Result<String, String>, Result<String, String>)> = vec![
        (good_version(), good_model()),
        (Ok("14.4".to_string()), Ok("MacBookPro16,1".to_string())),
        (Err("boom".to_string()), good_model()),
        (Ok("".to_string()), Ok("MacBookPro16,1".to_string())),
    ];
    for (version, model) in inputs {
        assert_eq!(
            check(version.clone(), model.clone()),
            check(version, model)
        );
    }
}
