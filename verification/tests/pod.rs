use kuber_rs::errors::Error;
use kuber_rs::pod::{parse_listing, Pod};

fn pod(name: &str, ready: &str, status: &str, restarts: &str, age: &str) -> Pod {
    Pod {
        name: name.to_string(),
        ready: ready.to_string(),
        status: status.to_string(),
        restarts: restarts.to_string(),
        age: age.to_string(),
    }
}

#[test]
fn parse_pod_info() {
    //given
    let pod_info =
        "wiremock-docker-64962f5dh4-scq24               1/1     Running   0              18d";
    let expected = Pod {
        name: "wiremock-docker-64962f5dh4-scq24".to_string(),
        ready: "1/1".to_string(),
        status: "Running".to_string(),
        restarts: "0".to_string(),
        age: "18d".to_string(),
    };

    // when
    let actual: Pod = pod_info.parse().unwrap();

    //then
    assert_eq!(actual, expected);
}

#[test]
fn parse_pod_info_with_restart_date() {
    //given
    let pod_info =
        "some-7dd394858c-sxctv                       1/1     Running   1 (8d ago)     30d";
    let expected = Pod {
        name: "some-7dd394858c-sxctv".to_string(),
        ready: "1/1".to_string(),
        status: "Running".to_string(),
        restarts: "1 (8d ago)".to_string(),
        age: "30d".to_string(),
    };

    // when
    let actual: Pod = pod_info.parse().unwrap();

    //then
    assert_eq!(actual, expected);
}

#[test]
fn should_not_parse_headers() {
    //given
    let header =
        "NAME                                           READY   STATUS    RESTARTS       AGE";
    //when
    let result: Result<Pod, Error> = header.parse();
    // then expect error
    result.unwrap_err();
}

#[test]
fn parse_row_with_single_spaces() {
    let actual = Pod::parse("wiremock-docker-64962f5dh4-scq24   1/1   Running   0   18d").unwrap();
    assert_eq!(actual, pod("wiremock-docker-64962f5dh4-scq24", "1/1", "Running", "0", "18d"));
}

#[test]
fn parse_row_with_restart_time() {
    let actual = Pod::parse("some-7dd394858c-sxctv   1/1   Running   1 (8d ago)   30d").unwrap();
    assert_eq!(actual.restarts, "1 (8d ago)");
    assert_eq!(actual.age, "30d");
}

#[test]
fn header_line_is_a_parse_error() {
    let result = Pod::parse("NAME READY STATUS RESTARTS AGE");
    assert!(matches!(result, Err(Error::ParseOutputError)));
}

#[test]
fn wrong_number_of_words_is_a_parse_error() {
    assert!(matches!(Pod::parse(""), Err(Error::ParseOutputError)));
    assert!(matches!(Pod::parse("a 1/1 Running 0"), Err(Error::ParseOutputError)));
    assert!(matches!(Pod::parse("a 1/1 Running 0 1d extra"), Err(Error::ParseOutputError)));
    assert!(matches!(
        Pod::parse("a 1/1 Running 0 (8d ago) 1d extra"),
        Err(Error::ParseOutputError)
    ));
}

#[test]
fn restart_count_must_fit_sixteen_bits() {
    assert_eq!(Pod::parse("a 1/1 Running 65535 1d").unwrap().restarts, "65535");
    assert_eq!(Pod::parse("a 1/1 Running +7 1d").unwrap().restarts, "+7");
    assert_eq!(Pod::parse("a 1/1 Running 00000065535 1d").unwrap().restarts, "00000065535");
    assert!(Pod::parse("a 1/1 Running 65536 1d").is_err());
    assert!(Pod::parse("a 1/1 Running 99999999999999999999 1d").is_err());
    assert!(Pod::parse("a 1/1 Running -1 1d").is_err());
    assert!(Pod::parse("a 1/1 Running + 1d").is_err());
    assert!(Pod::parse("a 1/1 Running 1x 1d").is_err());
}

#[test]
fn parse_agrees_with_from_str() {
    let line = "\tweb-0 \u{a0} 0/1  CrashLoopBackOff  12 (3m ago)  2h\r";
    let parsed: Pod = line.parse().unwrap();
    assert_eq!(parsed, Pod::parse(line).unwrap());
    assert_eq!(parsed, pod("web-0", "0/1", "CrashLoopBackOff", "12 (3m ago)", "2h"));
}

#[test]
fn duplicate_keeps_every_column() {
    let row = pod("web-0", "1/1", "Running", "3 (1h ago)", "2d");
    assert_eq!(row.duplicate(), row);
}

#[test]
fn listing_keeps_rows_in_order_and_skips_the_rest() {
    let output = "NAME    READY   STATUS    RESTARTS      AGE\n\
                  web-0   1/1     Running   0             18d\r\n\
                  \n\
                  No resources found\n\
                  web-1   0/1     Pending   1 (8d ago)    30d";
    let pods = parse_listing(output);
    assert_eq!(
        pods,
        vec![
            pod("web-0", "1/1", "Running", "0", "18d"),
            pod("web-1", "0/1", "Pending", "1 (8d ago)", "30d"),
        ]
    );
}

#[test]
fn listing_of_empty_output_is_empty() {
    assert_eq!(parse_listing(""), Vec::<Pod>::new());
    assert_eq!(parse_listing("NAME READY STATUS RESTARTS AGE\n"), Vec::<Pod>::new());
}
