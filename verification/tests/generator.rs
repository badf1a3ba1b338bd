use luna_rs::MIN_SIZE;
use luna_rs::generator::Generator;
use luna_rs::options::{parse_interval, parse_timespec};
use luna_rs::time::TimeSpec;

#[test]
fn default() {
    let count = 20;
    let size = 32;
    let mut options: Vec<(String, String)> = Vec::new();
    options.push(("count".to_string(), format!("{count}")));
    options.push(("size".to_string(), format!("{size}")));
    options.push(("interval".to_string(), "0.2".to_string()));
    let mut stream = Generator::Default.run(&options).expect("options must parse");
    let step = TimeSpec::new(0, 200_000_000);
    for i in 0..count {
        let pkt = stream.next().expect("stream ended early");
        println!("{i} {pkt:?}");
        assert_eq!(pkt.delay, step);
        assert_eq!(pkt.size, size);
    }
    assert_eq!(stream.next(), None);
}

#[test]
fn vary() {
    let mut options: Vec<(String, String)> = Vec::new();
    options.push(("max-size".to_string(), "3000".to_string()));
    let mut stream = Generator::Vary.run(&options).expect("options must parse");
    let step = TimeSpec::new(0, 1_000_000);
    let size = vec![
        21, 42, 84, 168, 336, 672, 1344, 2688, 3000, 2688, 1344, 672, 336, 168, 84, 42, 21, 42,
        84, 168,
    ];
    for i in 0..20 {
        let pkt = stream.next().expect("stream ended early");
        println!("{i} {pkt:?}");
        assert_eq!(pkt.delay, step);
        assert_eq!(pkt.size, size[i]);
    }
    assert_eq!(stream.next(), None);
}

#[test]
fn timespec() {
    assert_eq!(parse_timespec(".002"), Ok(TimeSpec::new(0, 2_000_000)));
    assert_eq!(parse_timespec("1.02"), Ok(TimeSpec::new(1, 20_000_000)));
    assert_eq!(parse_timespec("1"), Ok(TimeSpec::new(1, 0)));
    assert_eq!(parse_timespec("0.000000006"), Ok(TimeSpec::new(0, 6)));
    // empty string is equivalent to all zeroes
    assert_eq!(parse_timespec(""), Ok(TimeSpec::new(0, 0)));
    // decimal places beyond the 9th are cut off
    assert_eq!(parse_timespec("1.0000000006"), Ok(TimeSpec::new(1, 0)));
    assert!(parse_timespec("ab.0").is_err());
}

#[test]
fn time_definition() {
    let mut go: Vec<(String, String)> = Vec::new();
    assert_eq!(parse_interval(&go).unwrap(), None);
    go.push(("msec".to_string(), "1".to_string()));
    go.push(("usec".to_string(), "1000".to_string()));
    assert!(parse_interval(&go).is_err());
    go.retain(|kv| kv.0 != "msec");
    assert_eq!(parse_interval(&go).unwrap(), Some(TimeSpec::new(0, 1_000_000)));
    go.clear();
    go.push(("interval".to_string(), "0.001".to_string()));
    assert_eq!(parse_interval(&go).unwrap(), Some(TimeSpec::new(0, 1_000_000)));
}

#[test]
fn timespec_negative_seconds() {
    assert_eq!(parse_timespec("-3.5"), Ok(TimeSpec::new(-3, 500_000_000)));
    assert_eq!(parse_timespec("-0.25"), Ok(TimeSpec::new(0, 250_000_000)));
    assert!(parse_timespec("-").is_err());
    assert!(parse_timespec("1.-2").is_err());
    assert!(parse_timespec("1.2.3").is_err());
}

#[test]
fn vary_default_max_size() {
    // With max-size 1500 the emitted sizes reach the bound, turn around
    // and oscillate back up.
    let mut options: Vec<(String, String)> = Vec::new();
    options.push(("max-size".to_string(), "1500".to_string()));
    let mut stream = Generator::Vary.run(&options).expect("options must parse");
    let want = vec![
        21, 42, 84, 168, 336, 672, 1344, 1500, 1344, 672, 336, 168, 84, 42, 21, 42, 84, 168, 336,
        672,
    ];
    for (i, w) in want.iter().enumerate() {
        let pkt = stream.next().expect("stream ended early");
        assert_eq!(pkt.size, *w, "step {i}");
    }
    assert_eq!(stream.next(), None);

    // No max-size option gives the same bound of 1500.
    let none: Vec<(String, String)> = Vec::new();
    let mut stream = Generator::Vary.run(&none).expect("no options must work");
    for w in want.iter() {
        assert_eq!(stream.next().expect("stream ended early").size, *w);
    }
}

#[test]
fn default_generator_defaults() {
    let options: Vec<(String, String)> = Vec::new();
    let mut stream = Generator::Default.run(&options).expect("no options must work");
    let step = TimeSpec::new(0, 500_000_000);
    for _ in 0..10 {
        let pkt = stream.next().expect("stream ended early");
        assert_eq!(pkt.delay, step);
        assert_eq!(pkt.size, MIN_SIZE);
    }
    assert_eq!(stream.next(), None);
}

#[test]
fn invalid_option_names_the_key() {
    let mut options: Vec<(String, String)> = Vec::new();
    options.push(("count".to_string(), "abc".to_string()));
    let e = Generator::Default.run(&options).unwrap_err();
    assert_eq!(e.option, "count");

    let mut options: Vec<(String, String)> = Vec::new();
    options.push(("size".to_string(), "12x".to_string()));
    let e = Generator::Default.run(&options).unwrap_err();
    assert_eq!(e.option, "size");

    let mut options: Vec<(String, String)> = Vec::new();
    options.push(("max-size".to_string(), "".to_string()));
    let e = Generator::Vary.run(&options).unwrap_err();
    assert_eq!(e.option, "max-size");

    let mut options: Vec<(String, String)> = Vec::new();
    options.push(("msec".to_string(), "oops".to_string()));
    let e = Generator::Default.run(&options).unwrap_err();
    assert_eq!(e.option, "msec");
}

#[test]
fn exclusive_time_units_name_the_second_key() {
    // Keys clash in the fixed order interval, msec, usec, nsec: the
    // second of the pair is reported.
    let mut go: Vec<(String, String)> = Vec::new();
    go.push(("interval".to_string(), "1".to_string()));
    go.push(("nsec".to_string(), "5".to_string()));
    assert_eq!(parse_interval(&go).unwrap_err().option, "nsec");

    let mut go: Vec<(String, String)> = Vec::new();
    go.push(("usec".to_string(), "5".to_string()));
    go.push(("msec".to_string(), "5".to_string()));
    assert_eq!(parse_interval(&go).unwrap_err().option, "usec");

    let e = Generator::Vary.run(&go).unwrap_err();
    assert_eq!(e.option, "usec");
}

#[test]
fn interval_units() {
    let mut go: Vec<(String, String)> = Vec::new();
    go.push(("usec".to_string(), "30".to_string()));
    assert_eq!(parse_interval(&go).unwrap(), Some(TimeSpec::new(0, 30_000)));

    let mut go: Vec<(String, String)> = Vec::new();
    go.push(("nsec".to_string(), "7".to_string()));
    assert_eq!(parse_interval(&go).unwrap(), Some(TimeSpec::new(0, 7)));

    let mut go: Vec<(String, String)> = Vec::new();
    go.push(("msec".to_string(), "2500".to_string()));
    assert_eq!(parse_interval(&go).unwrap(), Some(TimeSpec::new(2, 500_000_000)));
}

#[test]
fn plus_signed_option_values() {
    // a leading plus sign is accepted on the plain decimal options
    let mut go: Vec<(String, String)> = Vec::new();
    go.push(("usec".to_string(), "+30".to_string()));
    assert_eq!(parse_interval(&go).unwrap(), Some(TimeSpec::new(0, 30_000)));

    let mut options: Vec<(String, String)> = Vec::new();
    options.push(("count".to_string(), "+3".to_string()));
    options.push(("size".to_string(), "+32".to_string()));
    let mut stream = Generator::Default.run(&options).expect("options must parse");
    let mut n = 0;
    while let Some(pkt) = stream.next() {
        assert_eq!(pkt.size, 32);
        n += 1;
    }
    assert_eq!(n, 3);

    // a sign alone is not a number
    let mut options: Vec<(String, String)> = Vec::new();
    options.push(("count".to_string(), "+".to_string()));
    assert_eq!(Generator::Default.run(&options).unwrap_err().option, "count");
}

#[test]
fn first_option_entry_wins() {
    let mut go: Vec<(String, String)> = Vec::new();
    go.push(("count".to_string(), "3".to_string()));
    go.push(("count".to_string(), "5".to_string()));
    let mut stream = Generator::Default.run(&go).expect("options must parse");
    let mut n = 0;
    while stream.next().is_some() {
        n += 1;
    }
    assert_eq!(n, 3);
}
