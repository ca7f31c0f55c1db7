use api_version::header::version_digits;
use api_version::XApiVersion;
use regex::Regex;

/// All texts of up to `len` characters out of `alphabet`.
fn texts(alphabet: &[char], len: usize) -> Vec<String> {
    let mut all = vec![String::new()];
    let mut last = vec![String::new()];
    for _ in 0..len {
        let mut next = Vec::new();
        for text in &last {
            for c in alphabet {
                let mut longer = text.clone();
                longer.push(*c);
                next.push(longer);
            }
        }
        all.extend(next.iter().cloned());
        last = next;
    }
    all
}

#[test]
fn the_designators_are_those_of_the_pattern() {
    let pattern = Regex::new("^v(0|[1-9][0-9]{0,3})$").unwrap();
    let candidates = texts(&['v', '0', '1', '9', 'x', '\u{0663}'], 6);
    assert_eq!(candidates.len(), 55_987);
    let mut designators = 0;
    for candidate in &candidates {
        let expected = pattern
            .captures(candidate)
            .and_then(|captures| captures.get(1))
            .map(|digits| digits.as_str());
        assert_eq!(version_digits(candidate), expected, "for {candidate:?}");
        let decoded = XApiVersion::decode(Some(candidate)).ok();
        let number = expected.map(|digits| digits.parse::<u16>().unwrap());
        assert_eq!(decoded.map(|header| header.version()), number, "for {candidate:?}");
        if expected.is_some() {
            designators += 1;
        }
    }
    assert_eq!(designators, 1 + 2 + 2 * 3 + 2 * 3 * 3 + 2 * 3 * 3 * 3);
}

#[test]
fn every_version_below_the_limit_has_one_designator() {
    for version in 0..10_000u16 {
        let designator = format!("v{version}");
        let decoded = XApiVersion::decode(Some(&designator)).unwrap();
        assert_eq!(decoded.version(), version);
        assert_eq!(version_digits(&designator), Some(&designator[1..]));
    }
    for version in 10_000..=u16::MAX {
        let designator = format!("v{version}");
        assert!(XApiVersion::decode(Some(&designator)).is_err());
        assert_eq!(version_digits(&designator), None);
    }
    for version in 0..1_000u16 {
        let padded = format!("v0{version}");
        assert!(XApiVersion::decode(Some(&padded)).is_err());
    }
}
