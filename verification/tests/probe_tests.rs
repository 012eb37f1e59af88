use donldr::probe::parse_u64;
use donldr::probe::Download;
use donldr::probe::Info;
use donldr::probe::ProbeResponse;
use donldr::Errors;

fn resp(cl: Option<&[u8]>, ar: Option<&[u8]>) -> ProbeResponse {
    ProbeResponse {
        content_length: cl.map(|b| b.to_vec()),
        accept_ranges: ar.map(|b| b.to_vec()),
    }
}

#[test]
fn probe_derives_size_and_ranges() {
    let info = Info::new(resp(Some(b"1000"), Some(b"bytes")), 4).unwrap();
    assert_eq!(info.size, 1000);
    assert_eq!(info.chunk_size, 250);
    assert_eq!(info.chunks, 4);
    assert_eq!(info.ranges, vec![(0, 249), (250, 499), (500, 749), (750, 999)]);
    assert!(info.check_accept_ranges());
}

#[test]
fn missing_content_length_fails_probe() {
    let e = Info::new(resp(None, None), 4).unwrap_err();
    assert!(matches!(e, Errors::ProbeFailed { .. }));
}

#[test]
fn malformed_content_length_fails_probe() {
    let not_decimal = Info::new(resp(Some(b"12x4"), None), 2).unwrap_err();
    assert!(matches!(not_decimal, Errors::ProbeFailed { .. }));
    let empty = Info::new(resp(Some(b""), None), 2).unwrap_err();
    assert!(matches!(empty, Errors::ProbeFailed { .. }));
    let too_large = Info::new(resp(Some(b"99999999999999999999"), None), 2).unwrap_err();
    assert!(matches!(too_large, Errors::ProbeFailed { .. }));
}

#[test]
fn empty_resource_probes_to_empty_plan() {
    let info = Info::new(resp(Some(b"0"), None), 4).unwrap();
    assert_eq!(info.size, 0);
    assert_eq!(info.chunk_size, 0);
    assert!(info.ranges.is_empty());
}

#[test]
fn accept_ranges_policy() {
    let denied = Info::new(resp(Some(b"10"), Some(b"none")), 2).unwrap();
    assert!(!denied.check_accept_ranges());
    let absent = Info::new(resp(Some(b"10"), None), 2).unwrap();
    assert!(absent.check_accept_ranges());
    let other = Info::new(resp(Some(b"10"), Some(b"whatever")), 2).unwrap();
    assert!(other.check_accept_ranges());
}

#[test]
fn download_rejects_denied_ranges() {
    let e = Download::new(
        "http://host/f".to_string(),
        "./".to_string(),
        4,
        resp(Some(b"100"), Some(b"none")),
    )
    .unwrap_err();
    assert_eq!(e, Errors::UnsupportedRangeRequests);
}

#[test]
fn download_succeeds_and_exposes_ranges() {
    let d = Download::new(
        "http://host/f.bin".to_string(),
        "./".to_string(),
        4,
        resp(Some(b"1000"), Some(b"bytes")),
    )
    .unwrap();
    assert_eq!(d.url, "http://host/f.bin");
    assert_eq!(d.path, "./");
    assert_eq!(d.get_ranges(0), (0, 249));
    assert_eq!(d.get_ranges(3), (750, 999));
}

#[test]
fn download_reports_probe_failure_first() {
    let e = Download::new(
        "http://host/f".to_string(),
        "./".to_string(),
        4,
        resp(None, Some(b"none")),
    )
    .unwrap_err();
    assert!(matches!(e, Errors::ProbeFailed { .. }));
}

#[test]
fn parse_u64_accepts_digit_strings_only() {
    assert_eq!(parse_u64(&b"0".to_vec()), Some(0));
    assert_eq!(parse_u64(&b"007".to_vec()), Some(7));
    assert_eq!(parse_u64(&b"18446744073709551615".to_vec()), Some(u64::MAX));
    assert_eq!(parse_u64(&b"18446744073709551616".to_vec()), None);
    assert_eq!(parse_u64(&b"+5".to_vec()), None);
    assert_eq!(parse_u64(&b" 5".to_vec()), None);
    assert_eq!(parse_u64(&b"".to_vec()), None);
}
