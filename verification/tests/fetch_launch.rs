use base64::Engine;
use cloud_seed::http::{
    classify_status, decode_body, detect_format, BodyError, BodyFormat, Endpoint, StatusClass,
};
use cloud_seed::launch::{launch_step, parse_user_data, source_order, Launch, LaunchError};
use cloud_seed::source::alibaba::AlibabaSource;
use cloud_seed::source::amazon::AmazonSource;
use cloud_seed::source::exoscale::ExoscaleSource;
use cloud_seed::source::gcorelabs::GcorelabsSource;
use cloud_seed::source::google::GoogleSource;
use cloud_seed::source::openstack::OpenstackSource;
use cloud_seed::source::oracle::OracleSource;
use cloud_seed::source::vultr::VultrSource;
use cloud_seed::source::{fetch_step, DmiKey, FetchError, Reply, Request, Source, SourceKind, Step};
use cloud_seed::text::{decode_utf8_bytes, split_once, str_eq, trim};
use std::io::Write;

fn gzip(data: &[u8]) -> Vec<u8> {
    let mut enc = flate2::write::GzEncoder::new(Vec::new(), flate2::Compression::default());
    enc.write_all(data).unwrap();
    enc.finish().unwrap()
}

fn b64(data: &[u8]) -> String {
    base64::engine::general_purpose::STANDARD.encode(data)
}

fn s(x: &str) -> String {
    x.to_string()
}

#[test]
fn trim_matches_std() {
    for x in ["  a b  ", "\t\n x \r\n", "", "   ", "\u{3000}y\u{85}", "\u{200b}z", "abc"] {
        assert_eq!(trim(x), x.trim(), "{:?}", x);
    }
}

#[test]
fn split_once_matches_std() {
    for x in ["a\nb\nc", "\n", "none", "", "x\n"] {
        let ours = split_once(x, '\n');
        let theirs = x.split_once('\n').map(|(a, b)| (a.to_string(), b.to_string()));
        assert_eq!(ours, theirs);
    }
    assert!(str_eq("abc", "abc"));
    assert!(!str_eq("abc", "abd"));
    assert!(!str_eq("abc", "ab"));
}

#[test]
fn utf8_decoding() {
    assert_eq!(decode_utf8_bytes(vec![0x68, 0x69]), Some(s("hi")));
    assert_eq!(decode_utf8_bytes(vec![0xff]), None);
}

#[test]
fn status_classes() {
    assert_eq!(classify_status(200), StatusClass::Success);
    assert_eq!(classify_status(204), StatusClass::Success);
    assert_eq!(classify_status(299), StatusClass::Success);
    assert_eq!(classify_status(404), StatusClass::NotFound);
    assert_eq!(classify_status(500), StatusClass::Failure(500));
    assert_eq!(classify_status(301), StatusClass::Failure(301));
    assert_eq!(classify_status(199), StatusClass::Failure(199));
}

#[test]
fn body_formats() {
    assert_eq!(detect_format(&[0x1f, 0x8b, 0x08]), BodyFormat::Gzip);
    assert_eq!(detect_format(b"H4sIAAAA"), BodyFormat::Base64Gzip);
    assert_eq!(detect_format(b"#cloud-seed"), BodyFormat::Plain);
    assert_eq!(detect_format(&[0x1f, 0x00, 0x00]), BodyFormat::Plain);
}

#[test]
fn body_decoding() {
    assert_eq!(decode_body(BodyFormat::Plain, b"hello".to_vec()), Ok(s("hello")));
    assert_eq!(decode_body(BodyFormat::Plain, vec![0xc3]), Err(BodyError::Utf8));
    let z = gzip(b"#cloud-seed\n{}");
    assert_eq!(detect_format(&z), BodyFormat::Gzip);
    assert_eq!(decode_body(BodyFormat::Gzip, z), Ok(s("#cloud-seed\n{}")));
    assert_eq!(decode_body(BodyFormat::Gzip, b"not gzip".to_vec()), Err(BodyError::Gzip));
    let packed = b64(&gzip(b"doc"));
    assert_eq!(detect_format(packed.as_bytes()), BodyFormat::Base64Gzip);
    let expected = format!("{}doc", packed);
    assert_eq!(decode_body(BodyFormat::Base64Gzip, packed.into_bytes()), Ok(expected));
    assert_eq!(decode_body(BodyFormat::Base64Gzip, b"H4s!".to_vec()), Err(BodyError::Base64));
    assert_eq!(decode_body(BodyFormat::Base64Gzip, b"Zm9v".to_vec()), Err(BodyError::Gzip));
}

#[test]
fn endpoints() {
    assert_eq!(Endpoint::AlibabaUserData.url(), "http://100.100.100.200/latest/user-data");
    assert_eq!(Endpoint::VultrMetadata.url(), "http://169.254.169.254/v1.json");
    assert_eq!(Endpoint::AlibabaUserData.header(), ("user-agent", "cloud-seed"));
    assert_eq!(Endpoint::GoogleUserData.header(), ("metadata-flavor", "Google"));
    assert_eq!(Endpoint::OracleUserData.header(), ("authorization", "Bearer Oracle"));
    assert_eq!(Endpoint::VultrMetadata.header(), ("metadata-token", "cloudinit"));
    assert_eq!(DmiKey::ProductName.path(), "/sys/devices/virtual/dmi/id/product_name");
}

#[test]
fn every_source_reads_dmi_first_and_declines_foreign_clouds() {
    let sources: Vec<(Box<dyn Fn(&Vec<Reply<String>>) -> Step<String>>, DmiKey)> = vec![
        (Box::new(|r| AlibabaSource.next_step(r)), DmiKey::ProductName),
        (Box::new(|r| AmazonSource.next_step(r)), DmiKey::BiosVendor),
        (Box::new(|r| ExoscaleSource.next_step(r)), DmiKey::ProductName),
        (Box::new(|r| GcorelabsSource.next_step(r)), DmiKey::ProductName),
        (Box::new(|r| GoogleSource.next_step(r)), DmiKey::ProductName),
        (Box::new(|r| OpenstackSource.next_step(r)), DmiKey::SysVendor),
        (Box::new(|r| OracleSource.next_step(r)), DmiKey::ChassisAssetTag),
        (Box::new(|r| VultrSource.next_step(r)), DmiKey::BiosVendor),
    ];
    for (step, key) in sources {
        match step(&vec![]) {
            Step::Ask(Request::ReadDmi(k)) => assert_eq!(k, key),
            other => panic!("{:?}", other),
        }
        assert!(matches!(step(&vec![Reply::Dmi(None)]), Step::Done(None)));
        assert!(matches!(step(&vec![Reply::Dmi(Some(s("QEMU\n")))]), Step::Done(None)));
        assert!(matches!(
            step(&vec![Reply::Http(None)]),
            Step::Failed(FetchError::UnexpectedReply)
        ));
    }
}

#[test]
fn alibaba_fetch() {
    let dmi = Reply::Dmi(Some(s("Alibaba Cloud ECS\n")));
    match AlibabaSource.next_step(&vec![Reply::Dmi(Some(s("Alibaba Cloud ECS\n")))]) {
        Step::Ask(Request::HttpGet(e)) => assert_eq!(e, Endpoint::AlibabaUserData),
        other => panic!("{:?}", other),
    }
    let found = AlibabaSource.next_step(&vec![dmi, Reply::Http(Some(s("#cloud-seed\n{}")))]);
    match found {
        Step::Done(Some(ud)) => assert_eq!(ud, "#cloud-seed\n{}"),
        other => panic!("{:?}", other),
    }
    let missing = AlibabaSource.next_step(&vec![
        Reply::Dmi(Some(s("Alibaba Cloud ECS"))),
        Reply::Http(None),
    ]);
    assert!(matches!(missing, Step::Failed(FetchError::NoUserData)));
    assert_eq!(AlibabaSource.kind(), SourceKind::Alibaba);
}

#[test]
fn openstack_and_oracle_fetch() {
    let r = vec![Reply::Dmi(Some(s(" OpenStack Foundation "))), Reply::Http(None)];
    assert!(matches!(OpenstackSource.next_step(&r), Step::Failed(FetchError::NoUserData)));
    match OracleSource.next_step(&vec![Reply::Dmi(Some(s("OracleCloud.com\n")))]) {
        Step::Ask(Request::HttpGet(e)) => assert_eq!(e, Endpoint::OracleUserData),
        other => panic!("{:?}", other),
    }
}

#[test]
fn amazon_fetch() {
    let r = vec![Reply::Dmi(Some(s("Amazon EC2\n")))];
    assert!(matches!(AmazonSource.next_step(&r), Step::Ask(Request::ImdsUserData)));
    let r = vec![Reply::Dmi(Some(s("Amazon EC2\n"))), Reply::Imds(s("data"))];
    match AmazonSource.next_step(&r) {
        Step::Done(Some(ud)) => assert_eq!(ud, "data"),
        other => panic!("{:?}", other),
    }
}

#[test]
fn exoscale_and_gcorelabs_pass_missing_user_data_through() {
    let r = vec![Reply::Dmi(Some(s("Exoscale Compute Platform"))), Reply::Http(None)];
    assert!(matches!(ExoscaleSource.next_step(&r), Step::Done(None)));
    let r = vec![Reply::Dmi(Some(s("GCore Labs"))), Reply::Http(Some(s("x")))];
    match GcorelabsSource.next_step(&r) {
        Step::Done(Some(ud)) => assert_eq!(ud, "x"),
        other => panic!("{:?}", other),
    }
}

#[test]
fn google_fetch() {
    let dmi = || Reply::Dmi(Some(s("Google Compute Engine\n")));
    match GoogleSource.next_step(&vec![dmi()]) {
        Step::Ask(Request::HttpGet(e)) => assert_eq!(e, Endpoint::GoogleUserDataEncoding),
        other => panic!("{:?}", other),
    }
    match GoogleSource.next_step(&vec![dmi(), Reply::Http(Some(s("\"base64\"")))]) {
        Step::Ask(Request::ParseGoogleEncoding(b)) => assert_eq!(b, "\"base64\""),
        other => panic!("{:?}", other),
    }
    let encoded = b64(b"#cloud-seed\n{}");
    let r = vec![
        dmi(),
        Reply::Http(Some(s("\"base64\""))),
        Reply::GoogleEncoding(Ok(())),
        Reply::Http(Some(encoded.clone())),
    ];
    match GoogleSource.next_step(&r) {
        Step::Done(Some(ud)) => assert_eq!(ud, "#cloud-seed\n{}"),
        other => panic!("{:?}", other),
    }
    let r = vec![dmi(), Reply::Http(None), Reply::Http(Some(encoded.clone()))];
    match GoogleSource.next_step(&r) {
        Step::Done(Some(ud)) => assert_eq!(ud, encoded),
        other => panic!("{:?}", other),
    }
    let r = vec![dmi(), Reply::Http(Some(s("x"))), Reply::GoogleEncoding(Err(s("bad")))];
    match GoogleSource.next_step(&r) {
        Step::Failed(FetchError::Json(m)) => assert_eq!(m, "bad"),
        other => panic!("{:?}", other),
    }
    let r = vec![
        dmi(),
        Reply::Http(Some(s("\"base64\""))),
        Reply::GoogleEncoding(Ok(())),
        Reply::Http(Some(s("!!"))),
    ];
    assert!(matches!(GoogleSource.next_step(&r), Step::Failed(FetchError::Base64)));
    let r = vec![
        dmi(),
        Reply::Http(Some(s("\"base64\""))),
        Reply::GoogleEncoding(Ok(())),
        Reply::Http(Some(b64(&[0xff, 0xfe]))),
    ];
    assert!(matches!(GoogleSource.next_step(&r), Step::Failed(FetchError::Utf8)));
    let r = vec![dmi(), Reply::Http(None), Reply::Http(None)];
    assert!(matches!(GoogleSource.next_step(&r), Step::Failed(FetchError::NoUserData)));
}

#[test]
fn vultr_fetch() {
    let dmi = || Reply::Dmi(Some(s("Vultr\n")));
    let body = s("{\"user-data\":\"#cloud-seed\\n{}\"}");
    match VultrSource.next_step(&vec![dmi(), Reply::Http(Some(body.clone()))]) {
        Step::Ask(Request::ParseVultrMetadata(b)) => assert_eq!(b, body),
        other => panic!("{:?}", other),
    }
    let r = vec![dmi(), Reply::Http(Some(body.clone())), Reply::VultrMetadata(Ok(Some(s("ud"))))];
    match VultrSource.next_step(&r) {
        Step::Done(Some(ud)) => assert_eq!(ud, "ud"),
        other => panic!("{:?}", other),
    }
    let r = vec![dmi(), Reply::Http(Some(body)), Reply::VultrMetadata(Ok(None))];
    assert!(matches!(VultrSource.next_step(&r), Step::Done(None)));
    let r = vec![dmi(), Reply::Http(None)];
    assert!(matches!(VultrSource.next_step(&r), Step::Failed(FetchError::NoUserData)));
    assert!(matches!(fetch_step(SourceKind::Vultr, &vec![]), Step::Ask(Request::ReadDmi(DmiKey::BiosVendor))));
}

#[test]
fn finished_fetch_ignores_further_replies() {
    let r = vec![Reply::Dmi(None), Reply::Http(Some(s("late")))];
    assert!(matches!(AlibabaSource.next_step(&r), Step::Done(None)));
}

#[test]
fn user_data_headers() {
    let readme = "#cloud-seed\n{\n  \"hostname\": \"myserver\"\n}";
    assert_eq!(parse_user_data(readme), Ok(s("{\n  \"hostname\": \"myserver\"\n}")));
    assert_eq!(parse_user_data("#cloud-config\nhostname: x\n"), Ok(s("hostname: x\n")));
    assert_eq!(parse_user_data("  #cloud-seed \r\nrest"), Ok(s("rest")));
    assert_eq!(parse_user_data("#cloud-seed"), Err(LaunchError::MalformedUserData));
    assert_eq!(parse_user_data("#!/bin/sh\necho hi"), Err(LaunchError::UnhandledShebang));
    assert_eq!(parse_user_data("\n"), Err(LaunchError::UnhandledShebang));
}

#[test]
fn launch_tries_sources_in_order() {
    let order = source_order();
    assert_eq!(
        order,
        vec![
            SourceKind::Alibaba,
            SourceKind::Amazon,
            SourceKind::Exoscale,
            SourceKind::Gcorelabs,
            SourceKind::Google,
            SourceKind::Openstack,
            SourceKind::Oracle,
            SourceKind::Vultr,
        ]
    );
    let mut results: Vec<Option<String>> = Vec::new();
    for kind in order {
        match launch_step(&results) {
            Launch::Fetch(k) => assert_eq!(k, kind),
            other => panic!("{:?}", other),
        }
        results.push(None);
    }
    assert!(matches!(launch_step(&results), Launch::Fail(LaunchError::NoSuitableSource)));
    let results = vec![None, Some(s("#cloud-seed\ndoc")), Some(s("ignored"))];
    match launch_step(&results) {
        Launch::Apply(doc) => assert_eq!(doc, "doc"),
        other => panic!("{:?}", other),
    }
    let results = vec![Some(s("no header"))];
    assert!(matches!(launch_step(&results), Launch::Fail(LaunchError::MalformedUserData)));
    let results = vec![Some(s("#!x\ny"))];
    assert!(matches!(launch_step(&results), Launch::Fail(LaunchError::UnhandledShebang)));
}

#[test]
fn gzip_body_reads_as_plain() {
    let t = "#cloud-seed\n{\"hostname\": \"h\"}";
    let z = gzip(t.as_bytes());
    assert_eq!(decode_body(detect_format(&z), z), Ok(s(t)));
    assert_eq!(decode_body(detect_format(t.as_bytes()), t.as_bytes().to_vec()), Ok(s(t)));
}

#[test]
fn trimming_twice_is_trimming_once() {
    for x in ["  Vultr \n", "\u{a0}Amazon EC2\u{2028}", "", " \t "] {
        let once = trim(x);
        assert_eq!(trim(&once), once);
    }
}
