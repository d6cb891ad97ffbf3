use base64::Engine;
use cloud_seed::execute::{
    content_bytes, file_step, open_flags, parse_mode, split_owner, ContentError, FileAction,
    FileEvent, ModeError, OpenFlags, WriteError,
};
use cloud_seed::schema::{default_permissions, Encoding, File, UserData};
use std::io::Write;

fn gzip(data: &[u8]) -> Vec<u8> {
    let mut enc = flate2::write::GzEncoder::new(Vec::new(), flate2::Compression::default());
    enc.write_all(data).unwrap();
    enc.finish().unwrap()
}

fn b64(data: &[u8]) -> String {
    base64::engine::general_purpose::STANDARD.encode(data)
}

fn file(permissions: &str, owner: Option<&str>, encoding: Encoding, content: &str, append: bool) -> File {
    File {
        path: "/etc/foobar/foobar.conf".to_string(),
        content: content.to_string(),
        owner: owner.map(|o| o.to_string()),
        permissions: permissions.to_string(),
        encoding,
        append,
    }
}

#[test]
fn default_permissions_is_0644() {
    assert_eq!(default_permissions(), "0644");
    assert_eq!(parse_mode(&default_permissions()), Ok(0o644));
}

#[test]
fn encoding_names_and_aliases() {
    assert_eq!(Encoding::from_name("plain"), Some(Encoding::Plain));
    assert_eq!(Encoding::from_name("text/plain"), Some(Encoding::Plain));
    assert_eq!(Encoding::from_name("base64"), Some(Encoding::Base64));
    assert_eq!(Encoding::from_name("b64"), Some(Encoding::Base64));
    assert_eq!(Encoding::from_name("base64gzip"), Some(Encoding::Base64Gzip));
    assert_eq!(Encoding::from_name("gz+base64"), Some(Encoding::Base64Gzip));
    assert_eq!(Encoding::from_name("gzip+base64"), Some(Encoding::Base64Gzip));
    assert_eq!(Encoding::from_name("gz+b64"), Some(Encoding::Base64Gzip));
    assert_eq!(Encoding::from_name("gzip+b64"), Some(Encoding::Base64Gzip));
    assert_eq!(Encoding::from_name("Base64"), None);
    assert_eq!(Encoding::from_name(""), None);
    assert_eq!(Encoding::default(), Encoding::Plain);
    for e in [Encoding::Plain, Encoding::Base64, Encoding::Base64Gzip] {
        assert_eq!(Encoding::from_name(e.name()), Some(e));
    }
}

#[test]
fn open_flags_follow_append() {
    assert_eq!(
        open_flags(false),
        OpenFlags { create: true, truncate: true, append: false, write: true, read: false }
    );
    assert_eq!(
        open_flags(true),
        OpenFlags { create: true, truncate: false, append: true, write: true, read: false }
    );
}

#[test]
fn octal_modes() {
    assert_eq!(parse_mode("0644"), Ok(0o644));
    assert_eq!(parse_mode("755"), Ok(0o755));
    assert_eq!(parse_mode("+600"), Ok(0o600));
    assert_eq!(parse_mode("0"), Ok(0));
    assert_eq!(parse_mode("37777777777"), Ok(u32::MAX));
    assert_eq!(parse_mode(""), Err(ModeError::Empty));
    assert_eq!(parse_mode("+"), Err(ModeError::InvalidDigit));
    assert_eq!(parse_mode("-"), Err(ModeError::InvalidDigit));
    assert_eq!(parse_mode("-5"), Err(ModeError::InvalidDigit));
    assert_eq!(parse_mode("0648"), Err(ModeError::InvalidDigit));
    assert_eq!(parse_mode(" 644"), Err(ModeError::InvalidDigit));
    assert_eq!(parse_mode("40000000000"), Err(ModeError::PosOverflow));
    assert_eq!(parse_mode("777777777777x"), Err(ModeError::PosOverflow));
    for s in ["", "+", "-5", "0644", "17", "8", "40000000000", "é7"] {
        let std_result = u32::from_str_radix(s, 8).ok();
        assert_eq!(parse_mode(s).ok(), std_result, "{}", s);
    }
}

#[test]
fn owner_split_at_first_colon() {
    assert_eq!(split_owner("root:root"), Some(("root".to_string(), "root".to_string())));
    assert_eq!(split_owner("a:b:c"), Some(("a".to_string(), "b:c".to_string())));
    assert_eq!(split_owner(":"), Some((String::new(), String::new())));
    assert_eq!(split_owner("root"), None);
    let f = file("0644", Some("www:staff"), Encoding::Plain, "", false);
    assert_eq!(f.owner_user_group(), Some(("www".to_string(), "staff".to_string())));
    let f = file("0644", Some("www"), Encoding::Plain, "", false);
    assert_eq!(f.owner_user_group(), None);
    let f = file("0644", None, Encoding::Plain, "", false);
    assert_eq!(f.owner_user_group(), None);
}

#[test]
fn content_in_each_encoding() {
    assert_eq!(content_bytes(Encoding::Plain, "héllo\n"), Ok("héllo\n".as_bytes().to_vec()));
    assert_eq!(content_bytes(Encoding::Base64, "Zm9vYmFyCg=="), Ok(b"foobar\n".to_vec()));
    assert_eq!(content_bytes(Encoding::Base64, "Zm9v!"), Err(ContentError::Base64));
    let packed = b64(&gzip(b"compressed text"));
    assert_eq!(content_bytes(Encoding::Base64Gzip, &packed), Ok(b"compressed text".to_vec()));
    assert_eq!(content_bytes(Encoding::Base64Gzip, "???"), Err(ContentError::Base64));
    assert_eq!(content_bytes(Encoding::Base64Gzip, "Zm9vYmFyCg=="), Err(ContentError::Gzip));
    let f = file("0644", None, Encoding::Base64, "Zm9vYmFyCg==", false);
    assert_eq!(f.content_bytes(), Ok(b"foobar\n".to_vec()));
    assert_eq!(f.mode(), Ok(0o644));
    assert_eq!(f.open_flags().truncate, true);
}

#[test]
fn user_data_holds_files() {
    let ud = UserData {
        hostname: Some("myserver".to_string()),
        files: vec![file("0644", Some("root:root"), Encoding::Base64, "Zm9vYmFyCg==", false)],
    };
    assert_eq!(ud.hostname.as_deref(), Some("myserver"));
    assert_eq!(ud.files.len(), 1);
}

#[test]
fn file_steps_without_owner() {
    let f = file("0600", None, Encoding::Plain, "abc", true);
    assert!(matches!(file_step(&f, &vec![]), FileAction::CreateParentDir));
    match file_step(&f, &vec![FileEvent::ParentReady]) {
        FileAction::Open { flags, mode } => {
            assert_eq!(mode, 0o600);
            assert_eq!(flags, open_flags(true));
        }
        other => panic!("{:?}", other),
    }
    match file_step(&f, &vec![FileEvent::ParentReady, FileEvent::Opened]) {
        FileAction::Write(b) => assert_eq!(b, b"abc".to_vec()),
        other => panic!("{:?}", other),
    }
    assert!(matches!(
        file_step(&f, &vec![FileEvent::ParentReady, FileEvent::Opened, FileEvent::Written]),
        FileAction::Finished
    ));
    assert!(matches!(
        file_step(&f, &vec![FileEvent::Opened]),
        FileAction::Failed(WriteError::UnexpectedEvent)
    ));
}

#[test]
fn file_steps_with_owner() {
    let f = file("0644", Some("alice:staff"), Encoding::Base64, "Zm9v", false);
    let mut ev = vec![FileEvent::ParentReady, FileEvent::Opened];
    match file_step(&f, &ev) {
        FileAction::LookupUser(u) => assert_eq!(u, "alice"),
        other => panic!("{:?}", other),
    }
    ev.push(FileEvent::UserFound(Some(1000)));
    match file_step(&f, &ev) {
        FileAction::LookupGroup(g) => assert_eq!(g, "staff"),
        other => panic!("{:?}", other),
    }
    ev.push(FileEvent::GroupFound(Some(50)));
    assert!(matches!(file_step(&f, &ev), FileAction::Chown { uid: 1000, gid: 50 }));
    ev.push(FileEvent::Chowned);
    match file_step(&f, &ev) {
        FileAction::Write(b) => assert_eq!(b, b"foo".to_vec()),
        other => panic!("{:?}", other),
    }
    ev.push(FileEvent::Written);
    assert!(matches!(file_step(&f, &ev), FileAction::Finished));

    let no_user = vec![FileEvent::ParentReady, FileEvent::Opened, FileEvent::UserFound(None)];
    assert!(matches!(file_step(&f, &no_user), FileAction::Failed(WriteError::NoSuchUser)));
    let no_group = vec![
        FileEvent::ParentReady,
        FileEvent::Opened,
        FileEvent::UserFound(Some(1)),
        FileEvent::GroupFound(None),
    ];
    assert!(matches!(file_step(&f, &no_group), FileAction::Failed(WriteError::NoSuchGroup)));
}

#[test]
fn file_step_errors() {
    let f = file("rw-r--r--", None, Encoding::Plain, "", false);
    assert!(matches!(
        file_step(&f, &vec![FileEvent::ParentReady]),
        FileAction::Failed(WriteError::Mode(ModeError::InvalidDigit))
    ));
    let f = file("0644", None, Encoding::Base64, "not base64!", false);
    assert!(matches!(
        file_step(&f, &vec![FileEvent::ParentReady, FileEvent::Opened]),
        FileAction::Failed(WriteError::Content(ContentError::Base64))
    ));
}

#[test]
fn encodings_agree_on_the_same_bytes() {
    let d = "line one\nline two\n".as_bytes().to_vec();
    assert_eq!(content_bytes(Encoding::Plain, "line one\nline two\n"), Ok(d.clone()));
    assert_eq!(content_bytes(Encoding::Base64, &b64(&d)), Ok(d.clone()));
    assert_eq!(content_bytes(Encoding::Base64Gzip, &b64(&gzip(&d))), Ok(d));
}

#[test]
fn replacing_a_file_is_repeatable() {
    let f = file("0640", None, Encoding::Base64, "Zm9v", false);
    let g = file("0640", None, Encoding::Base64, "Zm9v", false);
    let ev = vec![FileEvent::ParentReady];
    for x in [&f, &g] {
        match file_step(x, &ev) {
            FileAction::Open { flags, mode } => {
                assert!(flags.truncate && !flags.append);
                assert_eq!(mode, 0o640);
            }
            other => panic!("{:?}", other),
        }
        match file_step(x, &vec![FileEvent::ParentReady, FileEvent::Opened]) {
            FileAction::Write(b) => assert_eq!(b, b"foo".to_vec()),
            other => panic!("{:?}", other),
        }
    }
}
