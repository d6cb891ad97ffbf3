//! What writing one file of the user data amounts to: the options the file is
//! opened with, the mode it is created with, who should own it, and the bytes
//! that go into it.
use crate::codec::{base64_decode, gunzip, spec_base64_decode, spec_gunzip};
use crate::schema::{Encoding, File};
use crate::text::{chars_of, spec_split_once, split_once, utf8_bytes};
use vstd::prelude::*;
use vstd::utf8::encode_utf8;

verus! {

/// The options a file is opened with.
#[derive(Clone, Copy, Debug, PartialEq, Eq, Structural)]
pub struct OpenFlags {
    /// Create the file if it does not exist.
    pub create: bool,
    /// Empty an existing file.
    pub truncate: bool,
    /// Write at the end of an existing file.
    pub append: bool,
    /// Open for writing.
    pub write: bool,
    /// Open for reading.
    pub read: bool,
}

/// The options for a file that is appended to (`append`) or replaced.
pub open spec fn spec_open_flags(append: bool) -> OpenFlags {
    OpenFlags { create: true, truncate: !append, append: append, write: true, read: false }
}

/// Why a permissions string is not an octal mode.
#[derive(Clone, Copy, Debug, PartialEq, Eq, Structural)]
pub enum ModeError {
    /// The string is empty.
    Empty,
    /// A character is not an octal digit (or the string is a lone sign).
    InvalidDigit,
    /// The value does not fit in 32 bits.
    PosOverflow,
}

/// Whether `c` is one of `0` to `7`.
pub open spec fn is_octal_digit(c: char) -> bool {
    '0' <= c && c <= '7'
}

/// Reads the octal digits `ds` from left to right after `acc`: the first
/// character that is no octal digit, or the first digit after which the value
/// exceeds `u32::MAX`, decides the error.
pub open spec fn octal_scan(acc: int, ds: Seq<char>) -> Result<u32, ModeError>
    decreases ds.len(),
{
    if ds.len() == 0 {
        Ok(acc as u32)
    } else if !is_octal_digit(ds[0]) {
        Err(ModeError::InvalidDigit)
    } else {
        let next = acc * 8 + (ds[0] as int - '0' as int);
        if next > u32::MAX {
            Err(ModeError::PosOverflow)
        } else {
            octal_scan(next, ds.drop_first())
        }
    }
}

/// The mode that a permissions string denotes, read as `u32::from_str_radix`
/// reads base 8: an optional leading `+`, then octal digits.
pub open spec fn spec_parse_mode(s: Seq<char>) -> Result<u32, ModeError> {
    if s.len() == 0 {
        Err(ModeError::Empty)
    } else if (s[0] == '+' || s[0] == '-') && s.len() == 1 {
        Err(ModeError::InvalidDigit)
    } else if s[0] == '+' {
        octal_scan(0, s.drop_first())
    } else {
        octal_scan(0, s)
    }
}

/// Why the content of a file could not be decoded.
#[derive(Clone, Copy, Debug, PartialEq, Eq, Structural)]
pub enum ContentError {
    /// The content is not valid base64.
    Base64,
    /// The base64-decoded content is not gzip data.
    Gzip,
}

/// The bytes that `content` in encoding `enc` stands for. Gzip content is
/// decompressed whole before anything is written: a truncated stream fails
/// with nothing written, and bytes after the first gzip member are ignored.
pub open spec fn spec_content_bytes(enc: Encoding, content: Seq<char>) -> Result<
    Seq<u8>,
    ContentError,
> {
    let raw = encode_utf8(content);
    match enc {
        Encoding::Plain => Ok(raw),
        Encoding::Base64 => match spec_base64_decode(raw) {
            Some(d) => Ok(d),
            None => Err(ContentError::Base64),
        },
        Encoding::Base64Gzip => match spec_base64_decode(raw) {
            Some(d) => match spec_gunzip(d) {
                Some(g) => Ok(g),
                None => Err(ContentError::Gzip),
            },
            None => Err(ContentError::Base64),
        },
    }
}

/// The options for a file that is appended to or replaced: always created
/// if missing and opened for writing only; emptied exactly when not appended to.
pub fn open_flags(append: bool) -> (r: OpenFlags)
    ensures
        r == spec_open_flags(append),
{
    OpenFlags { create: true, truncate: !append, append: append, write: true, read: false }
}

/// Parses a permissions string as an octal mode.
pub fn parse_mode(s: &str) -> (r: Result<u32, ModeError>)
    ensures
        r == spec_parse_mode(s@),
{
    let cs = chars_of(s);
    let n = cs.len();
    if n == 0 {
        return Err(ModeError::Empty);
    }
    if (cs[0] == '+' || cs[0] == '-') && n == 1 {
        return Err(ModeError::InvalidDigit);
    }
    let mut i: usize = if cs[0] == '+' {
        1
    } else {
        0
    };
    let ghost digits = cs@.skip(i as int);
    assert(spec_parse_mode(s@) == octal_scan(0, digits)) by {
        if cs@[0] == '+' {
            assert(cs@.drop_first() =~= cs@.skip(1));
        } else {
            assert(cs@ =~= cs@.skip(0));
        }
    }
    let mut acc: u32 = 0;
    while i < n
        invariant
            i <= n == cs.len(),
            cs@ == s@,
            spec_parse_mode(s@) == octal_scan(acc as int, cs@.skip(i as int)),
        decreases n - i,
    {
        let c = cs[i];
        let ghost rest = cs@.skip(i as int);
        assert(rest[0] == c);
        if !('0' <= c && c <= '7') {
            return Err(ModeError::InvalidDigit);
        }
        let d: u64 = (c as u64) - ('0' as u64);
        let next: u64 = (acc as u64) * 8 + d;
        if next > 0xffff_ffff {
            return Err(ModeError::PosOverflow);
        }
        assert(rest.drop_first() =~= cs@.skip(i + 1));
        acc = next as u32;
        i = i + 1;
    }
    assert(cs@.skip(i as int).len() == 0);
    Ok(acc)
}

/// The user and the group of a `user:group` owner string: the text before
/// and after its first `:`, or `None` where it has no `:`.
pub fn split_owner(owner: &str) -> (r: Option<(String, String)>)
    ensures
        match spec_split_once(owner@, ':') {
            Some((u, g)) => r matches Some((x, y)) && x@ == u && y@ == g,
            None => r is None,
        },
{
    split_once(owner, ':')
}

/// The bytes that `content` in encoding `enc` stands for.
pub fn content_bytes(enc: Encoding, content: &str) -> (r: Result<Vec<u8>, ContentError>)
    ensures
        match spec_content_bytes(enc, content@) {
            Ok(b) => r matches Ok(v) && v@ == b,
            Err(e) => r == Err::<Vec<u8>, ContentError>(e),
        },
{
    let raw = utf8_bytes(content);
    match enc {
        Encoding::Plain => Ok(raw),
        Encoding::Base64 => match base64_decode(raw.as_slice()) {
            Some(d) => Ok(d),
            None => Err(ContentError::Base64),
        },
        Encoding::Base64Gzip => match base64_decode(raw.as_slice()) {
            Some(d) => match gunzip(d.as_slice()) {
                Some(g) => Ok(g),
                None => Err(ContentError::Gzip),
            },
            None => Err(ContentError::Base64),
        },
    }
}

/// The default permissions, `0644`, are the mode `0o644`.
pub proof fn lemma_default_permissions_mode()
    ensures
        spec_parse_mode("0644"@) == Ok::<u32, ModeError>(0o644),
{
    reveal_strlit("0644");
    let s = "0644"@;
    let s1 = s.drop_first();
    let s2 = s1.drop_first();
    let s3 = s2.drop_first();
    let s4 = s3.drop_first();
    assert(s4.len() == 0);
    assert(octal_scan(0o644, s4) == Ok::<u32, ModeError>(0o644));
    assert(octal_scan(0o64, s3) == octal_scan(0o644, s4));
    assert(octal_scan(0o6, s2) == octal_scan(0o64, s3));
    assert(octal_scan(0, s1) == octal_scan(0o6, s2));
    assert(octal_scan(0, s) == octal_scan(0, s1));
}

impl File {
    /// The options this file is opened with.
    pub fn open_flags(&self) -> (r: OpenFlags)
        ensures
            r == spec_open_flags(self.append),
    {
        open_flags(self.append)
    }

    /// The mode this file is created with.
    pub fn mode(&self) -> (r: Result<u32, ModeError>)
        ensures
            r == spec_parse_mode(self.permissions@),
    {
        parse_mode(self.permissions.as_str())
    }

    /// The user and group that should own this file: present only where an
    /// owner is given and holds a `:`.
    pub fn owner_user_group(&self) -> (r: Option<(String, String)>)
        ensures
            match self.owner {
                Some(o) => match spec_split_once(o@, ':') {
                    Some((u, g)) => r matches Some((x, y)) && x@ == u && y@ == g,
                    None => r is None,
                },
                None => r is None,
            },
    {
        match &self.owner {
            Some(o) => split_owner(o.as_str()),
            None => None,
        }
    }

    /// The bytes to write into this file.
    pub fn content_bytes(&self) -> (r: Result<Vec<u8>, ContentError>)
        ensures
            match spec_content_bytes(self.encoding, self.content@) {
                Ok(b) => r matches Ok(v) && v@ == b,
                Err(e) => r == Err::<Vec<u8>, ContentError>(e),
            },
    {
        content_bytes(self.encoding, self.content.as_str())
    }
}

/// Why writing a file failed.
#[derive(Clone, Copy, Debug, PartialEq, Eq, Structural)]
pub enum WriteError {
    /// The permissions are not an octal mode.
    Mode(ModeError),
    /// The owner's user does not exist.
    NoSuchUser,
    /// The owner's group does not exist.
    NoSuchGroup,
    /// The content could not be decoded.
    Content(ContentError),
    /// An event did not answer the action that was asked for.
    UnexpectedEvent,
}

/// What is done next to write a file. `S` is the type of text and `B` that of
/// bytes: `String` and `Vec<u8>` in running code, `Seq<char>` and `Seq<u8>`
/// in specifications.
#[derive(Debug)]
pub enum FileAction<S, B> {
    /// Create the parent directories of the path; answer `ParentReady`.
    CreateParentDir,
    /// Open the path with these options and creation mode; answer `Opened`.
    Open { flags: OpenFlags, mode: u32 },
    /// Look up this user; answer `UserFound`.
    LookupUser(S),
    /// Look up this group; answer `GroupFound`.
    LookupGroup(S),
    /// Give the file to this user and group; answer `Chowned`.
    Chown { uid: u32, gid: u32 },
    /// Write these bytes to the opened file and flush it; answer `Written`.
    Write(B),
    /// The file is written.
    Finished,
    /// Writing the file failed.
    Failed(WriteError),
}

/// What happened when an action was performed.
#[derive(Clone, Copy, Debug, PartialEq, Eq, Structural)]
pub enum FileEvent {
    ParentReady,
    Opened,
    /// The user's id, or `None` where there is no such user.
    UserFound(Option<u32>),
    /// The group's id, or `None` where there is no such group.
    GroupFound(Option<u32>),
    Chowned,
    Written,
}

impl View for FileAction<String, Vec<u8>> {
    type V = FileAction<Seq<char>, Seq<u8>>;

    open spec fn view(&self) -> FileAction<Seq<char>, Seq<u8>> {
        match self {
            FileAction::CreateParentDir => FileAction::CreateParentDir,
            FileAction::Open { flags, mode } => FileAction::Open { flags: *flags, mode: *mode },
            FileAction::LookupUser(u) => FileAction::LookupUser(u@),
            FileAction::LookupGroup(g) => FileAction::LookupGroup(g@),
            FileAction::Chown { uid, gid } => FileAction::Chown { uid: *uid, gid: *gid },
            FileAction::Write(b) => FileAction::Write(b@),
            FileAction::Finished => FileAction::Finished,
            FileAction::Failed(e) => FileAction::Failed(*e),
        }
    }
}

/// The write phase, whose event is expected at position `k`.
pub open spec fn spec_write_phase(f: File, e: Seq<FileEvent>, k: int) -> FileAction<
    Seq<char>,
    Seq<u8>,
> {
    match spec_content_bytes(f.encoding, f.content@) {
        Err(c) => FileAction::Failed(WriteError::Content(c)),
        Ok(b) => if e.len() == k {
            FileAction::Write(b)
        } else if e[k] == FileEvent::Written {
            FileAction::Finished
        } else {
            FileAction::Failed(WriteError::UnexpectedEvent)
        },
    }
}

/// The ownership phase, for a file whose owner names `user` and `group`; its
/// first event is expected at position 2.
pub open spec fn spec_owner_phase(f: File, e: Seq<FileEvent>, user: Seq<char>, group: Seq<char>) -> FileAction<
    Seq<char>,
    Seq<u8>,
> {
    if e.len() == 2 {
        FileAction::LookupUser(user)
    } else {
        match e[2] {
            FileEvent::UserFound(None) => FileAction::Failed(WriteError::NoSuchUser),
            FileEvent::UserFound(Some(uid)) => if e.len() == 3 {
                FileAction::LookupGroup(group)
            } else {
                match e[3] {
                    FileEvent::GroupFound(None) => FileAction::Failed(WriteError::NoSuchGroup),
                    FileEvent::GroupFound(Some(gid)) => if e.len() == 4 {
                        FileAction::Chown { uid, gid }
                    } else if e[4] == FileEvent::Chowned {
                        spec_write_phase(f, e, 5)
                    } else {
                        FileAction::Failed(WriteError::UnexpectedEvent)
                    },
                    _ => FileAction::Failed(WriteError::UnexpectedEvent),
                }
            },
            _ => FileAction::Failed(WriteError::UnexpectedEvent),
        }
    }
}

/// What is done next to write `f`, given the events so far: create the parent
/// directories, open the file (with the mode its permissions denote), hand it
/// to its owner where the owner names a `user:group`, then write its decoded
/// content.
pub open spec fn spec_file_step(f: File, e: Seq<FileEvent>) -> FileAction<Seq<char>, Seq<u8>> {
    if e.len() == 0 {
        FileAction::CreateParentDir
    } else if e[0] != FileEvent::ParentReady {
        FileAction::Failed(WriteError::UnexpectedEvent)
    } else {
        match spec_parse_mode(f.permissions@) {
            Err(m) => FileAction::Failed(WriteError::Mode(m)),
            Ok(mode) => if e.len() == 1 {
                FileAction::Open { flags: spec_open_flags(f.append), mode }
            } else if e[1] != FileEvent::Opened {
                FileAction::Failed(WriteError::UnexpectedEvent)
            } else {
                match f.owner {
                    Some(o) => match spec_split_once(o@, ':') {
                        Some((user, group)) => spec_owner_phase(f, e, user, group),
                        None => spec_write_phase(f, e, 2),
                    },
                    None => spec_write_phase(f, e, 2),
                }
            },
        }
    }
}

fn write_phase(f: &File, events: &Vec<FileEvent>, k: usize) -> (r: FileAction<String, Vec<u8>>)
    requires
        k <= events.len(),
    ensures
        r@ == spec_write_phase(*f, events@, k as int),
{
    match f.content_bytes() {
        Err(c) => FileAction::Failed(WriteError::Content(c)),
        Ok(b) => if events.len() == k {
            FileAction::Write(b)
        } else if events[k] == FileEvent::Written {
            FileAction::Finished
        } else {
            FileAction::Failed(WriteError::UnexpectedEvent)
        },
    }
}

fn owner_phase(f: &File, events: &Vec<FileEvent>, user: String, group: String) -> (r: FileAction<
    String,
    Vec<u8>,
>)
    requires
        events.len() >= 2,
    ensures
        r@ == spec_owner_phase(*f, events@, user@, group@),
{
    if events.len() == 2 {
        return FileAction::LookupUser(user);
    }
    match events[2] {
        FileEvent::UserFound(None) => FileAction::Failed(WriteError::NoSuchUser),
        FileEvent::UserFound(Some(uid)) => if events.len() == 3 {
            FileAction::LookupGroup(group)
        } else {
            match events[3] {
                FileEvent::GroupFound(None) => FileAction::Failed(WriteError::NoSuchGroup),
                FileEvent::GroupFound(Some(gid)) => if events.len() == 4 {
                    FileAction::Chown { uid, gid }
                } else if events[4] == FileEvent::Chowned {
                    write_phase(f, events, 5)
                } else {
                    FileAction::Failed(WriteError::UnexpectedEvent)
                },
                _ => FileAction::Failed(WriteError::UnexpectedEvent),
            }
        },
        _ => FileAction::Failed(WriteError::UnexpectedEvent),
    }
}

/// What is done next to write `f`, given the events so far.
pub fn file_step(f: &File, events: &Vec<FileEvent>) -> (r: FileAction<String, Vec<u8>>)
    ensures
        r@ == spec_file_step(*f, events@),
{
    if events.len() == 0 {
        return FileAction::CreateParentDir;
    }
    if events[0] != FileEvent::ParentReady {
        return FileAction::Failed(WriteError::UnexpectedEvent);
    }
    match f.mode() {
        Err(m) => FileAction::Failed(WriteError::Mode(m)),
        Ok(mode) => if events.len() == 1 {
            FileAction::Open { flags: f.open_flags(), mode }
        } else if events[1] != FileEvent::Opened {
            FileAction::Failed(WriteError::UnexpectedEvent)
        } else {
            match f.owner_user_group() {
                Some((user, group)) => owner_phase(f, events, user, group),
                None => write_phase(f, events, 2),
            }
        },
    }
}

/// A file whose permissions are not a mode is never opened: it fails right
/// after its parent directories are created.
pub proof fn lemma_bad_mode_never_opens(f: File, e: Seq<FileEvent>)
    requires
        spec_parse_mode(f.permissions@) is Err,
        e.len() >= 1,
        e[0] == FileEvent::ParentReady,
    ensures
        spec_file_step(f, e) == FileAction::<Seq<char>, Seq<u8>>::Failed(
            WriteError::Mode(spec_parse_mode(f.permissions@)->Err_0),
        ),
{
}

/// A file without a `user:group` owner is written right after it is opened,
/// and once written it is finished.
pub proof fn lemma_unowned_file_sequence(f: File, mode: u32, bytes: Seq<u8>)
    requires
        f.owner is None,
        spec_parse_mode(f.permissions@) == Ok::<u32, ModeError>(mode),
        spec_content_bytes(f.encoding, f.content@) == Ok::<Seq<u8>, ContentError>(bytes),
    ensures
        (spec_file_step(f, seq![]) == FileAction::<Seq<char>, Seq<u8>>::CreateParentDir),
        (spec_file_step(f, seq![FileEvent::ParentReady]) == (FileAction::<Seq<char>, Seq<u8>>::Open {
            flags: spec_open_flags(f.append),
            mode,
        })),
        (spec_file_step(f, seq![FileEvent::ParentReady, FileEvent::Opened]) == FileAction::<
            Seq<char>,
            Seq<u8>,
        >::Write(bytes)),
        (spec_file_step(f, seq![FileEvent::ParentReady, FileEvent::Opened, FileEvent::Written])
            == FileAction::<Seq<char>, Seq<u8>>::Finished),
{
}

/// Whatever the encoding, content that stands for the bytes `d` yields exactly
/// `d`: plain text is its own UTF-8 encoding, base64 is decoded, and base64 of
/// gzip is decoded then decompressed.
pub proof fn lemma_encodings_agree(
    d: Seq<u8>,
    plain: Seq<char>,
    b64: Seq<char>,
    b64gz: Seq<char>,
    z: Seq<u8>,
)
    requires
        encode_utf8(plain) == d,
        spec_base64_decode(encode_utf8(b64)) == Some(d),
        spec_base64_decode(encode_utf8(b64gz)) == Some(z),
        spec_gunzip(z) == Some(d),
    ensures
        spec_content_bytes(Encoding::Plain, plain) == Ok::<Seq<u8>, ContentError>(d),
        spec_content_bytes(Encoding::Base64, b64) == Ok::<Seq<u8>, ContentError>(d),
        spec_content_bytes(Encoding::Base64Gzip, b64gz) == Ok::<Seq<u8>, ContentError>(d),
{
}

/// Writing a file that is not appended to depends on the file alone, never on
/// what the path held before: every open truncates, and every write is of the
/// file's decoded content. So applying the same user data again leaves the same
/// contents.
pub proof fn lemma_replace_is_repeatable(f: File, e: Seq<FileEvent>)
    requires
        !f.append,
    ensures
        spec_file_step(f, e) matches FileAction::Open { flags, mode } ==> flags.truncate
            && !flags.append && flags.create && mode == spec_parse_mode(f.permissions@)->Ok_0,
        spec_file_step(f, e) matches FileAction::Write(b) ==> spec_content_bytes(
            f.encoding,
            f.content@,
        ) == Ok::<Seq<u8>, ContentError>(b),
{
}

/// A file is opened with options that its `append` field alone decides: it
/// is always created if missing and opened write-only; an appended file is
/// never emptied, and a replaced file is emptied and never appended to. The
/// owner, encoding and content play no part, and once the parent directories
/// exist a valid mode always leads to this open.
pub proof fn lemma_open_flags_follow_append(f: File, e: Seq<FileEvent>)
    ensures
        spec_file_step(f, e) matches FileAction::Open { flags, mode } ==> flags == (OpenFlags {
            create: true,
            truncate: !f.append,
            append: f.append,
            write: true,
            read: false,
        }),
        spec_parse_mode(f.permissions@) is Ok ==> spec_file_step(f, seq![FileEvent::ParentReady])
            == (FileAction::<Seq<char>, Seq<u8>>::Open {
            flags: OpenFlags {
                create: true,
                truncate: !f.append,
                append: f.append,
                write: true,
                read: false,
            },
            mode: spec_parse_mode(f.permissions@)->Ok_0,
        }),
{
}

} // verus!
