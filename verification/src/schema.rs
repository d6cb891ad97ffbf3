//! The user-data document: an optional hostname and the files to write.
use crate::text::{owned, str_eq};
use vstd::prelude::*;

verus! {

/// How the `content` of a file is encoded.
#[derive(Clone, Copy, Debug, PartialEq, Eq, Structural)]
pub enum Encoding {
    /// The content is written as it stands.
    Plain,
    /// The content is standard base64.
    Base64,
    /// The content is standard base64 of gzip-compressed data.
    Base64Gzip,
}

impl Default for Encoding {
    fn default() -> (r: Self)
        ensures
            r == Encoding::Plain,
    {
        Encoding::Plain
    }
}

/// The encoding that a name in the user data stands for: the canonical names
/// `plain`, `base64` and `base64gzip`, and their aliases.
pub open spec fn spec_encoding_from_name(n: Seq<char>) -> Option<Encoding> {
    if n == "plain"@ || n == "text/plain"@ {
        Some(Encoding::Plain)
    } else if n == "base64"@ || n == "b64"@ {
        Some(Encoding::Base64)
    } else if n == "base64gzip"@ || n == "gz+base64"@ || n == "gzip+base64"@ || n == "gz+b64"@
        || n == "gzip+b64"@ {
        Some(Encoding::Base64Gzip)
    } else {
        None
    }
}

/// The canonical name of an encoding.
pub open spec fn spec_encoding_name(e: Encoding) -> Seq<char> {
    match e {
        Encoding::Plain => "plain"@,
        Encoding::Base64 => "base64"@,
        Encoding::Base64Gzip => "base64gzip"@,
    }
}

impl Encoding {
    /// The encoding that `name` stands for in the user data, if any.
    pub fn from_name(name: &str) -> (r: Option<Encoding>)
        ensures
            r == spec_encoding_from_name(name@),
    {
        if str_eq(name, "plain") || str_eq(name, "text/plain") {
            Some(Encoding::Plain)
        } else if str_eq(name, "base64") || str_eq(name, "b64") {
            Some(Encoding::Base64)
        } else if str_eq(name, "base64gzip") || str_eq(name, "gz+base64") || str_eq(
            name,
            "gzip+base64",
        ) || str_eq(name, "gz+b64") || str_eq(name, "gzip+b64") {
            Some(Encoding::Base64Gzip)
        } else {
            None
        }
    }

    /// The canonical name of this encoding.
    pub fn name(&self) -> (r: &'static str)
        ensures
            r@ == spec_encoding_name(*self),
    {
        match self {
            Encoding::Plain => "plain",
            Encoding::Base64 => "base64",
            Encoding::Base64Gzip => "base64gzip",
        }
    }
}

/// Every encoding is found again from its canonical name.
pub proof fn lemma_encoding_name_roundtrip(e: Encoding)
    ensures
        spec_encoding_from_name(spec_encoding_name(e)) == Some(e),
{
    reveal_strlit("plain");
    reveal_strlit("text/plain");
    reveal_strlit("base64");
    reveal_strlit("b64");
    reveal_strlit("base64gzip");
    match e {
        Encoding::Plain => {},
        Encoding::Base64 => {
            assert("base64"@.len() != "plain"@.len());
            assert("base64"@.len() != "text/plain"@.len());
        },
        Encoding::Base64Gzip => {
            assert("base64gzip"@.len() != "plain"@.len());
            assert("base64gzip"@[0] != "text/plain"@[0]);
            assert("base64gzip"@.len() != "base64"@.len());
            assert("base64gzip"@.len() != "b64"@.len());
        },
    }
}

/// A file to be written.
pub struct File {
    /// Where the file goes; parent directories are created as needed.
    pub path: String,
    /// The content, encoded as `encoding` says.
    pub content: String,
    /// `user:group` that should own the file, if given.
    pub owner: Option<String>,
    /// The mode of a newly created file, as an octal string.
    pub permissions: String,
    /// How `content` is encoded.
    pub encoding: Encoding,
    /// Whether the content is appended to an existing file rather than
    /// replacing its content.
    pub append: bool,
}

/// The directives of the user data.
pub struct UserData {
    /// The hostname to set, if any.
    pub hostname: Option<String>,
    /// The files to write.
    pub files: Vec<File>,
}

/// The permissions of a file whose user data gives none: `0644`.
pub fn default_permissions() -> (r: String)
    ensures
        r@ == "0644"@,
{
    owned("0644")
}

} // verus!
