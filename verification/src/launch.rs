//! The run as a whole: the sources are tried in a fixed order until one finds
//! user data, whose first line must be an accepted header; the rest of it is
//! the document to apply.
use crate::source::{view_opt, SourceKind};
use crate::text::{lemma_first_index_at, spec_split_once, spec_trim, split_once, str_eq, trim};
use vstd::prelude::*;

verus! {

/// Why a run ends without applying user data.
#[derive(Clone, Copy, Debug, PartialEq, Eq, Structural)]
pub enum LaunchError {
    /// No source found user data.
    NoSuitableSource,
    /// The user data has no line break after its header.
    MalformedUserData,
    /// The header of the user data is not an accepted one.
    UnhandledShebang,
}

/// The accepted headers: `#cloud-seed`, and `#cloud-config` for cloud-init
/// compatibility.
pub open spec fn spec_allowed_shebang(h: Seq<char>) -> bool {
    h == "#cloud-seed"@ || h == "#cloud-config"@
}

/// The document that user data holds: everything after its first line break,
/// provided the text before it, trimmed, is an accepted header.
pub open spec fn spec_parse_user_data(ud: Seq<char>) -> Result<Seq<char>, LaunchError> {
    match spec_split_once(ud, '\n') {
        Some((h, c)) => if spec_allowed_shebang(spec_trim(h)) {
            Ok(c)
        } else {
            Err(LaunchError::UnhandledShebang)
        },
        None => Err(LaunchError::MalformedUserData),
    }
}

/// Checks the header of user data and returns the document after it.
pub fn parse_user_data(ud: &str) -> (r: Result<String, LaunchError>)
    ensures
        match spec_parse_user_data(ud@) {
            Ok(c) => r matches Ok(s) && s@ == c,
            Err(e) => r == Err::<String, LaunchError>(e),
        },
{
    match split_once(ud, '\n') {
        Some((header, content)) => {
            let h = trim(header.as_str());
            if str_eq(h.as_str(), "#cloud-seed") || str_eq(h.as_str(), "#cloud-config") {
                Ok(content)
            } else {
                Err(LaunchError::UnhandledShebang)
            }
        },
        None => Err(LaunchError::MalformedUserData),
    }
}

/// The order in which the sources are tried: every supported cloud; the first
/// that recognises its DMI value and finds user data decides the run.
pub open spec fn spec_source_order() -> Seq<SourceKind> {
    seq![
        SourceKind::Alibaba,
        SourceKind::Amazon,
        SourceKind::Exoscale,
        SourceKind::Gcorelabs,
        SourceKind::Google,
        SourceKind::Openstack,
        SourceKind::Oracle,
        SourceKind::Vultr,
    ]
}

/// The order in which the sources are tried.
pub fn source_order() -> (r: Vec<SourceKind>)
    ensures
        r@ == spec_source_order(),
{
    let mut r = Vec::new();
    r.push(SourceKind::Alibaba);
    r.push(SourceKind::Amazon);
    r.push(SourceKind::Exoscale);
    r.push(SourceKind::Gcorelabs);
    r.push(SourceKind::Google);
    r.push(SourceKind::Openstack);
    r.push(SourceKind::Oracle);
    r.push(SourceKind::Vultr);
    assert(r@ =~= spec_source_order());
    r
}

/// What the run does next.
#[derive(Debug)]
pub enum Launch<S> {
    /// Fetch user data from this source; add its result to the results.
    Fetch(SourceKind),
    /// Apply this document.
    Apply(S),
    /// End with this error.
    Fail(LaunchError),
}

impl View for Launch<String> {
    type V = Launch<Seq<char>>;

    open spec fn view(&self) -> Launch<Seq<char>> {
        match self {
            Launch::Fetch(k) => Launch::Fetch(*k),
            Launch::Apply(s) => Launch::Apply(s@),
            Launch::Fail(e) => Launch::Fail(*e),
        }
    }
}

/// The position of the first result that holds user data.
pub open spec fn first_found(r: Seq<Option<Seq<char>>>) -> Option<int>
    decreases r.len(),
{
    if r.len() == 0 {
        None
    } else if r[0] is Some {
        Some(0)
    } else {
        match first_found(r.drop_first()) {
            Some(i) => Some(i + 1),
            None => None,
        }
    }
}

/// The results of the sources tried so far, as specifications see them.
pub open spec fn results_view(r: Seq<Option<String>>) -> Seq<Option<Seq<char>>> {
    r.map_values(|x: Option<String>| view_opt(x))
}

/// What the run does next, given the results of the sources tried so far, in
/// the order they were tried: the first user data found decides the run;
/// without any, the next source is tried, and when all have been tried the run
/// fails.
pub open spec fn spec_launch_step(r: Seq<Option<Seq<char>>>) -> Launch<Seq<char>> {
    match first_found(r) {
        Some(i) => match spec_parse_user_data(r[i]->0) {
            Ok(c) => Launch::Apply(c),
            Err(e) => Launch::Fail(e),
        },
        None => if r.len() < spec_source_order().len() {
            Launch::Fetch(spec_source_order()[r.len() as int])
        } else {
            Launch::Fail(LaunchError::NoSuitableSource)
        },
    }
}

/// Where `i` is the first position holding user data (or `r.len()` where none
/// does), `first_found` says so.
pub proof fn lemma_first_found_at(r: Seq<Option<Seq<char>>>, i: int)
    requires
        0 <= i <= r.len(),
        forall|j: int| 0 <= j < i ==> #[trigger] r[j] is None,
        i == r.len() || r[i] is Some,
    ensures
        first_found(r) == (if i == r.len() {
            None::<int>
        } else {
            Some(i)
        }),
    decreases i,
{
    if r.len() == 0 {
    } else if i == 0 {
    } else {
        let t = r.drop_first();
        assert(r[0] is None);
        assert forall|j: int| 0 <= j < i - 1 implies #[trigger] t[j] is None by {
            assert(t[j] == r[j + 1]);
        }
        if i < r.len() {
            assert(t[i - 1] == r[i]);
        }
        lemma_first_found_at(t, i - 1);
    }
}

/// What the run does next, given the results of the sources tried so far.
pub fn launch_step(results: &Vec<Option<String>>) -> (r: Launch<String>)
    ensures
        r@ == spec_launch_step(results_view(results@)),
{
    let ghost rv = results_view(results@);
    let n = results.len();
    let mut i: usize = 0;
    while i < n && results[i].is_none()
        invariant
            i <= n == results.len(),
            rv == results_view(results@),
            forall|j: int| 0 <= j < i ==> #[trigger] rv[j] is None,
        decreases n - i,
    {
        assert(rv[i as int] == view_opt(results@[i as int]));
        i = i + 1;
    }
    if i < n {
        assert(rv[i as int] == view_opt(results@[i as int]));
    }
    proof {
        lemma_first_found_at(rv, i as int);
    }
    if i < n {
        match &results[i] {
            Some(ud) => match parse_user_data(ud.as_str()) {
                Ok(c) => Launch::Apply(c),
                Err(e) => Launch::Fail(e),
            },
            None => Launch::Fail(LaunchError::NoSuitableSource),
        }
    } else {
        let order = source_order();
        if n < order.len() {
            Launch::Fetch(order[n])
        } else {
            Launch::Fail(LaunchError::NoSuitableSource)
        }
    }
}

/// Each accepted header, followed by a line break and any document, yields
/// exactly that document.
pub proof fn lemma_header_roundtrip(h: Seq<char>, doc: Seq<char>)
    requires
        spec_allowed_shebang(h),
    ensures
        spec_parse_user_data(h + seq!['\n'] + doc) == Ok::<Seq<char>, LaunchError>(doc),
{
    reveal_strlit("#cloud-seed");
    reveal_strlit("#cloud-config");
    let ud = h + seq!['\n'] + doc;
    assert forall|j: int| 0 <= j < h.len() implies #[trigger] ud[j] != '\n' by {
        assert(ud[j] == h[j]);
    }
    assert(ud[h.len() as int] == '\n');
    lemma_first_index_at(ud, '\n', h.len() as int);
    assert(ud.take(h.len() as int) =~= h);
    assert(ud.skip(h.len() as int + 1) =~= doc);
    assert(crate::text::trim_start(h) == h);
    assert(crate::text::trim_end(h) == h);
}

/// When no source finds user data, every source is tried in turn and the run
/// then fails with `NoSuitableSource`.
pub proof fn lemma_no_user_data_anywhere(r: Seq<Option<Seq<char>>>)
    requires
        forall|j: int| 0 <= j < r.len() ==> #[trigger] r[j] is None,
    ensures
        r.len() < spec_source_order().len() ==> spec_launch_step(r) == Launch::<Seq<char>>::Fetch(
            spec_source_order()[r.len() as int],
        ),
        r.len() >= spec_source_order().len() ==> spec_launch_step(r) == Launch::<
            Seq<char>,
        >::Fail(LaunchError::NoSuitableSource),
{
    lemma_first_found_at(r, r.len() as int);
}

/// The first user data found decides the run, whatever later results hold.
pub proof fn lemma_first_user_data_decides(
    r: Seq<Option<Seq<char>>>,
    i: int,
    later: Seq<Option<Seq<char>>>,
)
    requires
        0 <= i < r.len(),
        forall|j: int| 0 <= j < i ==> #[trigger] r[j] is None,
        r[i] is Some,
    ensures
        spec_launch_step(r + later) == spec_launch_step(r.take(i + 1)),
        spec_launch_step(r) == match spec_parse_user_data(r[i]->0) {
            Ok(c) => Launch::Apply(c),
            Err(e) => Launch::<Seq<char>>::Fail(e),
        },
{
    let a = r + later;
    let b = r.take(i + 1);
    assert forall|j: int| 0 <= j < i implies #[trigger] a[j] is None by {
        assert(a[j] == r[j]);
    }
    assert forall|j: int| 0 <= j < i implies #[trigger] b[j] is None by {
        assert(b[j] == r[j]);
    }
    assert(a[i] == r[i]);
    assert(b[i] == r[i]);
    lemma_first_found_at(a, i);
    lemma_first_found_at(b, i);
    lemma_first_found_at(r, i);
}

/// User data without a line break is malformed.
pub proof fn lemma_no_line_break_is_malformed(ud: Seq<char>)
    requires
        forall|j: int| 0 <= j < ud.len() ==> #[trigger] ud[j] != '\n',
    ensures
        spec_parse_user_data(ud) == Err::<Seq<char>, LaunchError>(LaunchError::MalformedUserData),
{
    lemma_first_index_at(ud, '\n', ud.len() as int);
}

/// User data is accepted only under an accepted header: where its first line
/// break is at `i`, the result is the text after that line break exactly when
/// the text before it, trimmed, is `#cloud-seed` or `#cloud-config`, and
/// `UnhandledShebang` for every other first line.
pub proof fn lemma_header_decides(ud: Seq<char>, i: int)
    requires
        0 <= i < ud.len(),
        ud[i] == '\n',
        forall|j: int| 0 <= j < i ==> #[trigger] ud[j] != '\n',
    ensures
        (spec_trim(ud.take(i)) == "#cloud-seed"@ || spec_trim(ud.take(i)) == "#cloud-config"@)
            ==> spec_parse_user_data(ud) == Ok::<Seq<char>, LaunchError>(ud.skip(i + 1)),
        !(spec_trim(ud.take(i)) == "#cloud-seed"@ || spec_trim(ud.take(i)) == "#cloud-config"@)
            ==> spec_parse_user_data(ud) == Err::<Seq<char>, LaunchError>(
            LaunchError::UnhandledShebang,
        ),
{
    lemma_first_index_at(ud, '\n', i);
}

} // verus!
